//! The portable ticket: `<locator text>!<name encoding>`, where the name
//! encoding is URL-safe base64 without padding of the filename's bytes.

use crate::outside::{
    b64url_decode, b64url_decoded, b64url_encode, b64url_encoded, blob_ticket_string,
    blob_ticket_text, is_ticket_char, is_url_safe_char, parse_blob_ticket, parsed_blob_ticket, parses_as_blob_ticket,
    push_char,
};
use vstd::prelude::*;
use vstd::string::StrSliceExecFns;
use vstd::utf8::{encode_utf8, is_ascii_chars};

verus! {

/// Why a ticket string could not be read.
#[derive(Clone, Copy, Debug, PartialEq, Eq, Structural)]
pub enum TicketError {
    /// The string holds no `!`.
    MissingSeparator,
    /// The text before the first `!` is not a blob ticket.
    MalformedLocator,
    /// The text after the first `!` is not URL-safe base64 without padding.
    MalformedName,
}

/// A ticket as it travels: the locator's text form and the encoded filename.
pub struct BlobData {
    pub locator: String,
    pub encoded_name: String,
}

pub open spec fn has_no_separator(s: Seq<char>) -> bool {
    forall|i: int| 0 <= i < s.len() ==> s[i] != '!'
}

/// `i` is the position of the first `!` in `s`.
pub open spec fn first_separator(s: Seq<char>, i: int) -> bool {
    0 <= i < s.len() && s[i] == '!' && has_no_separator(s.take(i))
}

/// Each byte read as the character with that code point.
pub open spec fn bytes_as_chars(b: Seq<u8>) -> Seq<char> {
    b.map_values(|x: u8| x as char)
}

/// The text of a ticket with the given parts.
pub open spec fn ticket_text(locator: Seq<char>, encoded_name: Seq<char>) -> Seq<char> {
    locator + seq!['!'] + encoded_name
}

/// The portable string for a locator text and a filename.
pub open spec fn encode_spec(locator: Seq<char>, name: Seq<char>) -> Seq<char> {
    ticket_text(locator, b64url_encoded(encode_utf8(name)))
}

/// Splits a ticket string at its first `!` and checks the locator.
pub open spec fn split_spec(s: Seq<char>) -> Result<(Seq<char>, Seq<char>), TicketError> {
    if has_no_separator(s) {
        Err(TicketError::MissingSeparator)
    } else {
        let i = choose|i: int| first_separator(s, i);
        if !parses_as_blob_ticket(s.take(i)) {
            Err(TicketError::MalformedLocator)
        } else {
            Ok((s.take(i), s.skip(i + 1)))
        }
    }
}

/// The filename held in an encoded name.
pub open spec fn name_spec(encoded_name: Seq<char>) -> Result<Seq<char>, TicketError> {
    match b64url_decoded(encoded_name) {
        Some(b) => Ok(bytes_as_chars(b)),
        None => Err(TicketError::MalformedName),
    }
}

/// A portable string read back as a locator text and a filename.
pub open spec fn decode_spec(s: Seq<char>) -> Result<(Seq<char>, Seq<char>), TicketError> {
    match split_spec(s) {
        Ok(parts) => match name_spec(parts.1) {
            Ok(name) => Ok((parts.0, name)),
            Err(e) => Err(e),
        },
        Err(e) => Err(e),
    }
}

proof fn lemma_first_separator_unique(s: Seq<char>, i: int, j: int)
    requires
        first_separator(s, i),
        first_separator(s, j),
    ensures
        i == j,
{
    if i < j {
        assert(s.take(j)[i] == s[i]);
    } else if j < i {
        assert(s.take(i)[j] == s[j]);
    }
}

proof fn lemma_split_at(s: Seq<char>, i: int)
    requires
        first_separator(s, i),
    ensures
        !has_no_separator(s),
        split_spec(s) == (if parses_as_blob_ticket(s.take(i)) {
            Ok((s.take(i), s.skip(i + 1)))
        } else {
            Err(TicketError::MalformedLocator)
        }),
{
    assert(s[i] == '!');
    let k = choose|k: int| first_separator(s, k);
    lemma_first_separator_unique(s, i, k);
}

/// For an ASCII filename, the bytes that encode it read back, one character
/// per byte, as the filename itself.
proof fn lemma_ascii_bytes_as_chars(name: Seq<char>)
    requires
        is_ascii_chars(name),
    ensures
        bytes_as_chars(encode_utf8(name)) == name,
{
    vstd::utf8::is_ascii_chars_encode_utf8(name);
    let b = encode_utf8(name);
    assert forall|i: int| 0 <= i < name.len() implies #[trigger] bytes_as_chars(b)[i] == name[i] by {
        assert(b[i] == name[i] as u8);
        assert('\0' <= name[i] <= '\u{7f}');
    }
    assert(bytes_as_chars(b) =~= name);
}

/// A ticket text whose locator holds no `!` splits back into its parts.
proof fn lemma_split_ticket_text(locator: Seq<char>, encoded_name: Seq<char>)
    requires
        has_no_separator(locator),
    ensures
        split_spec(ticket_text(locator, encoded_name)) == (if parses_as_blob_ticket(locator) {
            Ok::<_, TicketError>((locator, encoded_name))
        } else {
            Err(TicketError::MalformedLocator)
        }),
{
    let s = ticket_text(locator, encoded_name);
    let i = locator.len() as int;
    assert(s.take(i) =~= locator);
    assert(s.skip(i + 1) =~= encoded_name);
    assert(first_separator(s, i));
    lemma_split_at(s, i);
}

/// Decoding refuses a string without `!` with `MissingSeparator`, and one
/// whose text before the first `!` is no blob ticket with `MalformedLocator`.
pub proof fn lemma_decode_rejects(s: Seq<char>, i: int)
    ensures
        has_no_separator(s) ==> decode_spec(s) == Err::<(Seq<char>, Seq<char>), _>(
            TicketError::MissingSeparator,
        ),
        first_separator(s, i) && !parses_as_blob_ticket(s.take(i)) ==> decode_spec(s) == Err::<
            (Seq<char>, Seq<char>),
            _,
        >(TicketError::MalformedLocator),
{
    if first_separator(s, i) {
        lemma_split_at(s, i);
    }
}

/// The portable string for a blob ticket and a filename: the ticket's text,
/// `!`, and the filename's bytes in URL-safe base64 without padding. An
/// ASCII filename comes back unchanged from `decode`.
pub fn encode(ticket: iroh_blobs::ticket::BlobTicket, name: String) -> (r: String)
    requires
        encode_utf8(name@).len() <= isize::MAX,
    ensures
        r@ == encode_spec(blob_ticket_string(ticket), name@),
        is_ascii_chars(name@) ==> decode_spec(r@) == Ok::<_, TicketError>(
            (blob_ticket_string(ticket), name@),
        ),
        forall|i: int| 0 <= i < r@.len() ==> #[trigger] r@[i] != '\n',
{
    let data = BlobData::new(ticket, name);
    let r = data.to_string();
    proof {
        assert forall|i: int| 0 <= i < r@.len() implies #[trigger] r@[i] != '\n' by {
            let k = data.locator@.len() as int;
            if i < k {
                assert(is_ticket_char(data.locator@[i]));
            } else if i > k {
                assert(r@[i] == data.encoded_name@[i - k - 1]);
                assert(is_url_safe_char(data.encoded_name@[i - k - 1]));
            }
        }
        lemma_split_ticket_text(data.locator@, data.encoded_name@);
        if is_ascii_chars(name@) {
            lemma_ascii_bytes_as_chars(name@);
        }
    }
    r
}

/// Reads a portable string back into the ticket's parts and its filename.
pub fn decode(s: &str) -> (r: Result<(BlobData, String), TicketError>)
    ensures
        r is Ok <==> decode_spec(s@) is Ok,
        r matches Ok(parts) ==> parts.0.wf() && decode_spec(s@) == Ok::<_, TicketError>(
            (parts.0.locator@, parts.1@),
        ),
        r matches Err(e) ==> decode_spec(s@) == Err::<(Seq<char>, Seq<char>), _>(e),
{
    let data = BlobData::from_str(s)?;
    let name = data.decode_name()?;
    Ok((data, name))
}

impl BlobData {
    /// The locator text is a blob ticket and holds no separator.
    pub open spec fn wf(&self) -> bool {
        parses_as_blob_ticket(self.locator@) && has_no_separator(self.locator@)
    }

    /// The ticket for `ticket` that carries the filename `name`.
    pub fn new(ticket: iroh_blobs::ticket::BlobTicket, name: String) -> (r: BlobData)
        requires
            encode_utf8(name@).len() <= isize::MAX,
        ensures
            r.wf(),
            r.locator@ == blob_ticket_string(ticket),
            r.encoded_name@ == b64url_encoded(encode_utf8(name@)),
            is_ascii_chars(name@) ==> name_spec(r.encoded_name@) == Ok::<_, TicketError>(name@),
            forall|i: int| 0 <= i < r.locator@.len() ==> is_ticket_char(#[trigger] r.locator@[i]),
            forall|i: int|
                0 <= i < r.encoded_name@.len() ==> is_url_safe_char(#[trigger] r.encoded_name@[i]),
    {
        let locator = blob_ticket_text(&ticket);
        let encoded_name = b64url_encode(name.as_str());
        assert(has_no_separator(locator@)) by {
            assert forall|i: int| 0 <= i < locator@.len() implies locator@[i] != '!' by {
                assert(is_ticket_char(locator@[i]));
            }
        }
        proof {
            if is_ascii_chars(name@) {
                lemma_ascii_bytes_as_chars(name@);
            }
        }
        BlobData { locator, encoded_name }
    }

    /// The portable string: the locator text, `!`, and the encoded name.
    pub fn to_string(&self) -> (r: String)
        ensures
            r@ == ticket_text(self.locator@, self.encoded_name@),
    {
        let mut r = self.locator.clone();
        push_char(&mut r, '!');
        r.append(self.encoded_name.as_str());
        assert(r@ == ticket_text(self.locator@, self.encoded_name@));
        r
    }

    /// Reads a portable string: splits it at its first `!`, requires the
    /// part before it to be a blob ticket, and keeps the rest, all of it,
    /// as the encoded name.
    pub fn from_str(s: &str) -> (r: Result<BlobData, TicketError>)
        ensures
            r is Ok <==> split_spec(s@) is Ok,
            r matches Ok(b) ==> b.wf() && split_spec(s@) == Ok::<_, TicketError>(
                (b.locator@, b.encoded_name@),
            ),
            r matches Err(e) ==> split_spec(s@) == Err::<(Seq<char>, Seq<char>), _>(e),
    {
        let n = s.unicode_len();
        let mut i: usize = 0;
        while i < n && s.get_char(i) != '!'
            invariant
                n == s@.len(),
                i <= n,
                has_no_separator(s@.take(i as int)),
            decreases n - i,
        {
            assert(s@.take(i as int + 1) =~= s@.take(i as int).push(s@[i as int]));
            i = i + 1;
        }
        if i == n {
            assert(s@.take(n as int) =~= s@);
            return Err(TicketError::MissingSeparator);
        }
        proof {
            lemma_split_at(s@, i as int);
        }
        let locator_text = s.substring_char(0, i);
        let rest = s.substring_char(i + 1, n);
        assert(locator_text@ =~= s@.take(i as int));
        assert(rest@ =~= s@.skip(i as int + 1));
        match parse_blob_ticket(locator_text) {
            Ok(_) => Ok(BlobData { locator: locator_text.to_owned(), encoded_name: rest.to_owned() }),
            Err(_) => Err(TicketError::MalformedLocator),
        }
    }

    /// The filename: the encoded name decoded from base64, each byte read
    /// as one character.
    pub fn decode_name(&self) -> (r: Result<String, TicketError>)
        ensures
            r matches Ok(name) ==> name_spec(self.encoded_name@) == Ok::<_, TicketError>(name@),
            r matches Err(e) ==> name_spec(self.encoded_name@) == Err::<Seq<char>, _>(e),
            (exists|i: int|
                0 <= i < self.encoded_name@.len() && !is_url_safe_char(
                    #[trigger] self.encoded_name@[i],
                )) ==> r == Err::<String, _>(TicketError::MalformedName),
    {
        match b64url_decode(self.encoded_name.as_str()) {
            Ok(bytes) => {
                let mut name = String::new();
                let mut i: usize = 0;
                while i < bytes.len()
                    invariant
                        i <= bytes@.len(),
                        name@ == bytes_as_chars(bytes@.take(i as int)),
                    decreases bytes@.len() - i,
                {
                    assert(bytes@.take(i as int + 1) =~= bytes@.take(i as int).push(bytes@[i as int]));
                    push_char(&mut name, bytes[i] as char);
                    i = i + 1;
                    assert(name@ =~= bytes_as_chars(bytes@.take(i as int)));
                }
                assert(bytes@.take(bytes@.len() as int) =~= bytes@);
                Ok(name)
            },
            Err(_) => Err(TicketError::MalformedName),
        }
    }

    /// The blob ticket that the locator text stands for.
    pub fn ticket(&self) -> (r: iroh_blobs::ticket::BlobTicket)
        requires
            self.wf(),
        ensures
            r == parsed_blob_ticket(self.locator@),
    {
        parse_blob_ticket(self.locator.as_str()).unwrap()
    }
}

} // verus!
