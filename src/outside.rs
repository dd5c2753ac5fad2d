//! Trusted declarations of the outside items that the library calls.

use base64::Engine;
use vstd::prelude::*;
use vstd::utf8::encode_utf8;

verus! {

/// What `URL_SAFE_NO_PAD.encode` of base64 returns for the given bytes.
pub uninterp spec fn b64url_encoded(bytes: Seq<u8>) -> Seq<char>;

/// What `URL_SAFE_NO_PAD.decode` of base64 returns for the given text:
/// `Some` of the bytes when the text is accepted, `None` when it is refused.
pub uninterp spec fn b64url_decoded(text: Seq<char>) -> Option<Seq<u8>>;

/// The text that the `Display` of iroh-blobs' `BlobTicket` writes for a ticket.
pub uninterp spec fn blob_ticket_string(t: iroh_blobs::ticket::BlobTicket) -> Seq<char>;

/// The ticket that `BlobTicket::from_str` of iroh-blobs reads from the given
/// text, where it accepts the text.
pub uninterp spec fn parsed_blob_ticket(text: Seq<char>) -> iroh_blobs::ticket::BlobTicket;

/// Whether `BlobTicket::from_str` of iroh-blobs accepts the given text.
pub uninterp spec fn parses_as_blob_ticket(text: Seq<char>) -> bool;

/// A character of the URL-safe base64 alphabet (`A-Z a-z 0-9 - _`).
pub open spec fn is_url_safe_char(c: char) -> bool {
    ('A' <= c && c <= 'Z') || ('a' <= c && c <= 'z') || ('0' <= c && c <= '9') || c == '-'
        || c == '_'
}

/// A character that a blob ticket's text form uses: the kind prefix `blob`
/// followed by lower-case base32 (`a-z 2-7`).
pub open spec fn is_ticket_char(c: char) -> bool {
    ('a' <= c && c <= 'z') || ('2' <= c && c <= '7')
}

#[verifier::external_type_specification]
#[verifier::external_body]
pub struct ExBlobTicket(iroh_blobs::ticket::BlobTicket);

#[verifier::external_type_specification]
#[verifier::external_body]
pub struct ExTicketParseError(iroh_tickets::ParseError);

#[verifier::external_type_specification]
#[verifier::external_body]
pub struct ExDecodeError(base64::DecodeError);

/// Relies on `Engine::encode` of base64 with the `URL_SAFE_NO_PAD` engine:
/// the text uses the URL-safe alphabet only, and decoding it with the same
/// engine gives the bytes back. Without padding, `n` bytes take
/// `(4n + 2) / 3` characters. It sizes its buffer with a checked
/// multiplication, hence the bound on the length.
#[verifier::external_body]
pub(crate) fn b64url_encode(s: &str) -> (r: String)
    requires
        encode_utf8(s@).len() <= isize::MAX,
    ensures
        r@ == b64url_encoded(encode_utf8(s@)),
        b64url_decoded(r@) == Some(encode_utf8(s@)),
        r@.len() == (4 * encode_utf8(s@).len() + 2) / 3,
        forall|i: int| 0 <= i < r@.len() ==> is_url_safe_char(#[trigger] r@[i]),
{
    base64::engine::general_purpose::URL_SAFE_NO_PAD.encode(s)
}

/// Relies on `Engine::decode` of base64 with the `URL_SAFE_NO_PAD` engine:
/// a character outside the URL-safe alphabet (padding included, which this
/// engine refuses) or a length of one more than a multiple of four is an
/// error.
#[verifier::external_body]
pub(crate) fn b64url_decode(text: &str) -> (r: Result<Vec<u8>, base64::DecodeError>)
    ensures
        r is Ok <==> b64url_decoded(text@) is Some,
        r is Ok ==> b64url_decoded(text@) == Some(r->Ok_0@),
        (exists|i: int| 0 <= i < text@.len() && !is_url_safe_char(#[trigger] text@[i])) ==> r is Err,
        text@.len() % 4 == 1 ==> r is Err,
{
    base64::engine::general_purpose::URL_SAFE_NO_PAD.decode(text)
}

/// Relies on the `Display` of iroh-blobs' `BlobTicket`, which writes
/// `Ticket::encode_string`: the prefix `blob` and the lower-cased base32 of
/// the ticket's bytes. `BlobTicket::from_str` reads that form back.
#[verifier::external_body]
pub(crate) fn blob_ticket_text(t: &iroh_blobs::ticket::BlobTicket) -> (r: String)
    ensures
        r@ == blob_ticket_string(*t),
        parses_as_blob_ticket(r@),
        forall|i: int| 0 <= i < r@.len() ==> is_ticket_char(#[trigger] r@[i]),
{
    t.to_string()
}

/// Relies on `BlobTicket::from_str` of iroh-blobs (`Ticket::decode_string`).
#[verifier::external_body]
pub(crate) fn parse_blob_ticket(text: &str) -> (r: Result<
    iroh_blobs::ticket::BlobTicket,
    iroh_tickets::ParseError,
>)
    ensures
        r is Ok <==> parses_as_blob_ticket(text@),
        r matches Ok(t) ==> t == parsed_blob_ticket(text@),
{
    text.parse()
}

/// Relies on `String::push` of std: the character is appended.
#[verifier::external_body]
pub(crate) fn push_char(s: &mut String, c: char)
    ensures
        final(s)@ == old(s)@.push(c),
{
    s.push(c)
}

} // verus!
