//! The decisions of a send slot and of a receive session. The caller performs
//! the network and disk work that they ask for and reports what came of it.

use crate::outside::blob_ticket_string;
use crate::ticket::{decode, decode_spec, encode, encode_spec, BlobData, TicketError};
use vstd::prelude::*;
use vstd::utf8::{encode_utf8, is_ascii_chars};

verus! {

/// The progress value of a finished download; progress counts thousandths.
pub const PROGRESS_MAX: u32 = 1000;

/// Why a receive session failed.
#[derive(Clone, Copy, Debug, PartialEq, Eq, Structural)]
pub enum ReceiveError {
    /// The ticket string could not be read.
    InvalidTicket(TicketError),
    /// A directory already stands where the file would be written.
    DestinationIsDirectory,
    /// The content could not be fetched from the peer.
    DownloadFailed,
    /// The fetched content could not be written to the destination.
    ExportFailed,
}

/// Why a send session failed.
#[derive(Clone, Copy, Debug, PartialEq, Eq, Structural)]
pub enum SendError {
    /// The path could not be made absolute.
    PathResolution,
    /// The file could not be added to the content store.
    PublishFailed,
    /// The path has no file name, or the name is not text.
    InvalidFilename,
}

pub open spec fn ticket_error_text(e: TicketError) -> Seq<char> {
    match e {
        TicketError::MissingSeparator => "the ticket has no '!' separator"@,
        TicketError::MalformedLocator => "the ticket's locator is malformed"@,
        TicketError::MalformedName => "the ticket's file name is malformed"@,
    }
}

pub open spec fn receive_error_text(e: ReceiveError) -> Seq<char> {
    match e {
        ReceiveError::InvalidTicket(t) => ticket_error_text(t),
        ReceiveError::DestinationIsDirectory => "a directory exists at the destination"@,
        ReceiveError::DownloadFailed => "the download failed"@,
        ReceiveError::ExportFailed => "the file could not be written"@,
    }
}

pub open spec fn send_error_text(e: SendError) -> Seq<char> {
    match e {
        SendError::PathResolution => "the path could not be resolved"@,
        SendError::PublishFailed => "the file could not be published"@,
        SendError::InvalidFilename => "the file name is missing or not valid UTF-8"@,
    }
}

/// The status line shown for a failure described by `text`.
pub open spec fn error_message(text: Seq<char>) -> Seq<char> {
    "Error: "@ + text
}

impl TicketError {
    /// A short description for the status line.
    pub fn describe(&self) -> (r: &'static str)
        ensures
            r@ == ticket_error_text(*self),
    {
        match self {
            TicketError::MissingSeparator => "the ticket has no '!' separator",
            TicketError::MalformedLocator => "the ticket's locator is malformed",
            TicketError::MalformedName => "the ticket's file name is malformed",
        }
    }
}

impl ReceiveError {
    /// A short description for the status line.
    pub fn describe(&self) -> (r: &'static str)
        ensures
            r@ == receive_error_text(*self),
    {
        match self {
            ReceiveError::InvalidTicket(t) => t.describe(),
            ReceiveError::DestinationIsDirectory => "a directory exists at the destination",
            ReceiveError::DownloadFailed => "the download failed",
            ReceiveError::ExportFailed => "the file could not be written",
        }
    }
}

impl SendError {
    /// A short description for the status line.
    pub fn describe(&self) -> (r: &'static str)
        ensures
            r@ == send_error_text(*self),
    {
        match self {
            SendError::PathResolution => "the path could not be resolved",
            SendError::PublishFailed => "the file could not be published",
            SendError::InvalidFilename => "the file name is missing or not valid UTF-8",
        }
    }
}

/// "Error: " followed by `text`.
pub fn error_line(text: &str) -> (r: String)
    ensures
        r@ == error_message(text@),
{
    let mut r = "Error: ".to_owned();
    r.append(text);
    r
}

/// The thousandths of a download that `received` of `total` bytes make,
/// counting at most all of it; nothing is known of an empty total.
pub open spec fn progress_of(received: u64, total: u64) -> int {
    if total == 0 {
        0
    } else if received >= total {
        PROGRESS_MAX as int
    } else {
        (received as int * PROGRESS_MAX as int) / (total as int)
    }
}

/// The state of one receive session, read by the caller that shows it.
pub struct DownloadStatus {
    pub message: String,
    /// Thousandths of the download done, `0..=PROGRESS_MAX`.
    pub progress: u32,
    pub in_progress: bool,
    pub done: bool,
}

impl DownloadStatus {
    /// Progress is in range, and a session is never both running and done.
    pub open spec fn wf(&self) -> bool {
        self.progress <= PROGRESS_MAX && !(self.in_progress && self.done)
    }

    /// The session ended in failure with the given error.
    pub open spec fn failed_with(&self, e: ReceiveError) -> bool {
        &&& !self.in_progress
        &&& !self.done
        &&& self.message@ == error_message(receive_error_text(e))
    }

    /// A status before any download.
    pub fn new() -> (r: DownloadStatus)
        ensures
            r.wf(),
            r.message@ == "No download in progress."@,
            r.progress == 0,
            !r.in_progress,
            !r.done,
    {
        DownloadStatus {
            message: "No download in progress.".to_owned(),
            progress: 0,
            in_progress: false,
            done: false,
        }
    }

    /// The caller has asked for a download and is about to start it.
    pub fn request(&mut self)
        ensures
            final(self).message@ == "Downloading file now..."@,
            final(self).progress == old(self).progress,
            final(self).in_progress == old(self).in_progress,
            final(self).done == old(self).done,
    {
        self.message = "Downloading file now...".to_owned();
    }

    /// A new session starts: nothing fetched yet.
    pub fn begin(&mut self)
        ensures
            final(self).wf(),
            final(self).message@ == "Starting download..."@,
            final(self).progress == 0,
            final(self).in_progress,
            !final(self).done,
    {
        self.in_progress = true;
        self.done = false;
        self.progress = 0;
        self.message = "Starting download...".to_owned();
    }

    /// The service reports that `received` of `total` bytes are here.
    pub fn report_progress(&mut self, received: u64, total: u64)
        requires
            old(self).in_progress,
            old(self).wf(),
        ensures
            final(self).wf(),
            final(self).progress == progress_of(received, total),
            final(self).message@ == "Downloading..."@,
            final(self).in_progress,
            !final(self).done,
    {
        let p: u32 = if total == 0 {
            0
        } else if received >= total {
            PROGRESS_MAX
        } else {
            proof {
                assert(received as int * PROGRESS_MAX as int <= u64::MAX as int * 1000)
                    by (nonlinear_arith);
                assert(received as int * PROGRESS_MAX as int <= total as int * PROGRESS_MAX as int)
                    by (nonlinear_arith)
                    requires
                        received < total,
                ;
                assert((received as int * PROGRESS_MAX as int) / (total as int) <= PROGRESS_MAX as int)
                    by (nonlinear_arith)
                    requires
                        received < total,
                        total > 0,
                ;
            }
            let scaled: u128 = received as u128 * PROGRESS_MAX as u128;
            (scaled / total as u128) as u32
        };
        self.progress = p;
        self.message = "Downloading...".to_owned();
    }

    /// The session fails with `e`; the progress reached stays as it was.
    pub fn fail(&mut self, e: ReceiveError)
        requires
            old(self).wf(),
        ensures
            final(self).wf(),
            final(self).failed_with(e),
            final(self).progress == old(self).progress,
    {
        self.in_progress = false;
        self.done = false;
        self.message = error_line(e.describe());
    }

    /// The session has written the file: it is done, with full progress.
    pub fn succeed(&mut self)
        ensures
            final(self).wf(),
            final(self).done,
            !final(self).in_progress,
            final(self).progress == PROGRESS_MAX,
            final(self).message@ == "File downloaded."@,
    {
        self.in_progress = false;
        self.done = true;
        self.progress = PROGRESS_MAX;
        self.message = "File downloaded.".to_owned();
    }
}

/// The first step of a receive: the session starts, and the ticket string is
/// read into the ticket's parts and the filename. A ticket that cannot be
/// read ends the session with `InvalidTicket`.
pub fn receive_begin(status: &mut DownloadStatus, input_ticket: &str) -> (r: Result<
    (BlobData, String),
    ReceiveError,
>)
    ensures
        final(status).wf(),
        match decode_spec(input_ticket@) {
            Ok(parts) => {
                &&& r matches Ok(d) && d.0.wf() && d.0.locator@ == parts.0 && d.1@ == parts.1
                &&& final(status).in_progress
                &&& !final(status).done
                &&& final(status).progress == 0
                &&& final(status).message@ == "Starting download..."@
            },
            Err(e) => {
                &&& r == Err::<(BlobData, String), _>(ReceiveError::InvalidTicket(e))
                &&& final(status).failed_with(ReceiveError::InvalidTicket(e))
            },
        },
{
    status.begin();
    match decode(input_ticket) {
        Ok(parts) => Ok(parts),
        Err(e) => {
            status.fail(ReceiveError::InvalidTicket(e));
            Err(ReceiveError::InvalidTicket(e))
        },
    }
}

/// The destination check: a directory where the file would be written ends
/// the session with `DestinationIsDirectory`; otherwise nothing changes.
pub fn check_destination(status: &mut DownloadStatus, is_dir: bool) -> (r: Result<(), ReceiveError>)
    requires
        old(status).wf(),
    ensures
        final(status).wf(),
        is_dir ==> {
            &&& r == Err::<(), _>(ReceiveError::DestinationIsDirectory)
            &&& final(status).failed_with(ReceiveError::DestinationIsDirectory)
        },
        !is_dir ==> r is Ok && *final(status) == *old(status),
{
    if is_dir {
        status.fail(ReceiveError::DestinationIsDirectory);
        Err(ReceiveError::DestinationIsDirectory)
    } else {
        Ok(())
    }
}

/// The download has ended: on success the session goes on to write the
/// file; otherwise it ends with `DownloadFailed`.
pub fn download_finished(status: &mut DownloadStatus, fetched: bool) -> (r: Result<(), ReceiveError>)
    requires
        old(status).wf(),
        old(status).in_progress,
    ensures
        final(status).wf(),
        fetched ==> {
            &&& r is Ok
            &&& final(status).in_progress
            &&& !final(status).done
            &&& final(status).progress == old(status).progress
            &&& final(status).message@ == "Saving file..."@
        },
        !fetched ==> r == Err::<(), _>(ReceiveError::DownloadFailed) && final(status).failed_with(
            ReceiveError::DownloadFailed,
        ),
{
    if fetched {
        status.message = "Saving file...".to_owned();
        Ok(())
    } else {
        status.fail(ReceiveError::DownloadFailed);
        Err(ReceiveError::DownloadFailed)
    }
}

/// The file has been written, or not: the session ends done with full
/// progress, or with `ExportFailed`.
pub fn export_finished(status: &mut DownloadStatus, written: bool) -> (r: Result<(), ReceiveError>)
    requires
        old(status).wf(),
    ensures
        final(status).wf(),
        written ==> {
            &&& r is Ok
            &&& final(status).done
            &&& !final(status).in_progress
            &&& final(status).progress == PROGRESS_MAX
            &&& final(status).message@ == "File downloaded."@
        },
        !written ==> r == Err::<(), _>(ReceiveError::ExportFailed) && final(status).failed_with(
            ReceiveError::ExportFailed,
        ),
{
    if written {
        status.succeed();
        Ok(())
    } else {
        status.fail(ReceiveError::ExportFailed);
        Err(ReceiveError::ExportFailed)
    }
}

/// The ticket string for a file published as `ticket`: `InvalidFilename`
/// when the path gave no file name, else the portable string of the ticket
/// and that name.
pub fn publish_ticket(ticket: iroh_blobs::ticket::BlobTicket, file_name: Option<String>) -> (r:
    Result<String, SendError>)
    requires
        file_name matches Some(n) ==> encode_utf8(n@).len() <= isize::MAX,
    ensures
        match file_name {
            None => r == Err::<String, _>(SendError::InvalidFilename),
            Some(n) => r matches Ok(t) && t@ == encode_spec(blob_ticket_string(ticket), n@) && (
            is_ascii_chars(n@) ==> decode_spec(t@) == Ok::<_, TicketError>(
                (blob_ticket_string(ticket), n@),
            )),
        },
{
    match file_name {
        None => Err(SendError::InvalidFilename),
        Some(n) => Ok(encode(ticket, n)),
    }
}

/// What the caller does when a send starts: first cancel the hosting
/// session `cancel`, if there is one, then start session `session`.
pub struct SendStart {
    pub cancel: Option<u64>,
    pub session: u64,
}

/// The one send slot: the status line and ticket shown to the user, the
/// session that may be hosting, and the number the next session gets.
pub struct SendSlot {
    pub status: String,
    pub ticket: Option<String>,
    pub active: Option<u64>,
    pub next_session: u64,
    /// The sessions that were named for cancellation, or ended in failure.
    pub released: Ghost<Set<u64>>,
}

impl SendSlot {
    /// Session `s` was started and has been neither named for cancellation
    /// nor ended: it may still be hosting.
    pub open spec fn live(&self, s: u64) -> bool {
        s < self.next_session && !self.released@.contains(s)
    }

    /// Session numbers are handed out in order, and the only live session is
    /// the active one.
    pub open spec fn wf(&self) -> bool {
        &&& self.active matches Some(a) ==> self.live(a)
        &&& forall|s: u64| #[trigger] self.live(s) ==> self.active == Some(s)
        &&& forall|s: u64| #[trigger] self.released@.contains(s) ==> s < self.next_session
    }

    /// A slot with no file and no session.
    pub fn new() -> (r: SendSlot)
        ensures
            r.wf(),
            r.status@ == "Waiting"@,
            r.ticket is None,
            r.active is None,
            r.next_session == 0,
            r.released@.is_empty(),
    {
        SendSlot {
            status: "Waiting".to_owned(),
            ticket: None,
            active: None,
            next_session: 0,
            released: Ghost(Set::empty()),
        }
    }

    /// A new file was picked: the ticket shown is cleared.
    pub fn file_picked(&mut self)
        requires
            old(self).wf(),
        ensures
            final(self).wf(),
            final(self).status@ == "File selected. Ready to send."@,
            final(self).ticket is None,
            final(self).active == old(self).active,
            final(self).next_session == old(self).next_session,
            final(self).released == old(self).released,
    {
        let ghost prev = *self;
        self.status = "File selected. Ready to send.".to_owned();
        self.ticket = None;
        proof {
            lemma_same_sessions(prev, *self);
        }
    }

    /// A send is asked for. The session that was hosting, if any, is named
    /// for cancellation before the new one, which has a number never used
    /// before; the new one is then the only live session.
    pub fn start_send(&mut self) -> (r: SendStart)
        requires
            old(self).wf(),
            old(self).next_session < u64::MAX,
        ensures
            final(self).wf(),
            r.cancel == old(self).active,
            r.session == old(self).next_session,
            final(self).active == Some(r.session),
            final(self).next_session == old(self).next_session + 1,
            final(self).released@ == (match r.cancel {
                Some(c) => old(self).released@.insert(c),
                None => old(self).released@,
            }),
            final(self).status@ == "Sending..."@,
            final(self).ticket == old(self).ticket,
    {
        let ghost prev = *self;
        let cancel = self.active;
        let session = self.next_session;
        if let Some(c) = cancel {
            self.released = Ghost(self.released@.insert(c));
        }
        self.active = Some(session);
        self.next_session = session + 1;
        self.status = "Sending...".to_owned();
        proof {
            assert forall|s: u64| #[trigger] self.live(s) implies self.active == Some(s) by {
                if s != session {
                    assert(prev.live(s));
                }
            }
            assert forall|s: u64| #[trigger] self.released@.contains(s) implies s
                < self.next_session by {
                if cancel != Some(s) {
                    assert(prev.released@.contains(s));
                }
            }
        }
        SendStart { cancel, session }
    }

    /// Session `session` has finished publishing. Only the active session
    /// changes the slot: with a ticket it is hosting; with an error it ends.
    pub fn send_finished(&mut self, session: u64, result: Result<String, SendError>)
        requires
            old(self).wf(),
        ensures
            final(self).wf(),
            final(self).next_session == old(self).next_session,
            old(self).active == Some(session) ==> match result {
                Ok(t) => {
                    &&& final(self).ticket == Some(t)
                    &&& final(self).status@ == "Now hosting file."@
                    &&& final(self).active == Some(session)
                    &&& final(self).released == old(self).released
                },
                Err(e) => {
                    &&& final(self).ticket is None
                    &&& final(self).status@ == error_message(send_error_text(e))
                    &&& final(self).active is None
                    &&& final(self).released@ == old(self).released@.insert(session)
                },
            },
            old(self).active != Some(session) ==> *final(self) == *old(self),
    {
        let ghost prev = *self;
        if self.active == Some(session) {
            match result {
                Ok(t) => {
                    self.ticket = Some(t);
                    self.status = "Now hosting file.".to_owned();
                    proof {
                        lemma_same_sessions(prev, *self);
                    }
                },
                Err(e) => {
                    self.ticket = None;
                    self.status = error_line(e.describe());
                    self.active = None;
                    self.released = Ghost(self.released@.insert(session));
                    proof {
                        lemma_release_active(prev, *self, session);
                    }
                },
            }
        }
    }

    /// The user stops sharing: the hosting session, if any, is named for
    /// cancellation, and the slot holds no session and no ticket.
    pub fn stop(&mut self) -> (r: Option<u64>)
        requires
            old(self).wf(),
        ensures
            final(self).wf(),
            r == old(self).active,
            r matches Some(a) ==> {
                &&& final(self).active is None
                &&& final(self).ticket is None
                &&& final(self).status@ == "Transfer stopped by user."@
                &&& final(self).next_session == old(self).next_session
                &&& final(self).released@ == old(self).released@.insert(a)
            },
            r is None ==> *final(self) == *old(self),
    {
        let ghost prev = *self;
        let r = self.active;
        if let Some(a) = r {
            self.active = None;
            self.ticket = None;
            self.status = "Transfer stopped by user.".to_owned();
            self.released = Ghost(self.released@.insert(a));
            proof {
                lemma_release_active(prev, *self, a);
            }
        }
        r
    }

    /// Whether a session is publishing or hosting.
    pub fn is_active(&self) -> (r: bool)
        ensures
            r == self.active is Some,
    {
        self.active.is_some()
    }
}

/// A change that keeps the sessions keeps the slot well formed.
proof fn lemma_same_sessions(prev: SendSlot, next: SendSlot)
    requires
        prev.wf(),
        next.active == prev.active,
        next.next_session == prev.next_session,
        next.released == prev.released,
    ensures
        next.wf(),
{
    assert forall|s: u64| #[trigger] next.live(s) implies next.active == Some(s) by {
        assert(prev.live(s));
    }
    assert forall|s: u64| #[trigger] next.released@.contains(s) implies s < next.next_session by {
        assert(prev.released@.contains(s));
    }
}

/// Releasing the active session leaves a slot with no live session.
proof fn lemma_release_active(prev: SendSlot, next: SendSlot, a: u64)
    requires
        prev.wf(),
        prev.active == Some(a),
        next.active is None,
        next.next_session == prev.next_session,
        next.released@ == prev.released@.insert(a),
    ensures
        next.wf(),
{
    assert forall|s: u64| #[trigger] next.live(s) implies next.active == Some(s) by {
        assert(prev.live(s));
    }
    assert forall|s: u64| #[trigger] next.released@.contains(s) implies s < next.next_session by {
        if s != a {
            assert(prev.released@.contains(s));
        }
    }
}

/// However the slot was driven, at most one session may still be hosting:
/// any two live sessions are the same one, and it is the active session.
pub proof fn lemma_one_live_session(slot: SendSlot, s: u64, t: u64)
    requires
        slot.wf(),
        slot.live(s),
        slot.live(t),
    ensures
        s == t,
        slot.active == Some(s),
{
}

/// Two sends in a row, each as `start_send` leaves the slot: the second
/// names the first's session for cancellation before its own starts, its
/// own session is a new one, and the first is no longer live.
pub proof fn lemma_second_send_cancels_first(
    s0: SendSlot,
    r1: SendStart,
    s1: SendSlot,
    r2: SendStart,
    s2: SendSlot,
)
    requires
        s1.wf(),
        r1.session == s0.next_session,
        s1.active == Some(r1.session),
        s1.next_session == s0.next_session + 1,
        r2.cancel == s1.active,
        r2.session == s1.next_session,
        s2.wf(),
        s2.active == Some(r2.session),
        s2.next_session == s1.next_session + 1,
    ensures
        r2.cancel == Some(r1.session),
        r2.session != r1.session,
        !s2.live(r1.session),
{
}

} // verus!
