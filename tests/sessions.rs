use iroh::{EndpointAddr, SecretKey};
use iroh_blobs::ticket::BlobTicket;
use iroh_blobs::BlobFormat;
use p2p_share::session::{
    check_destination, download_finished, error_line, export_finished, publish_ticket,
    receive_begin, DownloadStatus, ReceiveError, SendError, SendSlot, PROGRESS_MAX,
};
use p2p_share::ticket::{encode, TicketError};

fn sample_ticket() -> BlobTicket {
    let id = SecretKey::from_bytes(&[9u8; 32]).public();
    BlobTicket::new(EndpointAddr::new(id), iroh_blobs::Hash::new(b"hello"), BlobFormat::Raw)
}

#[test]
fn status_starts_idle() {
    let st = DownloadStatus::new();
    assert_eq!(st.message, "No download in progress.");
    assert_eq!(st.progress, 0);
    assert!(!st.in_progress && !st.done);
}

#[test]
fn progress_in_thousandths() {
    let mut st = DownloadStatus::new();
    st.begin();
    st.report_progress(5, 10);
    assert_eq!(st.progress, 500);
    st.report_progress(1, 3);
    assert_eq!(st.progress, 333);
    st.report_progress(7, 0);
    assert_eq!(st.progress, 0);
    st.report_progress(20, 10);
    assert_eq!(st.progress, PROGRESS_MAX);
    st.report_progress(u64::MAX - 1, u64::MAX);
    assert_eq!(st.progress, 999);
    assert!(st.in_progress && !st.done);
}

#[test]
fn receive_begin_reads_the_ticket() {
    let t = sample_ticket();
    let s = encode(t.clone(), "notes.txt".to_string());
    let mut st = DownloadStatus::new();
    st.request();
    assert_eq!(st.message, "Downloading file now...");
    let (data, name) = receive_begin(&mut st, &s).unwrap();
    assert_eq!(name, "notes.txt");
    assert_eq!(data.ticket(), t);
    assert!(st.in_progress && !st.done);
    assert_eq!(st.message, "Starting download...");
}

#[test]
fn receive_begin_rejects_bad_ticket() {
    let mut st = DownloadStatus::new();
    let r = receive_begin(&mut st, "no separator here");
    assert_eq!(r.err(), Some(ReceiveError::InvalidTicket(TicketError::MissingSeparator)));
    assert!(!st.in_progress && !st.done);
    assert_eq!(st.message, "Error: the ticket has no '!' separator");
}

#[test]
fn destination_directory_fails() {
    let mut st = DownloadStatus::new();
    st.begin();
    assert_eq!(check_destination(&mut st, true), Err(ReceiveError::DestinationIsDirectory));
    assert!(!st.done && !st.in_progress);
    assert_eq!(st.message, "Error: a directory exists at the destination");
}

#[test]
fn destination_file_passes() {
    let mut st = DownloadStatus::new();
    st.begin();
    assert_eq!(check_destination(&mut st, false), Ok(()));
    assert!(st.in_progress && !st.done);
}

#[test]
fn receive_success_ends_done() {
    let mut st = DownloadStatus::new();
    st.begin();
    st.report_progress(3, 4);
    assert_eq!(download_finished(&mut st, true), Ok(()));
    assert_eq!(st.message, "Saving file...");
    assert_eq!(export_finished(&mut st, true), Ok(()));
    assert!(st.done && !st.in_progress);
    assert_eq!(st.progress, PROGRESS_MAX);
    assert_eq!(st.message, "File downloaded.");
}

#[test]
fn download_failure() {
    let mut st = DownloadStatus::new();
    st.begin();
    st.report_progress(1, 4);
    assert_eq!(download_finished(&mut st, false), Err(ReceiveError::DownloadFailed));
    assert!(!st.done && !st.in_progress);
    assert_eq!(st.progress, 250);
    assert_eq!(st.message, "Error: the download failed");
}

#[test]
fn export_failure() {
    let mut st = DownloadStatus::new();
    st.begin();
    assert_eq!(export_finished(&mut st, false), Err(ReceiveError::ExportFailed));
    assert!(!st.done && !st.in_progress);
    assert_eq!(st.message, "Error: the file could not be written");
}

#[test]
fn publish_ticket_needs_a_name() {
    assert_eq!(publish_ticket(sample_ticket(), None), Err(SendError::InvalidFilename));
    let t = sample_ticket();
    let s = publish_ticket(t.clone(), Some("notes.txt".to_string())).unwrap();
    assert_eq!(s, format!("{}!bm90ZXMudHh0", t));
}

#[test]
fn second_send_cancels_the_first() {
    let mut slot = SendSlot::new();
    assert_eq!(slot.status, "Waiting");
    slot.file_picked();
    assert_eq!(slot.status, "File selected. Ready to send.");
    let first = slot.start_send();
    assert_eq!(first.cancel, None);
    assert_eq!(first.session, 0);
    slot.send_finished(0, Ok("ticket-a".to_string()));
    assert_eq!(slot.ticket.as_deref(), Some("ticket-a"));
    assert_eq!(slot.status, "Now hosting file.");
    let second = slot.start_send();
    assert_eq!(second.cancel, Some(0));
    assert_eq!(second.session, 1);
    assert_eq!(slot.active, Some(1));
    assert_eq!(slot.status, "Sending...");
}

#[test]
fn stale_result_is_ignored() {
    let mut slot = SendSlot::new();
    slot.start_send();
    slot.start_send();
    slot.send_finished(0, Ok("old".to_string()));
    assert_eq!(slot.ticket, None);
    assert_eq!(slot.status, "Sending...");
}

#[test]
fn stop_ends_hosting() {
    let mut slot = SendSlot::new();
    let s = slot.start_send();
    slot.send_finished(s.session, Ok("ticket".to_string()));
    assert!(slot.is_active());
    assert_eq!(slot.stop(), Some(0));
    assert!(!slot.is_active());
    assert_eq!(slot.ticket, None);
    assert_eq!(slot.status, "Transfer stopped by user.");
    assert_eq!(slot.stop(), None);
}

#[test]
fn publish_failure_ends_session() {
    let mut slot = SendSlot::new();
    let s = slot.start_send();
    slot.send_finished(s.session, Err(SendError::PathResolution));
    assert_eq!(slot.status, "Error: the path could not be resolved");
    assert!(!slot.is_active());
    assert_eq!(slot.ticket, None);
}

#[test]
fn error_line_prefix() {
    assert_eq!(error_line("boom"), "Error: boom");
    assert_eq!(SendError::PublishFailed.describe(), "the file could not be published");
    assert_eq!(
        ReceiveError::InvalidTicket(TicketError::MalformedName).describe(),
        "the ticket's file name is malformed"
    );
}

#[test]
fn many_sends_keep_one_session() {
    let mut slot = SendSlot::new();
    let mut previous = None;
    for i in 0..5u64 {
        let start = slot.start_send();
        assert_eq!(start.cancel, previous);
        assert_eq!(start.session, i);
        assert_eq!(slot.active, Some(i));
        previous = Some(i);
    }
    assert_eq!(slot.stop(), Some(4));
    let start = slot.start_send();
    assert_eq!(start.cancel, None);
    assert_eq!(start.session, 5);
}
