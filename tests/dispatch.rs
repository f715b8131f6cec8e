use std::time::{Duration, Instant};

use monochrome_bridge::dispatch::{response_channel, settle, RESPONSE_TIMEOUT_MS};
use monochrome_bridge::error::DownloadError;

#[test]
fn answer_is_delivered_once() {
    let (responder, pending) = response_channel::<u32>();
    assert!(responder.respond(Ok(7)));
    assert_eq!(pending.wait(), Ok(7));
}

#[test]
fn error_answer_is_delivered() {
    let (responder, pending) = response_channel::<()>();
    assert!(responder.respond(Err(DownloadError::StreamOpenFailed)));
    assert_eq!(pending.wait_for(10), Err(DownloadError::StreamOpenFailed));
}

#[test]
fn missing_answer_times_out_after_configured_wait() {
    assert_eq!(RESPONSE_TIMEOUT_MS, 5000);
    let (responder, pending) = response_channel::<u32>();
    let start = Instant::now();
    let r = pending.wait();
    let waited = start.elapsed();
    assert_eq!(r, Err(DownloadError::TimedOut));
    assert!(waited >= Duration::from_millis(RESPONSE_TIMEOUT_MS));
    assert!(waited < Duration::from_millis(RESPONSE_TIMEOUT_MS + 1000));
    assert!(!responder.respond(Ok(1)));
}

#[test]
fn short_timeout_is_honoured() {
    let (responder, pending) = response_channel::<u32>();
    let start = Instant::now();
    assert_eq!(pending.wait_for(200), Err(DownloadError::TimedOut));
    let waited = start.elapsed();
    assert!(waited >= Duration::from_millis(200));
    assert!(waited < Duration::from_millis(1200));
    assert!(!responder.respond(Ok(2)));
}

#[test]
fn abandoned_work_item_looks_like_timeout() {
    let (responder, pending) = response_channel::<u32>();
    drop(responder);
    assert_eq!(pending.wait_for(100), Err(DownloadError::TimedOut));
}

#[test]
fn settle_maps_nothing_to_timeout() {
    assert_eq!(settle::<u8>(None), Err(DownloadError::TimedOut));
    assert_eq!(settle::<u8>(Some(Ok(3))), Ok(3));
    assert_eq!(
        settle::<u8>(Some(Err(DownloadError::EntryCreationFailed))),
        Err(DownloadError::EntryCreationFailed)
    );
}
