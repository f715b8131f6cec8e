use vstd::prelude::*;

use std::sync::mpsc::{Receiver, SyncSender};

use crate::error::DownloadError;

verus! {

#[verifier::external_type_specification]
#[verifier::external_body]
#[verifier::reject_recursive_types(T)]
pub struct ExReceiver<T>(Receiver<T>);

#[verifier::external_type_specification]
#[verifier::external_body]
#[verifier::reject_recursive_types(T)]
pub struct ExSyncSender<T>(SyncSender<T>);

/// How long a caller waits for the owner thread to answer a work item.
pub const RESPONSE_TIMEOUT_MS: u64 = 5000;

/// Relies on `std::sync::mpsc::sync_channel`: a channel whose buffer holds a
/// single message.
#[verifier::external_body]
fn single_slot_channel<T>() -> (SyncSender<T>, Receiver<T>) {
    std::sync::mpsc::sync_channel(1)
}

/// Relies on `SyncSender::try_send`: `true` when the message was placed in the
/// slot, `false` when the slot is full or the receiving half is gone.
#[verifier::external_body]
fn slot_try_send<T>(tx: &SyncSender<T>, v: T) -> bool {
    tx.try_send(v).is_ok()
}

/// Relies on `Receiver::recv_timeout`: the message if one arrives within
/// `millis` milliseconds, `None` on timeout or when every sender is gone.
#[verifier::external_body]
fn slot_recv_within<T>(rx: &Receiver<T>, millis: u64) -> Option<T> {
    rx.recv_timeout(std::time::Duration::from_millis(millis)).ok()
}

/// The half of a response channel that travels with a work item to the owner
/// thread. Answering consumes it, so a work item answers at most once.
#[verifier::reject_recursive_types(R)]
pub struct Responder<R> {
    tx: SyncSender<Result<R, DownloadError>>,
}

/// The half of a response channel that the submitting caller waits on.
/// Waiting consumes it, so an answer that comes after the caller gave up is
/// never delivered to that caller.
#[verifier::reject_recursive_types(R)]
pub struct PendingResponse<R> {
    rx: Receiver<Result<R, DownloadError>>,
}

/// A fresh one-shot channel for the response of a single work item.
pub fn response_channel<R>() -> (Responder<R>, PendingResponse<R>) {
    let (tx, rx) = single_slot_channel();
    (Responder { tx }, PendingResponse { rx })
}

impl<R> Responder<R> {
    /// Sends the work item's result; `false` when nobody is waiting any more.
    pub fn respond(self, result: Result<R, DownloadError>) -> bool {
        slot_try_send(&self.tx, result)
    }
}

/// What the caller reports once waiting ended: the answer that arrived, or
/// `TimedOut` when none did (a work item that failed without answering looks
/// the same to the caller as one that is still running).
pub fn settle<R>(received: Option<Result<R, DownloadError>>) -> (r: Result<R, DownloadError>)
    ensures
        received is None ==> r == Err::<R, DownloadError>(DownloadError::TimedOut),
        received is Some ==> r == received->Some_0,
{
    match received {
        Some(answer) => answer,
        None => Err(DownloadError::TimedOut),
    }
}

impl<R> PendingResponse<R> {
    /// Blocks for at most `timeout_ms` milliseconds for the answer.
    pub fn wait_for(self, timeout_ms: u64) -> Result<R, DownloadError> {
        let received = slot_recv_within(&self.rx, timeout_ms);
        settle(received)
    }

    /// Blocks for at most [`RESPONSE_TIMEOUT_MS`] for the answer.
    pub fn wait(self) -> Result<R, DownloadError> {
        self.wait_for(RESPONSE_TIMEOUT_MS)
    }
}

} // verus!
