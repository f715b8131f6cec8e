use vstd::prelude::*;

verus! {

/// Text lines of a "now playing" activity.
#[derive(Debug, Clone)]
pub struct PresenceText {
    pub details: String,
    pub status: String,
}

/// Lines shorter than two bytes are padded with two spaces, which the
/// presence service needs to accept them.
pub open spec fn padded(s: &str) -> Seq<char> {
    if s.len() < 2 {
        s@ + seq![' ', ' ']
    } else {
        s@
    }
}

pub open spec fn paused_suffix() -> Seq<char> {
    seq![' ', '(', 'P', 'a', 'u', 's', 'e', 'd', ')']
}

/// Pads a line that is shorter than two bytes.
pub fn pad_short(s: &str) -> (r: String)
    ensures
        r@ == padded(s),
{
    let mut r = String::from_str(s);
    if s.len() < 2 {
        proof { reveal_strlit("  "); }
        r.append("  ");
        assert(r@ =~= padded(s));
    }
    r
}

/// The lines shown for a track: both padded, the status marked when paused.
pub fn presence_text(details: &str, status: &str, is_paused: bool) -> (r: PresenceText)
    ensures
        r.details@ == padded(details),
        r.status@ == if is_paused { padded(status) + paused_suffix() } else { padded(status) },
{
    let d = pad_short(details);
    let mut s = pad_short(status);
    if is_paused {
        proof { reveal_strlit(" (Paused)"); }
        s.append(" (Paused)");
    }
    PresenceText { details: d, status: s }
}

/// The key that tells one track from another: `details - status`.
pub fn song_key(text: &PresenceText) -> (r: String)
    ensures
        r@ == text.details@ + seq![' ', '-', ' '] + text.status@,
{
    proof { reveal_strlit(" - "); }
    let mut k = text.details.clone();
    k.append(" - ");
    k.append(text.status.as_str());
    k
}

/// Whether `key` names another track than the one last announced; a
/// notification is due only then.
pub fn is_new_song(last: &Option<String>, key: &String) -> (r: bool)
    ensures
        r == match last {
            Some(l) => l@ != key@,
            None => true,
        },
{
    match last {
        Some(l) => !(*l == *key),
        None => true,
    }
}

/// Where the delivery of an activity to the presence service stands.
#[derive(Debug)]
pub enum DeliveryState {
    /// The first send is under way.
    Sending,
    /// The first send failed with the given description; reconnecting.
    Reconnecting(String),
    /// Reconnected; the activity is being sent again.
    Resending,
    /// Delivery is over.
    Finished,
}

/// What the caller does next.
#[derive(Debug, PartialEq, Eq)]
pub enum DeliveryAction {
    /// Send the activity.
    Send,
    /// Close the connection and connect again.
    CloseAndReconnect,
    /// Stop, reporting this result.
    Finish(Result<(), String>),
}

pub open spec fn connect_failure_prefix() -> Seq<char> {
    seq!['F', 'a', 'i', 'l', 'e', 'd', ' ', 't', 'o', ' ', 'c', 'o', 'n', 'n', 'e', 'c', 't', ' ',
        't', 'o', ' ', 'D', 'i', 's', 'c', 'o', 'r', 'd', ':', ' ']
}

/// One step of delivery, given the outcome of the last action (a send or a
/// connect). A failed first send leads to one reconnect and one more send;
/// if reconnecting fails the first send's error is reported, otherwise the
/// second send's outcome.
pub fn next_delivery(state: DeliveryState, outcome: Result<(), String>) -> (r: (DeliveryState, DeliveryAction))
    ensures
        match (state, outcome) {
            (DeliveryState::Sending, Ok(())) => r.0 is Finished && r.1 == DeliveryAction::Finish(Ok(())),
            (DeliveryState::Sending, Err(e)) => r.0 == DeliveryState::Reconnecting(e) && r.1 == DeliveryAction::CloseAndReconnect,
            (DeliveryState::Reconnecting(_), Ok(())) => r.0 is Resending && r.1 == DeliveryAction::Send,
            (DeliveryState::Reconnecting(e), Err(_)) => r.0 is Finished && r.1 is Finish
                && r.1->Finish_0 is Err && r.1->Finish_0->Err_0@ == connect_failure_prefix() + e@,
            (DeliveryState::Resending, o) => r.0 is Finished && r.1 == DeliveryAction::Finish(o),
            (DeliveryState::Finished, _) => r.0 is Finished && r.1 == DeliveryAction::Finish(Ok(())),
        },
{
    match state {
        DeliveryState::Sending => match outcome {
            Ok(()) => (DeliveryState::Finished, DeliveryAction::Finish(Ok(()))),
            Err(e) => (DeliveryState::Reconnecting(e), DeliveryAction::CloseAndReconnect),
        },
        DeliveryState::Reconnecting(first) => match outcome {
            Ok(()) => (DeliveryState::Resending, DeliveryAction::Send),
            Err(_) => {
                proof { reveal_strlit("Failed to connect to Discord: "); }
                let msg = String::from_str("Failed to connect to Discord: ").concat(first.as_str());
                (DeliveryState::Finished, DeliveryAction::Finish(Err(msg)))
            },
        },
        DeliveryState::Resending => (DeliveryState::Finished, DeliveryAction::Finish(outcome)),
        DeliveryState::Finished => (DeliveryState::Finished, DeliveryAction::Finish(Ok(()))),
    }
}

} // verus!
