use vstd::prelude::*;

verus! {

/// The kinds of message pushed over the websocket.
#[derive(Debug, Clone, Copy, PartialEq, Eq, Structural)]
pub enum MsgType {
    SystemStatus,
}

/// A message pushed over the websocket: its kind and its payload.
#[derive(Debug)]
pub struct WsMessage<T> {
    pub msg_type: MsgType,
    pub data: T,
}

impl<T> WsMessage<T> {
    /// A system status message carrying `data`.
    pub fn system_status(data: T) -> (msg: Self)
        ensures
            msg.msg_type == MsgType::SystemStatus,
            msg.data == data,
    {
        WsMessage { msg_type: MsgType::SystemStatus, data }
    }
}

/// Seconds the push loop waits between two status messages.
pub const STATUS_INTERVAL_SECS: u64 = 3;

/// What the push loop does after trying to send a status message.
#[derive(Debug, Clone, Copy, PartialEq, Eq, Structural)]
pub enum SocketAction {
    /// The client is gone: end the loop.
    Stop,
    /// Wait this many seconds, then send the next status message.
    WaitThenSend(u64),
}

/// The push loop's step after one send.
pub open spec fn action_after(delivered: bool) -> SocketAction {
    if delivered {
        SocketAction::WaitThenSend(STATUS_INTERVAL_SECS)
    } else {
        SocketAction::Stop
    }
}

/// How many sends the push loop makes when the socket would answer its
/// successive sends with `outcomes` (`true`: delivered): it sends until the
/// first failed send, that one included, or until the outcomes run out.
pub open spec fn sends_made(outcomes: Seq<bool>) -> nat
    decreases outcomes.len(),
{
    if outcomes.len() == 0 {
        0
    } else if !outcomes[0] {
        1
    } else {
        1 + sends_made(outcomes.drop_first())
    }
}

/// The steps the push loop takes over such a run: one after each send it made.
pub open spec fn run_actions(outcomes: Seq<bool>) -> Seq<SocketAction> {
    outcomes.take(sends_made(outcomes) as int).map_values(|d: bool| action_after(d))
}

proof fn lemma_sends_made_shape(outcomes: Seq<bool>)
    ensures
        sends_made(outcomes) <= outcomes.len(),
        forall|i: int| 0 <= i < sends_made(outcomes) - 1 ==> #[trigger] outcomes[i],
        sends_made(outcomes) > 0 && !outcomes[sends_made(outcomes) - 1] || sends_made(outcomes)
            == outcomes.len() && (forall|i: int| 0 <= i < outcomes.len() ==> #[trigger] outcomes[i]),
    decreases outcomes.len(),
{
    if outcomes.len() > 0 && outcomes[0] {
        let rest = outcomes.drop_first();
        lemma_sends_made_shape(rest);
        assert forall|i: int| 0 <= i < sends_made(outcomes) - 1 implies #[trigger] outcomes[i] by {
            if i > 0 {
                assert(outcomes[i] == rest[i - 1]);
            }
        }
        if sends_made(rest) > 0 && !rest[sends_made(rest) - 1] {
            assert(outcomes[sends_made(outcomes) - 1] == rest[sends_made(rest) - 1]);
        } else {
            assert forall|i: int| 0 <= i < outcomes.len() implies #[trigger] outcomes[i] by {
                if i > 0 {
                    assert(outcomes[i] == rest[i - 1]);
                }
            }
        }
    }
}

/// The push loop stops right after the first failed send: when sends
/// before the `k`-th were delivered and the `k`-th fails, exactly `k + 1`
/// sends are made, the last step is to stop, and nothing follows it.
pub proof fn law_push_stops_after_first_failed_send(outcomes: Seq<bool>, k: int)
    requires
        0 <= k < outcomes.len(),
        !outcomes[k],
        forall|i: int| 0 <= i < k ==> #[trigger] outcomes[i],
    ensures
        sends_made(outcomes) == k + 1,
        run_actions(outcomes).len() == k + 1,
        run_actions(outcomes)[k] == SocketAction::Stop,
{
    lemma_sends_made_shape(outcomes);
    let n = sends_made(outcomes) as int;
    if n < k + 1 {
        if n > 0 && !outcomes[n - 1] {
            assert(outcomes[n - 1]);
        } else {
            assert(outcomes[k]);
        }
    } else if n > k + 1 {
        assert(outcomes[k]);
    }
}

/// The push loop never stops while sends are delivered: when the first `n`
/// sends are all delivered, it makes all `n` of them and only ever waits.
pub proof fn law_push_continues_while_delivered(outcomes: Seq<bool>)
    requires
        forall|i: int| 0 <= i < outcomes.len() ==> #[trigger] outcomes[i],
    ensures
        sends_made(outcomes) == outcomes.len(),
        forall|i: int| 0 <= i < outcomes.len() ==> #[trigger] run_actions(outcomes)[i]
            == SocketAction::WaitThenSend(STATUS_INTERVAL_SECS),
{
    lemma_sends_made_shape(outcomes);
    let n = sends_made(outcomes) as int;
    if n > 0 && !outcomes[n - 1] {
        assert(outcomes[n - 1]);
    }
}

/// Between two consecutive sends of a run the loop waits the status
/// interval, three seconds: every step but the last is such a wait. Each
/// step follows a send, so the first send comes before any wait.
pub proof fn law_push_waits_between_sends(outcomes: Seq<bool>)
    ensures
        forall|i: int| 0 <= i < sends_made(outcomes) - 1 ==> #[trigger] run_actions(outcomes)[i]
            == SocketAction::WaitThenSend(STATUS_INTERVAL_SECS),
        STATUS_INTERVAL_SECS == 3,
{
    lemma_sends_made_shape(outcomes);
}

/// The push loop's decision after a send: stop when the send failed (the
/// client disconnected), else wait the status interval and send again.
pub fn after_send(delivered: bool) -> (action: SocketAction)
    ensures
        action == action_after(delivered),
        !delivered ==> action == SocketAction::Stop,
        delivered ==> action == SocketAction::WaitThenSend(STATUS_INTERVAL_SECS),
{
    if delivered {
        SocketAction::WaitThenSend(STATUS_INTERVAL_SECS)
    } else {
        SocketAction::Stop
    }
}

} // verus!
