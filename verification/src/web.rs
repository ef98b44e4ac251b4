//! The observer's side of the bridge: the history of results that a web
//! client keeps while it polls, and what it does after each poll.

use crate::bridge::{settled, Delivery, DeliveryView, Receipt, ReceiptView, ReceivedView};
use vstd::prelude::*;
use vstd::string::*;

verus! {

/// Number of results a client keeps.
pub const RESULT_HISTORY: usize = 10;

/// Milliseconds a client waits after a failed poll before it polls again.
pub const RETRY_DELAY_MS: u64 = 1000;

/// What a client does after a poll.
#[derive(Debug, Clone, Copy, PartialEq, Eq, Structural)]
pub enum PollNext {
    /// Poll again at once.
    Again,
    /// Wait this many milliseconds, then poll again.
    RetryAfter(u64),
    /// Stop polling: the bridge is closed and nothing more will come.
    Stop,
}

/// The history that follows `results` once `result` has come in: an empty
/// result changes nothing; any other is added at the end, and the oldest one
/// gives way where the history has grown beyond `RESULT_HISTORY`.
pub open spec fn recorded(results: Seq<Seq<char>>, result: Seq<char>) -> Seq<Seq<char>> {
    if result.len() == 0 {
        results
    } else if results.len() + 1 > RESULT_HISTORY {
        results.push(result).drop_first()
    } else {
        results.push(result)
    }
}

/// The history that follows `results` once a poll has been answered with
/// `receipt`: an event is recorded, anything else changes nothing.
pub open spec fn history_after(results: Seq<Seq<char>>, receipt: ReceiptView) -> Seq<Seq<char>> {
    match receipt.delivery {
        DeliveryView::Event(event) => recorded(results, event),
        _ => results,
    }
}

/// What a client does after a poll that was answered with `receipt`: it
/// stops on a closed bridge and polls again at once otherwise.
pub open spec fn next_after(receipt: ReceiptView) -> PollNext {
    if receipt.delivery is Closed {
        PollNext::Stop
    } else {
        PollNext::Again
    }
}

/// Takes a result into the history.
pub fn record_result(results: &mut Vec<String>, result: String)
    ensures
        final(results).deep_view() == recorded(old(results).deep_view(), result@),
{
    if !result.as_str().is_empty() {
        results.push(result);
        if results.len() > RESULT_HISTORY {
            let _ = results.remove(0);
        }
    }
}

/// Takes in the end of one poll and says what to do next. An event goes
/// into the history and the client polls again at once, as it does after a
/// poll that brought nothing; on a closed bridge it stops; after a failure it
/// waits first.
pub fn after_poll(results: &mut Vec<String>, polled: Result<Receipt, String>) -> (next: PollNext)
    ensures
        match polled {
            Ok(receipt) => final(results).deep_view() == history_after(
                old(results).deep_view(),
                receipt@,
            ) && next == next_after(receipt@),
            Err(_) => final(results).deep_view() == old(results).deep_view() && next
                == PollNext::RetryAfter(RETRY_DELAY_MS),
        },
{
    match polled {
        Ok(receipt) => {
            match receipt.delivery {
                Delivery::Event(event) => {
                    record_result(results, event);
                    PollNext::Again
                },
                Delivery::Empty => PollNext::Again,
                Delivery::Closed => PollNext::Stop,
            }
        },
        Err(_) => PollNext::RetryAfter(RETRY_DELAY_MS),
    }
}

/// The history never outgrows its bound once it is within it, and a result
/// that was taken in is the newest entry.
pub proof fn lemma_history_bounded(results: Seq<Seq<char>>, result: Seq<char>)
    requires
        results.len() <= RESULT_HISTORY,
    ensures
        recorded(results, result).len() <= RESULT_HISTORY,
        result.len() > 0 ==> recorded(results, result).last() == result,
        result.len() > 0 && results.len() < RESULT_HISTORY ==> recorded(results, result)
            == results.push(result),
        result.len() > 0 && results.len() == RESULT_HISTORY ==> recorded(results, result)
            == results.subrange(1, results.len() as int).push(result),
{
}

/// A client stops polling exactly when the bridge is closed: after an event,
/// a timeout or a lag it polls again, whatever the look after the lag found.
pub proof fn lemma_only_closed_stops_polling(waited: ReceivedView, drained: ReceivedView)
    ensures
        next_after(settled(waited, drained)) == PollNext::Stop <==> waited is Closed,
        !(waited is Closed) ==> next_after(settled(waited, drained)) == PollNext::Again,
{
}

} // verus!
