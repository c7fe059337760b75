//! The poll tick: what one firing of the poll timer decides and publishes.
//!
//! Each tick fetches a batch of raw events from upstream, cleans it, and —
//! only when the cleaning kept at least one event — publishes the result to
//! the broadcast channel. Every failure is contained to its own tick: a
//! network error, a non-success status or a malformed body skips the tick
//! and leaves the channel exactly as it was, so the next tick starts from a
//! clean slate.
use vstd::prelude::*;

use crate::channel::BroadcastChannel;
use crate::transform::{clean_gh_payload, clean_gh_spec};
use crate::types::{Event, EventForClient, client_event_views, event_views};

verus! {

/// What one upstream fetch came back with: a batch of raw events, or one of
/// the failures a tick must contain.
pub enum FetchOutcome {
    /// The fetch succeeded and the body parsed into raw events.
    Events(Vec<Event>),
    /// The fetch did not reach upstream.
    NetworkError,
    /// Upstream answered with a non-success status.
    HttpStatus(u16),
    /// The body did not parse into raw events.
    MalformedBody,
}

/// The cleaned batch a fetch outcome leads to, if the tick is to publish at
/// all: failures and batches that clean to nothing yield nothing.
pub open spec fn plan_tick_spec(fetch: FetchOutcome) -> Option<Seq<
    crate::types::EventForClientV,
>> {
    match fetch {
        FetchOutcome::Events(events) => {
            let cleaned = clean_gh_spec(event_views(events@));
            if cleaned.len() > 0 {
                Some(cleaned)
            } else {
                None
            }
        },
        _ => None,
    }
}

/// Decide one tick: on a successful fetch, clean the batch; hand back the
/// cleaned events exactly when there is at least one, and nothing on any
/// fetch failure or when the whole batch was dropped — such a tick publishes
/// nothing.
pub fn plan_tick(fetch: FetchOutcome) -> (r: Option<Vec<EventForClient>>)
    ensures
        r is Some <==> plan_tick_spec(fetch) is Some,
        r matches Some(v) ==> plan_tick_spec(fetch) == Some(client_event_views(v@)),
{
    match fetch {
        FetchOutcome::Events(events) => {
            let cleaned = clean_gh_payload(events);
            if cleaned.len() > 0 {
                Some(cleaned)
            } else {
                None
            }
        },
        FetchOutcome::NetworkError => None,
        FetchOutcome::HttpStatus(_) => None,
        FetchOutcome::MalformedBody => None,
    }
}

/// Publish one tick's message, if the tick produced one. A tick with
/// nothing to say leaves the channel untouched; a tick with a message
/// appends it to the publish history, whatever happened on earlier ticks,
/// and reports to how many subscribers it went out.
pub fn run_tick(channel: &mut BroadcastChannel, message: Option<String>) -> (delivered: Option<
    u64,
>)
    requires
        old(channel).well_formed(),
        old(channel).published().len() < u64::MAX,
    ensures
        final(channel).well_formed(),
        final(channel).subscriber_count() == old(channel).subscriber_count(),
        message matches Some(m) ==> final(channel).published() == old(channel).published().push(
            m@,
        ) && delivered == Some(old(channel).subscriber_count()),
        message is None ==> final(channel).published() == old(channel).published() && delivered
            is None,
{
    match message {
        Some(m) => Some(channel.publish(m)),
        None => None,
    }
}

/// The publish history after one tick whose transform produced `msg`, or
/// nothing.
pub open spec fn tick_history(h: Seq<Seq<char>>, msg: Option<Seq<char>>) -> Seq<Seq<char>> {
    match msg {
        Some(m) => h.push(m),
        None => h,
    }
}

/// Law: a failed tick cannot block the next one. A tick that produced
/// nothing — a failed fetch, or a batch cleaned down to nothing — leaves the
/// history as it was, and a following successful tick publishes exactly as
/// it would have without the failure.
pub proof fn lemma_failed_tick_harmless(h: Seq<Seq<char>>, m: Seq<char>)
    ensures
        tick_history(tick_history(h, None), Some(m)) == tick_history(h, Some(m)),
        tick_history(tick_history(h, None), Some(m)) == h.push(m),
{
}

} // verus!
