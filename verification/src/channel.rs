//! The fan-out core: a single-producer, multi-consumer broadcast channel.
//!
//! Delivery is best-effort and recency-biased: the channel retains only the
//! most recently published message, so a subscriber that falls behind skips
//! straight to the newest message and is told how many it missed. Publishing
//! never blocks and never fails, whatever the number of subscribers. Each
//! subscription is an independent cursor into the publish history; cursors
//! are created and released freely and never affect one another or the
//! publisher. The channel is process-scoped and is never torn down while it
//! is in use, so a receive either yields a message, reports a lag, or finds
//! nothing new yet.
use vstd::prelude::*;

verus! {

/// What one receive attempt yields: the next message, a lag report carrying
/// the number of messages that were skipped, or nothing new yet.
pub enum RecvOutcome {
    Message(String),
    Lagged(u64),
    Pending,
}

/// An independent receive position of one subscriber.
pub struct Cursor {
    pos: u64,
}

impl Cursor {
    /// The index into the publish history this cursor will read next.
    pub closed spec fn pos(&self) -> int {
        self.pos as int
    }
}

/// Where a cursor at `pos` stands after one receive on a history of length
/// `len`: unchanged when it is up to date, advanced by one when exactly one
/// message is outstanding, and moved to the newest retained message when it
/// lagged.
pub open spec fn next_pos(len: int, pos: int) -> int {
    if pos == len {
        pos
    } else if pos + 1 == len {
        pos + 1
    } else {
        len - 1
    }
}

/// The message a single receive on a history `published` hands a cursor at
/// `pos`, if any: only the message at `pos`, and only when it is the newest
/// retained one.
pub open spec fn recv_view(published: Seq<Seq<char>>, pos: int) -> Option<Seq<char>> {
    if 0 <= pos && pos + 1 == published.len() {
        Some(published[pos])
    } else {
        None
    }
}

/// The broadcast channel: one retained message, the length of the full
/// publish history, and the number of live subscriptions.
pub struct BroadcastChannel {
    latest: String,
    count: u64,
    subscribers: u64,
    history: Ghost<Seq<Seq<char>>>,
}

impl BroadcastChannel {
    /// Every message ever published, in publish order.
    pub closed spec fn published(&self) -> Seq<Seq<char>> {
        self.history@
    }

    /// The number of live subscriptions.
    pub closed spec fn subscriber_count(&self) -> u64 {
        self.subscribers
    }

    /// The retained message is the newest published one, and the history
    /// fits the publish counter.
    pub closed spec fn well_formed(&self) -> bool {
        &&& self.history@.len() == self.count as int
        &&& (self.count > 0 ==> self.latest@ == self.history@.last())
    }

    /// A fresh channel: nothing published, nobody subscribed.
    pub fn new() -> (c: Self)
        ensures
            c.well_formed(),
            c.published() == Seq::<Seq<char>>::empty(),
            c.subscriber_count() == 0,
    {
        BroadcastChannel {
            latest: String::new(),
            count: 0,
            subscribers: 0,
            history: Ghost(Seq::empty()),
        }
    }

    /// The number of live subscriptions, as a caller can read it.
    pub fn live_subscribers(&self) -> (r: u64)
        ensures
            r == self.subscriber_count(),
    {
        self.subscribers
    }

    /// Deliver `message` to every live subscription's cursor. Never blocks
    /// and never fails, with zero subscribers as with many; the returned
    /// count of reached subscriptions is informational only.
    pub fn publish(&mut self, message: String) -> (delivered: u64)
        requires
            old(self).well_formed(),
            old(self).published().len() < u64::MAX,
        ensures
            final(self).well_formed(),
            final(self).published() == old(self).published().push(message@),
            final(self).subscriber_count() == old(self).subscriber_count(),
            delivered == old(self).subscriber_count(),
    {
        let ghost message_view = message@;
        self.latest = message;
        self.count = self.count + 1;
        proof {
            self.history@ = self.history@.push(message_view);
        }
        self.subscribers
    }

    /// Create an independent cursor that starts at "now": it will never be
    /// handed a message published before this call.
    pub fn subscribe(&mut self) -> (cursor: Cursor)
        requires
            old(self).well_formed(),
            old(self).subscriber_count() < u64::MAX,
        ensures
            final(self).well_formed(),
            final(self).published() == old(self).published(),
            final(self).subscriber_count() == old(self).subscriber_count() + 1,
            cursor.pos() == old(self).published().len(),
    {
        self.subscribers = self.subscribers + 1;
        Cursor { pos: self.count }
    }

    /// Release a cursor. Costs nothing and has no effect on other
    /// subscribers or on the publisher.
    pub fn unsubscribe(&mut self, cursor: &Cursor)
        requires
            old(self).well_formed(),
            old(self).subscriber_count() > 0,
        ensures
            final(self).well_formed(),
            final(self).published() == old(self).published(),
            final(self).subscriber_count() == old(self).subscriber_count() - 1,
    {
        self.subscribers = self.subscribers - 1;
    }

    /// One receive attempt. An up-to-date cursor finds nothing new yet; a
    /// cursor exactly one message behind is handed that message and advances
    /// past it; a cursor further behind is told how many messages it missed
    /// and resumes at the newest retained message, which its next receive
    /// yields.
    pub fn recv(&self, cursor: &mut Cursor) -> (r: RecvOutcome)
        requires
            self.well_formed(),
            0 <= old(cursor).pos() <= self.published().len(),
        ensures
            final(cursor).pos() == next_pos(self.published().len() as int, old(cursor).pos()),
            old(cursor).pos() == self.published().len() ==> r is Pending,
            old(cursor).pos() + 1 == self.published().len() ==> (r matches RecvOutcome::Message(m)
                && m@ == self.published()[old(cursor).pos()]),
            old(cursor).pos() + 1 < self.published().len() ==> (r matches RecvOutcome::Lagged(k)
                && k == self.published().len() - 1 - old(cursor).pos()),
            (r matches RecvOutcome::Message(m) ==> recv_view(self.published(), old(cursor).pos())
                == Some(m@)),
    {
        if cursor.pos == self.count {
            RecvOutcome::Pending
        } else if cursor.pos + 1 == self.count {
            cursor.pos = cursor.pos + 1;
            RecvOutcome::Message(self.latest.clone())
        } else {
            let missed = self.count - 1 - cursor.pos;
            cursor.pos = self.count - 1;
            RecvOutcome::Lagged(missed)
        }
    }
}

/// The messages a subscriber receives when, starting with history `h` and a
/// cursor at `pos`, each message of `msgs` is published and then one receive
/// is made, following the channel's own receive semantics.
pub open spec fn relay_outputs(h: Seq<Seq<char>>, pos: int, msgs: Seq<Seq<char>>) -> Seq<
    Seq<char>,
>
    decreases msgs.len(),
{
    if msgs.len() == 0 {
        Seq::empty()
    } else {
        let h1 = h.push(msgs.first());
        let got = match recv_view(h1, pos) {
            Some(m) => seq![m],
            None => Seq::<Seq<char>>::empty(),
        };
        got + relay_outputs(h1, next_pos(h1.len() as int, pos), msgs.drop_first())
    }
}

/// Law: a subscriber that subscribes before the first publish and never lags
/// — it receives after every publish — is handed every message, in exactly
/// the order they were published.
pub proof fn lemma_in_order_no_lag(h: Seq<Seq<char>>, msgs: Seq<Seq<char>>)
    ensures
        relay_outputs(h, h.len() as int, msgs) == msgs,
    decreases msgs.len(),
{
    if msgs.len() == 0 {
        assert(relay_outputs(h, h.len() as int, msgs) =~= msgs);
    } else {
        let h1 = h.push(msgs.first());
        lemma_in_order_no_lag(h1, msgs.drop_first());
        assert(recv_view(h1, h.len() as int) == Some(msgs.first()));
        assert(relay_outputs(h, h.len() as int, msgs) =~= msgs);
    }
}

/// Law: a cursor never moves backward, and a receive only ever hands out the
/// message at the cursor's own position — so a subscriber whose cursor
/// starts at position `k` is never handed any message published before `k`.
pub proof fn lemma_no_replay(published: Seq<Seq<char>>, pos: int)
    requires
        0 <= pos <= published.len(),
    ensures
        next_pos(published.len() as int, pos) >= pos,
        recv_view(published, pos) matches Some(m) ==> m == published[pos],
{
}

/// The cursor's position after `n` receive attempts on a fixed history.
pub open spec fn pos_after(len: int, pos: int, n: nat) -> int
    decreases n,
{
    if n == 0 {
        pos
    } else {
        pos_after(len, next_pos(len, pos), (n - 1) as nat)
    }
}

/// Law: however many receive attempts are made, a cursor never moves
/// backward and never runs past the history — so a subscriber whose cursor
/// started at position `k` stands at or past `k` forever, and, receives
/// handing out only the message at the cursor's own position, none of the
/// first `k` messages ever reaches it.
pub proof fn lemma_pos_never_backward(len: int, pos: int, n: nat)
    requires
        0 <= pos <= len,
    ensures
        pos_after(len, pos, n) >= pos,
        pos_after(len, pos, n) <= len,
    decreases n,
{
    if n > 0 {
        lemma_pos_never_backward(len, next_pos(len, pos), (n - 1) as nat);
    }
}

/// Law: a cursor that lagged resumes at the newest retained message: the
/// receive after a lag report yields the last published message, never an
/// earlier one.
pub proof fn lemma_lag_then_latest(published: Seq<Seq<char>>, pos: int)
    requires
        0 <= pos,
        pos + 1 < published.len(),
    ensures
        recv_view(published, pos) is None,
        next_pos(published.len() as int, pos) == published.len() - 1,
        recv_view(published, published.len() - 1) == Some(published.last()),
{
}

/// The publish history after a whole sequence of publishes.
pub open spec fn publish_all(h: Seq<Seq<char>>, msgs: Seq<Seq<char>>) -> Seq<Seq<char>>
    decreases msgs.len(),
{
    if msgs.len() == 0 {
        h
    } else {
        publish_all(h.push(msgs.first()), msgs.drop_first())
    }
}

/// Law: any sequence of publishes — with zero subscribers as with many —
/// simply appends the messages to the history; no publish is lost, refused
/// or reordered, and the subscriber count plays no part.
pub proof fn lemma_publish_sequence_appends(h: Seq<Seq<char>>, msgs: Seq<Seq<char>>)
    ensures
        publish_all(h, msgs) == h + msgs,
    decreases msgs.len(),
{
    if msgs.len() == 0 {
        assert(publish_all(h, msgs) =~= h + msgs);
    } else {
        lemma_publish_sequence_appends(h.push(msgs.first()), msgs.drop_first());
        assert(h.push(msgs.first()) + msgs.drop_first() =~= h + msgs);
    }
}

} // verus!
