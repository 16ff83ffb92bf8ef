use vstd::prelude::*;

use crate::directory::ChannelInfo;
use crate::slackbot::{directory_of, Bot, MessageEvent, SlackWorkspace, UrlHit};

verus! {

/// One URL record for the log store.
#[derive(Clone, Debug)]
pub struct UrlCtx {
    pub ts: i64,
    pub chan: String,
    pub nick: String,
    pub url: String,
}

/// The author written into every record: authors are not tracked.
pub open spec fn placeholder_author() -> Seq<char> {
    seq!['N', '/', 'A']
}

/// What the consumer loop hands to its state machine.
#[derive(Clone, Debug)]
pub enum ConsumerEvent {
    /// A message event taken from the queue.
    Message(MessageEvent),
    /// The outcome of the last insert: `true` when it succeeded.
    Inserted(bool),
    /// The queue is closed and drained: every producer is gone.
    Closed,
}

/// What the consumer loop is to do next.
#[derive(Clone, Debug)]
pub enum ConsumerAction {
    /// Wait for the next message event.
    Receive,
    /// Insert this record, then report the outcome.
    Insert(UrlCtx),
    /// Leave the loop.
    Stop,
}

/// The abstract state of the consumer: the hits still to be inserted, and
/// whether the queue has closed.
pub struct ConsumerState {
    pub queue: Seq<(Seq<char>, Seq<char>)>,
    pub closed: bool,
}

/// The abstract next step.
pub enum NextStep {
    Receive,
    Insert(Seq<char>, Seq<char>),
    Stop,
}

pub open spec fn initial_state() -> ConsumerState {
    ConsumerState { queue: Seq::empty(), closed: false }
}

/// The state after one event.
pub open spec fn next_state(bot: &Bot, s: ConsumerState, ev: ConsumerEvent) -> ConsumerState {
    match ev {
        ConsumerEvent::Message(m) => ConsumerState { queue: s.queue + bot.msg_hits(m), closed: s.closed },
        ConsumerEvent::Inserted(_) => ConsumerState {
            queue: if s.queue.len() > 0 {
                s.queue.drop_first()
            } else {
                s.queue
            },
            closed: s.closed,
        },
        ConsumerEvent::Closed => ConsumerState { queue: s.queue, closed: true },
    }
}

/// The step a state calls for: insert the oldest pending hit; with none
/// pending, stop once the queue has closed, else wait for more.
pub open spec fn next_step(s: ConsumerState) -> NextStep {
    if s.queue.len() > 0 {
        NextStep::Insert(s.queue[0].0, s.queue[0].1)
    } else if s.closed {
        NextStep::Stop
    } else {
        NextStep::Receive
    }
}

/// The state after the outcomes of consecutive inserts are reported.
pub open spec fn after_inserts(bot: &Bot, s: ConsumerState, outcomes: Seq<bool>) -> ConsumerState
    decreases outcomes.len(),
{
    if outcomes.len() == 0 {
        s
    } else {
        next_state(
            bot,
            after_inserts(bot, s, outcomes.drop_last()),
            ConsumerEvent::Inserted(outcomes.last()),
        )
    }
}

impl ConsumerAction {
    /// Whether this action carries out `n` at time `now`.
    pub open spec fn carries_out(&self, n: NextStep, now: i64) -> bool {
        match (*self, n) {
            (ConsumerAction::Receive, NextStep::Receive) => true,
            (ConsumerAction::Stop, NextStep::Stop) => true,
            (ConsumerAction::Insert(c), NextStep::Insert(chan, url)) => c.ts == now && c.chan@ == chan
                && c.url@ == url && c.nick@ == placeholder_author(),
            _ => false,
        }
    }
}

/// The single consumer of message events. It inserts the URLs of each message
/// one at a time, in order, and goes on whatever an insert's outcome.
pub struct Consumer {
    pending: Vec<UrlHit>,
    next: usize,
    closed: bool,
}

impl Consumer {
    pub closed spec fn wf(&self) -> bool {
        self.next <= self.pending@.len()
    }

    pub closed spec fn state(&self) -> ConsumerState {
        ConsumerState {
            queue: self.pending@.skip(self.next as int).map_values(|h: UrlHit| h@),
            closed: self.closed,
        }
    }

    pub fn new() -> (r: Consumer)
        ensures
            r.wf(),
            r.state() == initial_state(),
    {
        let r = Consumer { pending: Vec::new(), next: 0, closed: false };
        assert(r.state().queue =~= Seq::<(Seq<char>, Seq<char>)>::empty());
        r
    }

    /// The action that the current state calls for, stamped with `now`.
    pub fn action(&self, now: i64) -> (a: ConsumerAction)
        requires
            self.wf(),
        ensures
            a.carries_out(next_step(self.state()), now),
    {
        if self.next < self.pending.len() {
            let h = &self.pending[self.next];
            proof {
                reveal_strlit("N/A");
            }
            let nick = "N/A".to_owned();
            assert(nick@ =~= placeholder_author());
            ConsumerAction::Insert(UrlCtx { ts: now, chan: h.chan.clone(), nick, url: h.url.clone() })
        } else if self.closed {
            ConsumerAction::Stop
        } else {
            ConsumerAction::Receive
        }
    }

    /// Takes one event and returns the next action, stamped with `now`.
    pub fn step(&mut self, bot: &Bot, ev: ConsumerEvent, now: i64) -> (a: ConsumerAction)
        requires
            old(self).wf(),
        ensures
            final(self).wf(),
            final(self).state() == next_state(bot, old(self).state(), ev),
            a.carries_out(next_step(final(self).state()), now),
    {
        let ghost s0 = self.state();
        match ev {
            ConsumerEvent::Message(m) => {
                if self.next == self.pending.len() {
                    self.pending = Vec::new();
                    self.next = 0;
                    assert(self.state().queue =~= s0.queue);
                }
                let ghost q0 = self.state().queue;
                let hits = bot.handle_msg(&m);
                let ghost h = bot.msg_hits(m);
                let mut i: usize = 0;
                while i < hits.len()
                    invariant
                        i <= hits@.len(),
                        hits@.len() == h.len(),
                        forall|j: int| 0 <= j < hits@.len() ==> hits@[j]@ == h[j],
                        self.wf(),
                        self.closed == s0.closed,
                        self.state().queue =~= q0 + h.take(i as int),
                    decreases hits@.len() - i,
                {
                    let ghost before = self.pending@;
                    let ghost qb = self.state().queue;
                    let c = hits[i].clone_hit();
                    self.pending.push(c);
                    assert(self.pending@.skip(self.next as int) =~= before.skip(self.next as int).push(c));
                    assert(self.state().queue =~= qb.push(h[i as int]));
                    assert(h.take(i + 1) =~= h.take(i as int).push(h[i as int]));
                    i = i + 1;
                }
                assert(h.take(h.len() as int) =~= h);
            },
            ConsumerEvent::Inserted(_) => {
                if self.next < self.pending.len() {
                    self.next = self.next + 1;
                    assert(self.state().queue =~= s0.queue.drop_first());
                }
            },
            ConsumerEvent::Closed => {
                self.closed = true;
            },
        }
        self.action(now)
    }
}

/// Reporting `n` insert outcomes, with at least `n` hits pending, removes the
/// `n` oldest hits and nothing else.
pub proof fn lemma_after_inserts_skip(bot: &Bot, s: ConsumerState, outcomes: Seq<bool>)
    requires
        outcomes.len() <= s.queue.len(),
    ensures
        after_inserts(bot, s, outcomes).queue == s.queue.skip(outcomes.len() as int),
        after_inserts(bot, s, outcomes).closed == s.closed,
    decreases outcomes.len(),
{
    if outcomes.len() == 0 {
        assert(s.queue.skip(0) =~= s.queue);
    } else {
        lemma_after_inserts_skip(bot, s, outcomes.drop_last());
        assert(s.queue.skip((outcomes.len() - 1) as int).drop_first() =~= s.queue.skip(
            outcomes.len() as int,
        ));
    }
}

/// Whether inserts succeed or fail does not change what the consumer does
/// next: equally many outcomes of any kind lead to the same state.
pub proof fn lemma_outcomes_irrelevant(bot: &Bot, s: ConsumerState, o1: Seq<bool>, o2: Seq<bool>)
    requires
        o1.len() == o2.len(),
    ensures
        after_inserts(bot, s, o1) == after_inserts(bot, s, o2),
    decreases o1.len(),
{
    if o1.len() > 0 {
        lemma_outcomes_irrelevant(bot, s, o1.drop_last(), o2.drop_last());
    }
}

/// A message with K URLs, taken when nothing is pending, is followed by
/// exactly K inserts, of its URLs from left to right, whatever each insert's
/// outcome; after the K-th outcome the consumer is back in the state it
/// was in before the message.
pub proof fn lemma_message_inserts_in_order(
    bot: &Bot,
    s: ConsumerState,
    msg: MessageEvent,
    outcomes: Seq<bool>,
)
    requires
        s.queue.len() == 0,
        outcomes.len() <= bot.msg_hits(msg).len(),
    ensures
        ({
            let hits = bot.msg_hits(msg);
            let t = after_inserts(bot, next_state(bot, s, ConsumerEvent::Message(msg)), outcomes);
            &&& outcomes.len() < hits.len() ==> next_step(t) == NextStep::Insert(
                hits[outcomes.len() as int].0,
                hits[outcomes.len() as int].1,
            )
            &&& outcomes.len() == hits.len() ==> t == s
        }),
{
    let hits = bot.msg_hits(msg);
    let m = next_state(bot, s, ConsumerEvent::Message(msg));
    assert(m.queue =~= hits);
    lemma_after_inserts_skip(bot, m, outcomes);
    let t = after_inserts(bot, m, outcomes);
    if outcomes.len() == hits.len() {
        assert(t.queue =~= s.queue);
    }
}

/// A message without URLs leads to no insert: the consumer goes on as before.
pub proof fn lemma_no_urls_no_insert(bot: &Bot, s: ConsumerState, msg: MessageEvent)
    requires
        s.queue.len() == 0,
        bot.msg_hits(msg).len() == 0,
    ensures
        next_state(bot, s, ConsumerEvent::Message(msg)) == s,
        next_step(next_state(bot, s, ConsumerEvent::Message(msg))) == next_step(s),
{
    assert(next_state(bot, s, ConsumerEvent::Message(msg)).queue =~= s.queue);
}

/// Once the queue has closed, the consumer inserts what is still pending, in
/// order, and then stops without any further signal.
pub proof fn lemma_close_drains_then_stops(bot: &Bot, s: ConsumerState, outcomes: Seq<bool>)
    requires
        outcomes.len() <= s.queue.len(),
    ensures
        ({
            let t = after_inserts(bot, next_state(bot, s, ConsumerEvent::Closed), outcomes);
            &&& outcomes.len() < s.queue.len() ==> next_step(t) == NextStep::Insert(
                s.queue[outcomes.len() as int].0,
                s.queue[outcomes.len() as int].1,
            )
            &&& outcomes.len() == s.queue.len() ==> next_step(t) == NextStep::Stop
        }),
{
    let c = next_state(bot, s, ConsumerEvent::Closed);
    lemma_after_inserts_skip(bot, c, outcomes);
}

/// With no workspaces the channel directory is empty, and a consumer that
/// never gets a message waits until the queue closes and then stops.
pub proof fn lemma_no_workspaces(
    bot: &Bot,
    ws: Seq<SlackWorkspace>,
    ls: Seq<Vec<ChannelInfo>>,
)
    requires
        ws.len() == 0,
    ensures
        directory_of(ws, ls, ws.len()) == Map::<Seq<char>, Seq<char>>::empty(),
        next_step(initial_state()) == NextStep::Receive,
        next_step(next_state(bot, initial_state(), ConsumerEvent::Closed)) == NextStep::Stop,
{
}

} // verus!
