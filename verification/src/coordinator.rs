//! Device action coordinator: debounce, cooldown, a bounded single-consumer
//! command queue, and the pause/execute/resume bracket around each action.
//!
//! Triggers arrive on the data path whenever the broker answers a forwarded
//! message with an actionable command. The coordinator accepts at most one
//! action at a time: a trigger is dropped while an action is in progress
//! (debounce), and dropped while the previous action finished less than the
//! cooldown ago. A stuck queue, a malformed command, and both exits of the
//! action bracket all release the coordinator, so no path leaves it locked.
//!
//! Times are carried as milliseconds on a monotonic clock; the caller reads
//! the clock and passes the instant in.

use vstd::prelude::*;
use vstd::utf8::{decode_utf8, valid_utf8};

verus! {

/// Outcome of presenting one action trigger to the coordinator.
#[derive(Debug, Clone, Copy, PartialEq, Eq, Structural)]
pub enum SubmitOutcome {
    /// The command passed debounce and cooldown and was queued for the consumer.
    Queued,
    /// An action is already in progress; the trigger is dropped unrecorded.
    RejectedBusy,
    /// The previous action finished less than the cooldown ago; dropped.
    RejectedCooldown,
    /// The command bytes are not valid UTF-8; the coordinator is released
    /// with the action clock stamped.
    RejectedMalformed,
    /// The pending-command queue is full; the coordinator is released with
    /// the action clock stamped, so a stuck consumer cannot wedge it.
    QueueFull,
}

/// Decision of the entry check alone (debounce and cooldown), before a
/// command is handed to the queue.
#[derive(Debug, Clone, Copy, PartialEq, Eq, Structural)]
pub enum EntryDecision {
    /// Idle and out of cooldown: the trigger may be enqueued.
    Proceed,
    /// An action is already in progress.
    Busy,
    /// The previous action finished less than the cooldown ago.
    CoolingDown,
}

/// Mathematical state of the coordinator: the view of [`ActionCoordinator`].
#[verifier::ext_equal]
pub ghost struct CoordModel {
    /// True exactly between a trigger being accepted and the bracket around
    /// its action completing.
    pub in_progress: bool,
    /// When the most recent action bracket completed (or failed), if any.
    pub last_action_at: Option<int>,
    /// Minimum gap demanded between two accepted actions, in milliseconds.
    pub cooldown: int,
    /// Commands accepted but not yet taken by the consumer, oldest first.
    pub pending: Seq<Seq<char>>,
    /// Fixed bound on the pending queue.
    pub capacity: int,
}

/// Whether a trigger at `now` falls inside the cooldown window.
pub open spec fn cooldown_active(s: CoordModel, now: int) -> bool {
    match s.last_action_at {
        Some(t) => now < t + s.cooldown,
        None => false,
    }
}

/// Whether the entry check (debounce, then cooldown) lets a trigger through.
pub open spec fn entry_allows(s: CoordModel, now: int) -> bool {
    &&& !s.in_progress
    &&& !cooldown_active(s, now)
}

/// The coordinator released at `now`: no action in progress and the action
/// clock stamped. Every exit of an action bracket, a full queue, and a
/// malformed command all take this step.
pub open spec fn released(s: CoordModel, now: int) -> CoordModel {
    CoordModel { in_progress: false, last_action_at: Some(now), ..s }
}

/// One command handed to the bounded queue after the entry check passed:
/// either it is appended and an action is now in progress, or the queue is
/// full and the coordinator is released at `now`.
pub open spec fn enqueue_step(s: CoordModel, command: Seq<char>, now: int) -> (CoordModel, bool) {
    if s.pending.len() < s.capacity {
        (CoordModel { in_progress: true, pending: s.pending.push(command), ..s }, true)
    } else {
        (released(s, now), false)
    }
}

/// One raw trigger presented to the coordinator: debounce, cooldown, UTF-8
/// decoding of the command bytes, then the queue step.
pub open spec fn submit_step(s: CoordModel, payload: Seq<u8>, now: int) -> (
    CoordModel,
    SubmitOutcome,
) {
    if s.in_progress {
        (s, SubmitOutcome::RejectedBusy)
    } else if cooldown_active(s, now) {
        (s, SubmitOutcome::RejectedCooldown)
    } else if !valid_utf8(payload) {
        (released(s, now), SubmitOutcome::RejectedMalformed)
    } else {
        let (after, queued) = enqueue_step(s, decode_utf8(payload), now);
        (after, if queued { SubmitOutcome::Queued } else { SubmitOutcome::QueueFull })
    }
}

/// Relies on String::from_utf8: returns Ok exactly when the bytes are valid
/// UTF-8, and then decodes them.
#[verifier::external_body]
fn utf8_to_string(payload: Vec<u8>) -> (r: Option<String>)
    ensures
        r is Some <==> valid_utf8(payload@),
        r is Some ==> r.unwrap()@ == decode_utf8(payload@),
{
    String::from_utf8(payload).ok()
}

/// Shared per-adapter action state: the debounce flag, the cooldown clock,
/// and the bounded queue feeding the single consumer.
pub struct ActionCoordinator {
    in_progress: bool,
    last_action_at_ms: Option<u64>,
    cooldown_ms: u64,
    pending: Vec<String>,
    capacity: usize,
}

impl View for ActionCoordinator {
    type V = CoordModel;

    closed spec fn view(&self) -> CoordModel {
        CoordModel {
            in_progress: self.in_progress,
            last_action_at: match self.last_action_at_ms {
                Some(t) => Some(t as int),
                None => None,
            },
            cooldown: self.cooldown_ms as int,
            pending: self.pending.deep_view(),
            capacity: self.capacity as int,
        }
    }
}

impl ActionCoordinator {
    /// A fresh coordinator: idle, no action on record, empty queue.
    pub fn new(cooldown_ms: u64, capacity: usize) -> (c: ActionCoordinator)
        ensures
            c@.in_progress == false,
            c@.last_action_at is None,
            c@.cooldown == cooldown_ms as int,
            c@.pending == Seq::<Seq<char>>::empty(),
            c@.capacity == capacity as int,
    {
        let c = ActionCoordinator {
            in_progress: false,
            last_action_at_ms: None,
            cooldown_ms,
            pending: Vec::new(),
            capacity,
        };
        proof {
            assert(c@.pending =~= Seq::<Seq<char>>::empty());
        }
        c
    }

    /// The entry check alone, without touching any state. On the data path
    /// this is the cheap test run before a command is handed over; concurrent
    /// triggers may each pass it before any of them reaches the queue.
    pub fn entry_decision(&self, now_ms: u64) -> (d: EntryDecision)
        ensures
            (d == EntryDecision::Busy) == self@.in_progress,
            (d == EntryDecision::CoolingDown) == (!self@.in_progress && cooldown_active(
                self@,
                now_ms as int,
            )),
            (d == EntryDecision::Proceed) == entry_allows(self@, now_ms as int),
    {
        if self.in_progress {
            EntryDecision::Busy
        } else {
            match self.last_action_at_ms {
                Some(t) => {
                    if (now_ms as u128) < (t as u128) + (self.cooldown_ms as u128) {
                        EntryDecision::CoolingDown
                    } else {
                        EntryDecision::Proceed
                    }
                },
                None => EntryDecision::Proceed,
            }
        }
    }

    /// The queue step that a trigger reaches after passing the entry check:
    /// append the decoded command and mark an action in progress, or, when
    /// the queue is already full, release the coordinator at `now_ms` so a
    /// stalled consumer cannot wedge it.
    pub fn enqueue_command(&mut self, command: String, now_ms: u64) -> (queued: bool)
        ensures
            final(self)@ == enqueue_step(old(self)@, command@, now_ms as int).0,
            queued == enqueue_step(old(self)@, command@, now_ms as int).1,
    {
        if self.pending.len() < self.capacity {
            self.pending.push(command);
            self.in_progress = true;
            proof {
                assert(self@ =~= enqueue_step(old(self)@, command@, now_ms as int).0);
            }
            true
        } else {
            self.in_progress = false;
            self.last_action_at_ms = Some(now_ms);
            proof {
                assert(self@ =~= enqueue_step(old(self)@, command@, now_ms as int).0);
            }
            false
        }
    }

    /// One raw trigger, as the data path sees it: the command bytes from the
    /// broker's response, presented at `now_ms`.
    pub fn submit_payload(&mut self, payload: Vec<u8>, now_ms: u64) -> (o: SubmitOutcome)
        ensures
            final(self)@ == submit_step(old(self)@, payload@, now_ms as int).0,
            o == submit_step(old(self)@, payload@, now_ms as int).1,
    {
        match self.entry_decision(now_ms) {
            EntryDecision::Busy => SubmitOutcome::RejectedBusy,
            EntryDecision::CoolingDown => SubmitOutcome::RejectedCooldown,
            EntryDecision::Proceed => {
                match utf8_to_string(payload) {
                    Some(command) => {
                        if self.enqueue_command(command, now_ms) {
                            SubmitOutcome::Queued
                        } else {
                            SubmitOutcome::QueueFull
                        }
                    },
                    None => {
                        self.in_progress = false;
                        self.last_action_at_ms = Some(now_ms);
                        proof {
                            assert(self@ =~= released(old(self)@, now_ms as int));
                        }
                        SubmitOutcome::RejectedMalformed
                    },
                }
            },
        }
    }

    /// The single consumer takes the oldest pending command, if any.
    pub fn take_command(&mut self) -> (cmd: Option<String>)
        ensures
            old(self)@.pending.len() == 0 ==> cmd is None && final(self)@ == old(self)@,
            old(self)@.pending.len() > 0 ==> {
                &&& cmd is Some
                &&& cmd.unwrap()@ == old(self)@.pending[0]
                &&& final(self)@ == (CoordModel {
                    pending: old(self)@.pending.drop_first(),
                    ..old(self)@
                })
            },
    {
        if self.pending.len() == 0 {
            proof {
                assert(self@ =~= old(self)@);
            }
            None
        } else {
            let cmd = self.pending.remove(0);
            proof {
                assert(self@ =~= (CoordModel { pending: old(self)@.pending.drop_first(), ..old(self)@ }));
            }
            Some(cmd)
        }
    }

    /// The consumer reports whether pausing the device monitor succeeded.
    /// On failure the bracket is abandoned: the coordinator is released at
    /// `now_ms` and the command is not executed. On success the bracket goes
    /// on and the state is untouched.
    pub fn handle_pause_result(&mut self, pause_ok: bool, now_ms: u64) -> (proceed: bool)
        ensures
            proceed == pause_ok,
            pause_ok ==> final(self)@ == old(self)@,
            !pause_ok ==> final(self)@ == released(old(self)@, now_ms as int),
    {
        if pause_ok {
            proof {
                assert(self@ =~= old(self)@);
            }
            true
        } else {
            self.in_progress = false;
            self.last_action_at_ms = Some(now_ms);
            proof {
                assert(self@ =~= released(old(self)@, now_ms as int));
            }
            false
        }
    }

    /// Unconditional end of an action bracket, reached after the command ran
    /// and the monitor resume was attempted — whether or not either of them
    /// succeeded. The coordinator is released at `now_ms`.
    pub fn complete_bracket(&mut self, now_ms: u64)
        ensures
            final(self)@ == released(old(self)@, now_ms as int),
    {
        self.in_progress = false;
        self.last_action_at_ms = Some(now_ms);
        proof {
            assert(self@ =~= released(old(self)@, now_ms as int));
        }
    }

    /// Whether an action is currently in progress.
    pub fn is_in_progress(&self) -> (r: bool)
        ensures
            r == self@.in_progress,
    {
        self.in_progress
    }

    /// How many accepted commands await the consumer.
    pub fn pending_count(&self) -> (n: usize)
        ensures
            n as int == self@.pending.len(),
    {
        self.pending.len()
    }

    /// When the most recent action completed, if any.
    pub fn last_action_at_ms(&self) -> (t: Option<u64>)
        ensures
            t is Some <==> self@.last_action_at is Some,
            t is Some ==> t.unwrap() as int == self@.last_action_at.unwrap(),
    {
        self.last_action_at_ms
    }
}

/// A burst of raw triggers run through the coordinator one after another,
/// with no bracket completion in between.
pub open spec fn run_triggers(s: CoordModel, triggers: Seq<(Seq<u8>, int)>) -> CoordModel
    decreases triggers.len(),
{
    if triggers.len() == 0 {
        s
    } else {
        run_triggers(submit_step(s, triggers[0].0, triggers[0].1).0, triggers.drop_first())
    }
}

/// How many triggers of a burst the coordinator accepts (queues).
pub open spec fn accepted_count(s: CoordModel, triggers: Seq<(Seq<u8>, int)>) -> nat
    decreases triggers.len(),
{
    if triggers.len() == 0 {
        0
    } else {
        let (after, outcome) = submit_step(s, triggers[0].0, triggers[0].1);
        (if outcome == SubmitOutcome::Queued {
            1nat
        } else {
            0nat
        }) + accepted_count(after, triggers.drop_first())
    }
}

/// Debounce: while an action is in progress, every trigger is rejected
/// without touching the state, however many arrive and whatever they carry.
pub proof fn lemma_busy_rejects_all(s: CoordModel, triggers: Seq<(Seq<u8>, int)>)
    requires
        s.in_progress,
    ensures
        accepted_count(s, triggers) == 0,
        run_triggers(s, triggers) == s,
    decreases triggers.len(),
{
    if triggers.len() > 0 {
        lemma_busy_rejects_all(s, triggers.drop_first());
    }
}

/// Mutual exclusion: over any burst of triggers — concurrent arrivals
/// present themselves to the coordinator in some order — at most one is
/// accepted before a bracket completion releases the coordinator again, so
/// at most one action is ever in progress at a time.
pub proof fn lemma_at_most_one_in_progress(s: CoordModel, triggers: Seq<(Seq<u8>, int)>)
    ensures
        accepted_count(s, triggers) <= 1,
        s.in_progress ==> accepted_count(s, triggers) == 0,
    decreases triggers.len(),
{
    if s.in_progress {
        lemma_busy_rejects_all(s, triggers);
    } else if triggers.len() > 0 {
        let (after, outcome) = submit_step(s, triggers[0].0, triggers[0].1);
        if outcome == SubmitOutcome::Queued {
            lemma_busy_rejects_all(after, triggers.drop_first());
        } else {
            lemma_at_most_one_in_progress(after, triggers.drop_first());
        }
    }
}

/// Cooldown guard: while the coordinator is idle with a previous action on
/// record at `t`, a trigger at `now` is turned away exactly when less than
/// the cooldown has elapsed, and is never mistaken for a busy rejection.
pub proof fn lemma_cooldown_guard(s: CoordModel, payload: Seq<u8>, now: int, t: int)
    requires
        !s.in_progress,
        s.last_action_at == Some(t),
    ensures
        now - t < s.cooldown ==> submit_step(s, payload, now) == (
            s,
            SubmitOutcome::RejectedCooldown,
        ),
        now - t >= s.cooldown ==> submit_step(s, payload, now).1 != SubmitOutcome::RejectedCooldown
            && submit_step(s, payload, now).1 != SubmitOutcome::RejectedBusy,
{
}

/// No path leaves the coordinator locked: both exits of an action bracket —
/// the pause failing, or the command running and the resume being attempted —
/// release it, clearing the in-progress flag and stamping the action clock.
pub proof fn lemma_bracket_always_releases(s: CoordModel, now: int)
    ensures
        !released(s, now).in_progress,
        released(s, now).last_action_at == Some(now),
{
}

} // verus!
