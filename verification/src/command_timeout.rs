//! Deadlines for starts and stops, one per hci, behind a single shared wakeup.
//!
//! Time is a count of milliseconds on a clock that the caller reads. The
//! wakeup itself is the caller's as well: wherever it has to be armed, the
//! answer says after how many milliseconds it is to fire.
use crate::adapter::{CommandTimeoutAction, COMMAND_TIMEOUT_MS};
use std::collections::HashMap;
use vstd::prelude::*;
use vstd::std_specs::iter::IteratorSpec;

verus! {

/// The deadlines as a value.
#[verifier::ext_equal]
pub struct TimerView {
    /// Whether no wakeup is armed.
    pub expired: bool,
    /// The deadline of every hci that has one.
    pub deadlines: Map<i32, u64>,
}

impl TimerView {
    /// Whether the deadline of `hci` has passed at `now`.
    pub open spec fn is_due(self, hci: i32, now: u64) -> bool {
        self.deadlines.contains_key(hci) && self.deadlines[hci] <= now
    }

    /// The timers after `hci` was given a deadline one timeout from `now`. A
    /// wakeup is armed from then on.
    pub open spec fn set_next(self, hci: i32, now: u64) -> TimerView {
        TimerView {
            expired: false,
            deadlines: self.deadlines.insert(hci, (now + COMMAND_TIMEOUT_MS) as u64),
            ..self
        }
    }

    /// The timers after the deadline of `hci` was taken away. This does not
    /// disarm the wakeup.
    pub open spec fn cancel(self, hci: i32) -> TimerView {
        TimerView { deadlines: self.deadlines.remove(hci), ..self }
    }

    /// Whether `hci` has a deadline that has not passed at `now`.
    pub open spec fn outlasts(self, hci: i32, now: u64) -> bool {
        self.deadlines.contains_key(hci) && self.deadlines[hci] > now
    }

    /// The timers after every deadline that has passed at `now` was taken
    /// away. The wakeup is armed again exactly if a deadline is left.
    pub open spec fn expire(self, now: u64) -> TimerView {
        TimerView {
            expired: forall|hci: i32| !self.outlasts(hci, now),
            deadlines: Map::new(|hci: i32| self.outlasts(hci, now), |hci: i32| self.deadlines[hci]),
            ..self
        }
    }

    /// The timers after `action` was carried out for `hci` at `now`.
    pub open spec fn apply(self, hci: i32, action: CommandTimeoutAction, now: u64) -> TimerView {
        match action {
            CommandTimeoutAction::ResetTimer => self.set_next(hci, now),
            CommandTimeoutAction::CancelTimer => self.cancel(hci),
            CommandTimeoutAction::DoNothing => self,
        }
    }

    /// No deadlines and no wakeup armed.
    pub open spec fn initial() -> TimerView {
        TimerView { expired: true, deadlines: Map::empty() }
    }

    /// The time after which the wakeup has to fire once `action` was carried
    /// out: one timeout, if a deadline was set and no wakeup was armed.
    pub open spec fn wake_on(self, action: CommandTimeoutAction) -> Option<u64> {
        if action == CommandTimeoutAction::ResetTimer && self.expired {
            Some(COMMAND_TIMEOUT_MS)
        } else {
            None
        }
    }

    /// Whether `wake` milliseconds from `now` is when the wakeup has to fire
    /// for the deadlines at hand, none of which has passed: at the earliest of them.
    pub open spec fn wakes_after(self, now: u64, wake: u64) -> bool {
        &&& forall|hci: i32| #[trigger]
            self.deadlines.contains_key(hci) ==> wake <= self.deadlines[hci] - now
        &&& exists|hci: i32| #[trigger]
            self.deadlines.contains_key(hci) && self.deadlines[hci] - now == wake
    }
}

/// Command timeouts per hci interface.
pub struct CommandTimeout {
    /// Whether no wakeup is armed.
    expired: bool,
    /// The deadline of every hci that has one.
    per_hci_timeout: HashMap<i32, u64>,
}

impl View for CommandTimeout {
    type V = TimerView;

    closed spec fn view(&self) -> TimerView {
        TimerView { expired: self.expired, deadlines: self.per_hci_timeout@ }
    }
}

impl CommandTimeout {
    /// No deadlines and no wakeup armed.
    pub fn new() -> (timeout: CommandTimeout)
        ensures
            timeout@ == TimerView::initial(),
    {
        CommandTimeout { per_hci_timeout: HashMap::new(), expired: true }
    }

    /// The deadline of `hci`, if it has one.
    pub fn deadline(&self, hci: i32) -> (deadline: Option<u64>)
        ensures
            deadline == if self@.deadlines.contains_key(hci) {
                Some(self@.deadlines[hci])
            } else {
                None::<u64>
            },
    {
        broadcast use vstd::std_specs::hash::group_hash_axioms;

        match self.per_hci_timeout.get(&hci) {
            Some(deadline) => Some(*deadline),
            None => None,
        }
    }

    /// Gives `hci` a deadline one timeout from `now`. If no wakeup is armed,
    /// the answer is the time after which one has to fire.
    pub fn set_next(&mut self, hci: i32, now: u64) -> (wake: Option<u64>)
        requires
            now + COMMAND_TIMEOUT_MS <= u64::MAX,
        ensures
            final(self)@ == old(self)@.set_next(hci, now),
            wake == old(self)@.wake_on(CommandTimeoutAction::ResetTimer),
    {
        broadcast use vstd::std_specs::hash::group_hash_axioms;

        let deadline: u64 = now + COMMAND_TIMEOUT_MS;
        self.per_hci_timeout.insert(hci, deadline);
        if self.expired {
            self.expired = false;
            Some(COMMAND_TIMEOUT_MS)
        } else {
            None
        }
    }

    /// Takes the deadline of `hci` away.
    pub fn cancel(&mut self, hci: i32)
        ensures
            final(self)@ == old(self)@.cancel(hci),
    {
        broadcast use vstd::std_specs::hash::group_hash_axioms;

        self.per_hci_timeout.remove(&hci);
    }

    /// Takes away every deadline that has passed at `now` and returns whose
    /// they were, each hci once and in no particular order. If a deadline is
    /// left, the second answer is the time after which the wakeup has to fire
    /// next; if none is left, no wakeup is armed any more.
    pub fn expire(&mut self, now: u64) -> (result: (Vec<i32>, Option<u64>))
        ensures
            final(self)@ == old(self)@.expire(now),
            result.0@.no_duplicates(),
            forall|hci: i32| result.0@.contains(hci) <==> old(self)@.is_due(hci, now),
            match result.1 {
                Some(wake) => !final(self)@.expired && final(self)@.wakes_after(now, wake),
                None => final(self)@.expired,
            },
    {
        broadcast use vstd::std_specs::hash::group_hash_axioms;

        let mut completed: Vec<i32> = Vec::new();
        let mut wake: u64 = u64::MAX;
        let mut any_left: bool = false;
        let ghost all = self.per_hci_timeout.iter().remaining();
        let ghost before = self.per_hci_timeout@;
        let ghost mut seen: int = 0;
        let ghost mut origin: Seq<int> = Seq::empty();
        for entry in it: self.per_hci_timeout.iter()
            invariant
                it.seq() == all,
                it.index() == seen,
                all.no_duplicates(),
                before == self.per_hci_timeout@,
                all == self.per_hci_timeout.iter().remaining(),
                origin.len() == completed.len(),
                forall|i: int|
                    0 <= i < completed.len() ==> {
                        &&& 0 <= #[trigger] origin[i] < seen
                        &&& *all[origin[i]].0 == completed[i]
                        &&& *all[origin[i]].1 <= now
                    },
                forall|i: int, j: int|
                    0 <= i < j < completed.len() ==> #[trigger] origin[i] < #[trigger] origin[j],
                forall|j: int|
                    0 <= j < seen && *(#[trigger] all[j]).1 <= now ==> completed@.contains(
                        *all[j].0,
                    ),
                forall|j: int|
                    0 <= j < seen && *(#[trigger] all[j]).1 > now ==> wake <= *all[j].1 - now,
                any_left <==> exists|j: int| 0 <= j < seen && *(#[trigger] all[j]).1 > now,
                any_left ==> exists|j: int|
                    0 <= j < seen && *(#[trigger] all[j]).1 > now && *all[j].1 - now == wake,
        {
            let (hci, expiry) = entry;
            proof {
                assert(all[seen] == entry);
            }
            if *expiry <= now {
                let ghost earlier = completed@;
                completed.push(*hci);
                proof {
                    origin = origin.push(seen);
                    assert forall|j: int|
                        0 <= j < seen + 1 && *(#[trigger] all[j]).1 <= now implies completed@.contains(
                        *all[j].0,
                    ) by {
                        if j < seen {
                            let at = choose|at: int|
                                0 <= at < earlier.len() && earlier[at] == *all[j].0;
                            assert(completed@[at] == *all[j].0);
                        } else {
                            assert(completed@.last() == *all[j].0);
                        }
                    }
                }
            } else {
                if !any_left || *expiry - now < wake {
                    wake = *expiry - now;
                }
                any_left = true;
            }
            proof {
                seen = seen + 1;
            }
        }
        let ghost start = old(self)@;
        proof {
            assert(before == start.deadlines);
            assert forall|i: int| 0 <= i < completed.len() implies before.contains_key(
                #[trigger] completed[i],
            ) && before[completed[i]] <= now by {
                let pair = all[origin[i]];
                assert(before.contains_key(*pair.0) && before[*pair.0] == *pair.1);
            }
            assert forall|i: int, j: int| 0 <= i < j < completed.len() implies completed[i]
                != completed[j] by {
                let first = all[origin[i]];
                let second = all[origin[j]];
                assert(before[*first.0] == *first.1);
                assert(before[*second.0] == *second.1);
                assert(origin[i] < origin[j]);
            }
            assert forall|hci: i32| completed@.contains(hci) <==> start.is_due(hci, now) by {
                if start.is_due(hci, now) {
                    let pair = (&hci, &before[hci]);
                    assert(all.contains(pair));
                    let j = choose|j: int| 0 <= j < all.len() && all[j] == pair;
                    assert(*all[j].1 <= now);
                }
                if completed@.contains(hci) {
                    let i = choose|i: int| 0 <= i < completed.len() && completed[i] == hci;
                    assert(before.contains_key(completed[i]));
                }
            }
            assert(any_left <==> exists|hci: i32| start.outlasts(hci, now)) by {
                if any_left {
                    let j = choose|j: int| 0 <= j < seen && *(#[trigger] all[j]).1 > now;
                    assert(before[*all[j].0] == *all[j].1);
                    assert(start.outlasts(*all[j].0, now));
                } else if exists|hci: i32| start.outlasts(hci, now) {
                    let hci = choose|hci: i32| start.outlasts(hci, now);
                    let pair = (&hci, &before[hci]);
                    assert(all.contains(pair));
                    let j = choose|j: int| 0 <= j < all.len() && all[j] == pair;
                    assert(*all[j].1 > now);
                }
            }
            assert forall|hci: i32| start.outlasts(hci, now) implies wake <= before[hci] - now by {
                let pair = (&hci, &before[hci]);
                assert(all.contains(pair));
                let j = choose|j: int| 0 <= j < all.len() && all[j] == pair;
                assert(*all[j].1 > now);
            }
            assert(any_left ==> exists|hci: i32|
                start.outlasts(hci, now) && before[hci] - now == wake) by {
                if any_left {
                    let j = choose|j: int|
                        0 <= j < seen && *(#[trigger] all[j]).1 > now && *all[j].1 - now == wake;
                    assert(before[*all[j].0] == *all[j].1);
                    assert(start.outlasts(*all[j].0, now) && before[*all[j].0] - now == wake);
                }
            }
        }
        let mut i: usize = 0;
        while i < completed.len()
            invariant
                i <= completed.len(),
                forall|hci: i32|
                    self.per_hci_timeout@.contains_key(hci) <==> before.contains_key(hci)
                        && !completed@.take(i as int).contains(hci),
                forall|hci: i32| #[trigger]
                    self.per_hci_timeout@.contains_key(hci) ==> self.per_hci_timeout@[hci]
                        == before[hci],
            decreases completed.len() - i,
        {
            let ghost taken = completed@.take(i as int);
            self.per_hci_timeout.remove(&completed[i]);
            proof {
                let more = completed@.take(i + 1);
                assert(more =~= taken.push(completed[i as int]));
                assert forall|hci: i32|
                    self.per_hci_timeout@.contains_key(hci) <==> before.contains_key(hci)
                        && !more.contains(hci) by {
                    if hci == completed[i as int] {
                        assert(more.last() == hci);
                    } else if taken.contains(hci) {
                        let at = choose|at: int| 0 <= at < taken.len() && taken[at] == hci;
                        assert(more[at] == hci);
                    } else if more.contains(hci) {
                        let at = choose|at: int| 0 <= at < more.len() && more[at] == hci;
                        assert(taken[at] == hci);
                    }
                }
            }
            i = i + 1;
        }
        proof {
            assert(completed@.take(completed.len() as int) =~= completed@);
            let left = start.expire(now).deadlines;
            assert forall|hci: i32| self.per_hci_timeout@.contains_key(hci) <==> left.contains_key(
                hci,
            ) by {
                assert(completed@.contains(hci) <==> start.is_due(hci, now));
            }
            assert(self.per_hci_timeout@ =~= left);
        }
        // If any deadline is left, the wakeup fires again at the earliest of them.
        if any_left {
            self.expired = false;
            proof {
                let hci = choose|hci: i32| start.outlasts(hci, now) && before[hci] - now == wake;
                assert(self@.deadlines.contains_key(hci));
            }
            (completed, Some(wake))
        } else {
            self.expired = true;
            (completed, None)
        }
    }

    /// Carries out what a transition asked for the timer of `hci`. The answer
    /// is as that of [`CommandTimeout::set_next`].
    pub fn handle_timeout_action(
        &mut self,
        hci: i32,
        action: CommandTimeoutAction,
        now: u64,
    ) -> (wake: Option<u64>)
        requires
            now + COMMAND_TIMEOUT_MS <= u64::MAX,
        ensures
            final(self)@ == old(self)@.apply(hci, action, now),
            wake == old(self)@.wake_on(action),
    {
        match action {
            CommandTimeoutAction::ResetTimer => self.set_next(hci, now),
            CommandTimeoutAction::CancelTimer => {
                self.cancel(hci);
                None
            },
            CommandTimeoutAction::DoNothing => None,
        }
    }
}

} // verus!
