//! A counter meant to live behind a lock and be shared by workers, with an
//! explicit poison flag: once a holder failed while holding it, every later
//! access reports the failure instead of using a value that may be
//! inconsistent.
use vstd::prelude::*;

verus! {

/// An access to a counter whose earlier holder failed.
#[derive(Clone, Copy, Debug, PartialEq, Eq, Structural)]
pub struct LockPoisoned;

/// Abstract state of a counter: its value and whether it is poisoned.
pub type CounterState = (nat, bool);

/// The state after one increment.
pub open spec fn increment_spec(s: CounterState) -> CounterState {
    if s.1 {
        s
    } else {
        ((s.0 + 1) as nat, s.1)
    }
}

/// The state after the increments of `schedule`, one per entry, in order;
/// each entry names the worker that made it.
pub open spec fn run_schedule(s: CounterState, schedule: Seq<nat>) -> CounterState
    decreases schedule.len(),
{
    if schedule.len() == 0 {
        s
    } else {
        increment_spec(run_schedule(s, schedule.drop_last()))
    }
}

/// A shared counter.
pub struct SharedCounter {
    value: u64,
    poisoned: bool,
}

impl View for SharedCounter {
    type V = CounterState;

    closed spec fn view(&self) -> CounterState {
        (self.value as nat, self.poisoned)
    }
}

impl SharedCounter {
    /// A counter holding `initial`, not poisoned.
    pub fn new(initial: u64) -> (r: SharedCounter)
        ensures
            r@ == (initial as nat, false),
    {
        SharedCounter { value: initial, poisoned: false }
    }

    /// Adds one; answers the new value, or `LockPoisoned` with nothing changed.
    pub fn increment(&mut self) -> (r: Result<u64, LockPoisoned>)
        requires
            !old(self)@.1 ==> old(self)@.0 < u64::MAX,
        ensures
            final(self)@ == increment_spec(old(self)@),
            r is Ok <==> !old(self)@.1,
            r is Ok ==> r->Ok_0 == final(self)@.0,
    {
        if self.poisoned {
            return Err(LockPoisoned);
        }
        self.value = self.value + 1;
        Ok(self.value)
    }

    /// The value, or `LockPoisoned`.
    pub fn read(&self) -> (r: Result<u64, LockPoisoned>)
        ensures
            r is Ok <==> !self@.1,
            r is Ok ==> r->Ok_0 == self@.0,
    {
        if self.poisoned {
            Err(LockPoisoned)
        } else {
            Ok(self.value)
        }
    }

    /// Records that a holder failed while holding the counter.
    pub fn mark_poisoned(&mut self)
        ensures
            final(self)@ == (old(self)@.0, true),
    {
        self.poisoned = true;
    }

    /// Whether the counter is poisoned.
    pub fn is_poisoned(&self) -> (r: bool)
        ensures
            r == self@.1,
    {
        self.poisoned
    }
}

/// The number of entries of `s` equal to `w`.
pub open spec fn occurrences(s: Seq<nat>, w: nat) -> nat
    decreases s.len(),
{
    if s.len() == 0 {
        0
    } else {
        occurrences(s.drop_last(), w) + if s.last() == w {
            1nat
        } else {
            0nat
        }
    }
}

/// The number of entries of `s` that name one of the workers `0 .. n`.
pub open spec fn total_occurrences(s: Seq<nat>, n: nat) -> nat
    decreases n,
{
    if n == 0 {
        0
    } else {
        total_occurrences(s, (n - 1) as nat) + occurrences(s, (n - 1) as nat)
    }
}

proof fn lemma_total_push(s: Seq<nat>, x: nat, n: nat)
    ensures
        total_occurrences(s.push(x), n) == total_occurrences(s, n) + if x < n {
            1nat
        } else {
            0nat
        },
    decreases n,
{
    if n > 0 {
        lemma_total_push(s, x, (n - 1) as nat);
        assert(s.push(x).drop_last() =~= s);
    }
}

proof fn lemma_total_is_len(s: Seq<nat>, n: nat)
    requires
        forall|i: int| 0 <= i < s.len() ==> s[i] < n,
    ensures
        total_occurrences(s, n) == s.len(),
    decreases s.len(),
{
    if s.len() == 0 {
        lemma_total_empty(s, n);
    } else {
        let t = s.drop_last();
        lemma_total_is_len(t, n);
        lemma_total_push(t, s.last(), n);
        assert(t.push(s.last()) =~= s);
    }
}

proof fn lemma_total_empty(s: Seq<nat>, n: nat)
    requires
        s.len() == 0,
    ensures
        total_occurrences(s, n) == 0,
    decreases n,
{
    if n > 0 {
        lemma_total_empty(s, (n - 1) as nat);
    }
}

proof fn lemma_total_uniform(s: Seq<nat>, n: nat, m: nat)
    requires
        forall|w: nat| w < n ==> occurrences(s, w) == m,
    ensures
        total_occurrences(s, n) == n * m,
    decreases n,
{
    if n > 0 {
        lemma_total_uniform(s, (n - 1) as nat, m);
        assert(occurrences(s, (n - 1) as nat) == m);
        assert(n * m == (n - 1) * m + m) by (nonlinear_arith)
            requires
                n > 0,
        ;
    } else {
        assert(n * m == 0) by (nonlinear_arith)
            requires
                n == 0,
        ;
    }
}

proof fn lemma_run_schedule(s: CounterState, schedule: Seq<nat>)
    requires
        !s.1,
    ensures
        run_schedule(s, schedule) == ((s.0 + schedule.len()) as nat, false),
    decreases schedule.len(),
{
    if schedule.len() > 0 {
        lemma_run_schedule(s, schedule.drop_last());
    }
}

/// When `n` workers each increment a counter that is not poisoned exactly `m`
/// times, in any interleaving, the counter ends at its initial value plus
/// `n * m`, still not poisoned.
pub proof fn lemma_counter_linearizable(s: CounterState, schedule: Seq<nat>, n: nat, m: nat)
    requires
        !s.1,
        forall|i: int| 0 <= i < schedule.len() ==> schedule[i] < n,
        forall|w: nat| w < n ==> occurrences(schedule, w) == m,
    ensures
        run_schedule(s, schedule) == ((s.0 + n * m) as nat, false),
{
    lemma_total_is_len(schedule, n);
    lemma_total_uniform(schedule, n, m);
    lemma_run_schedule(s, schedule);
}

} // verus!
