//! Background work on the packaging tool, bracketed by the window lock.
use vstd::prelude::*;
use crate::message::Msg;

verus! {

/// Number of times `m` occurs in `s`.
pub open spec fn count(s: Seq<Msg>, m: Msg) -> nat
    decreases s.len(),
{
    if s.len() == 0 {
        0
    } else {
        count(s.drop_last(), m) + if s.last() == m { 1nat } else { 0nat }
    }
}

/// Whether every invocation exited with status zero.
pub open spec fn all_succeeded(codes: Seq<Option<i32>>) -> bool {
    forall|i: int| 0 <= i < codes.len() ==> codes[i] == Some(0i32)
}

/// Messages sent when a task whose next screen is `next` completes.
pub open spec fn finish_spec(next: Option<Msg>, ok: bool) -> Seq<Msg> {
    if ok && next is Some {
        seq![Msg::WindActivate, next.unwrap()]
    } else {
        seq![Msg::WindActivate]
    }
}

/// Whether every invocation in `codes` exited with status zero.
pub fn succeeded(codes: &Vec<Option<i32>>) -> (r: bool)
    ensures
        r == all_succeeded(codes@),
{
    let mut i: usize = 0;
    while i < codes.len()
        invariant
            i <= codes.len(),
            forall|j: int| 0 <= j < i ==> codes@[j] == Some(0i32),
        decreases codes.len() - i,
    {
        match codes[i] {
            Some(c) => {
                if c != 0 {
                    return false;
                }
            },
            None => {
                return false;
            },
        }
        i = i + 1;
    }
    true
}

/// A slow operation: invocations of the packaging tool, each its argument list,
/// the screen to show once all of them succeeded (`None`: stay), and whether
/// the later invocations still run after one failed.
pub struct Task {
    pub commands: Vec<Vec<String>>,
    pub next: Option<Msg>,
    pub keep_going: bool,
}

/// A task that was started and locked the window; finishing it is what unlocks
/// the window again.
pub struct Busy {
    pub next: Option<Msg>,
    /// Number of invocations of the task.
    pub count: usize,
    pub keep_going: bool,
}

/// Index of the invocation to run once those with exit statuses `codes` ran,
/// if any: none after a failure unless the task keeps going.
pub open spec fn next_command_spec(b: Busy, codes: Seq<Option<i32>>) -> Option<int> {
    if codes.len() < b.count && (b.keep_going || all_succeeded(codes)) {
        Some(codes.len() as int)
    } else {
        None
    }
}

/// Whether every invocation of `b` ran and succeeded.
pub open spec fn task_succeeded(b: Busy, codes: Seq<Option<i32>>) -> bool {
    codes.len() == b.count && all_succeeded(codes)
}

/// Index of the first failed invocation, which is the error to report.
pub fn first_failure(codes: &Vec<Option<i32>>) -> (r: Option<usize>)
    ensures
        r is None <==> all_succeeded(codes@),
        r matches Some(i) ==> i < codes@.len() && codes@[i as int] != Some(0i32) && forall|j: int|
            0 <= j < i ==> codes@[j] == Some(0i32),
{
    let mut i: usize = 0;
    while i < codes.len()
        invariant
            i <= codes.len(),
            forall|j: int| 0 <= j < i ==> codes@[j] == Some(0i32),
        decreases codes.len() - i,
    {
        match codes[i] {
            Some(c) => {
                if c != 0 {
                    return Some(i);
                }
            },
            None => {
                return Some(i);
            },
        }
        i = i + 1;
    }
    None
}

/// What an action on a screen leads to.
pub enum Step {
    /// Show this screen now.
    Show(Msg),
    /// Run the given work, bracketed by the window lock.
    Run(Task),
    /// Nothing happens.
    Stay,
}

impl Task {
    /// Locks the window for the work. The returned messages go on the bus
    /// before the worker starts; the commands go to the worker.
    pub fn start(self) -> (r: (Vec<Msg>, Vec<Vec<String>>, Busy))
        ensures
            r.0@ == seq![Msg::WindDeactivate],
            r.1@ == self.commands@,
            r.2.next == self.next,
            r.2.count == self.commands@.len(),
            r.2.keep_going == self.keep_going,
    {
        let msgs = vec![Msg::WindDeactivate];
        let count = self.commands.len();
        (msgs, self.commands, Busy { next: self.next, count, keep_going: self.keep_going })
    }
}

impl Busy {
    /// The invocation that the worker runs next, given the exit statuses of
    /// those it ran so far; `None` once the work is over.
    pub fn next_command(&self, codes: &Vec<Option<i32>>) -> (r: Option<usize>)
        ensures
            r matches Some(i) ==> next_command_spec(*self, codes@) == Some(i as int),
            r is None ==> next_command_spec(*self, codes@) is None,
    {
        if codes.len() < self.count && (self.keep_going || succeeded(codes)) {
            Some(codes.len())
        } else {
            None
        }
    }

    /// Unlocks the window, and moves on to the next screen when every
    /// invocation ran and succeeded. `codes` holds the exit statuses of the
    /// invocations that ran, in order.
    pub fn finish(self, codes: &Vec<Option<i32>>) -> (r: Vec<Msg>)
        ensures
            r@ == finish_spec(self.next, task_succeeded(self, codes@)),
    {
        let ok = codes.len() == self.count && succeeded(codes);
        match self.next {
            Some(n) => {
                if ok {
                    vec![Msg::WindActivate, n]
                } else {
                    vec![Msg::WindActivate]
                }
            },
            None => vec![Msg::WindActivate],
        }
    }
}

/// A task's bracket, from its start to its completion, sends "deactivate"
/// exactly once and "activate" exactly once, whether its invocations succeed or
/// fail, and the window is unlocked before any next screen is drawn.
pub proof fn lemma_bracket_balanced(next: Option<Msg>, ok: bool)
    requires
        next matches Some(m) ==> !(m is WindActivate || m is WindDeactivate),
    ensures
        count(seq![Msg::WindDeactivate] + finish_spec(next, ok), Msg::WindDeactivate) == 1,
        count(seq![Msg::WindDeactivate] + finish_spec(next, ok), Msg::WindActivate) == 1,
        (seq![Msg::WindDeactivate] + finish_spec(next, ok))[0] == Msg::WindDeactivate,
        (seq![Msg::WindDeactivate] + finish_spec(next, ok))[1] == Msg::WindActivate,
{
    let s = seq![Msg::WindDeactivate] + finish_spec(next, ok);
    reveal_with_fuel(count, 4);
    if ok && next is Some {
        assert(s =~= seq![Msg::WindDeactivate, Msg::WindActivate, next.unwrap()]);
        assert(s.drop_last() =~= seq![Msg::WindDeactivate, Msg::WindActivate]);
        assert(s.drop_last().drop_last() =~= seq![Msg::WindDeactivate]);
        assert(s.drop_last().drop_last().drop_last() =~= Seq::<Msg>::empty());
    } else {
        assert(s =~= seq![Msg::WindDeactivate, Msg::WindActivate]);
        assert(s.drop_last() =~= seq![Msg::WindDeactivate]);
        assert(s.drop_last().drop_last() =~= Seq::<Msg>::empty());
    }
}

/// A task that does not keep going runs no invocation after one that failed.
pub proof fn lemma_stops_after_failure(b: Busy, codes: Seq<Option<i32>>, i: int)
    requires
        !b.keep_going,
        0 <= i < codes.len(),
        codes[i] != Some(0i32),
    ensures
        next_command_spec(b, codes) is None,
        !task_succeeded(b, codes),
{
}

} // verus!
