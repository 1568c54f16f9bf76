//! Sequences of operations on hardware, and what their failures mean.
//!
//! A task is written down as a script: the steps that it takes, in order. Whoever
//! drives the task performs the current step, reports what became of it, and is
//! told how to go on.

use vstd::prelude::*;

verus! {

/// What the failure of a step means for the task.
#[derive(Clone, Copy, Debug)]
pub enum Failure {
    /// The task ends with the error that the step gave.
    Propagate,
    /// The task ends with an error of the hashboard, with this text.
    Hashboard(&'static str),
    /// The task cannot go on: it panics with this text.
    Panic(&'static str),
}

/// A step of a task. One that cannot fail carries `Failure::Propagate`.
#[derive(Debug)]
pub struct Step<A> {
    pub action: A,
    pub failure: Failure,
}

/// What became of a step.
#[derive(Clone, Copy, Debug, PartialEq, Eq, Structural)]
pub enum Reply {
    /// It was performed.
    Done,
    /// It was performed, and there is nothing left to do for the task.
    Exhausted,
    /// It failed.
    Failed,
}

/// How a task goes on.
#[derive(Clone, Copy, Debug)]
pub enum Next {
    /// With the step that is now current.
    Continue,
    /// Not at all: it is complete.
    Finished,
    /// Not at all: a step failed.
    Stopped(Failure),
}

/// A step whose failure ends the task with the step's error.
pub open spec fn try_step<A>(action: A) -> Step<A> {
    Step { action, failure: Failure::Propagate }
}

/// A step whose failure ends the task with an error of the hashboard.
pub open spec fn board_step<A>(action: A, text: &'static str) -> Step<A> {
    Step { action, failure: Failure::Hashboard(text) }
}

/// A step whose failure makes the task panic.
pub open spec fn must_step<A>(action: A, text: &'static str) -> Step<A> {
    Step { action, failure: Failure::Panic(text) }
}

/// Each step of the one kind comes before every step of the other.
pub open spec fn precedes<A>(
    steps: Seq<Step<A>>,
    first: spec_fn(A) -> bool,
    second: spec_fn(A) -> bool,
) -> bool {
    forall|i: int, j: int|
        0 <= i < steps.len() && 0 <= j < steps.len() && first(#[trigger] steps[i].action) && second(
            #[trigger] steps[j].action,
        ) ==> i < j
}

/// Which step of a script of `len` steps is the `n`-th to be performed, when none
/// fails. A script that repeats starts over at `repeat_from` after its last step.
pub open spec fn step_index(len: int, repeat_from: Option<usize>, n: int) -> int {
    match repeat_from {
        Some(k) => if n < k {
            n
        } else {
            k + (n - k) % (len - k)
        },
        None => n,
    }
}

/// The position of a script of `len` steps after its current step was performed.
pub open spec fn next_index(len: int, repeat_from: Option<usize>, pos: int) -> int {
    if pos + 1 < len {
        pos + 1
    } else {
        match repeat_from {
            Some(k) => k as int,
            None => len,
        }
    }
}

/// A task and how far it got.
#[derive(Debug)]
pub struct Script<A> {
    pub steps: Vec<Step<A>>,
    pub repeat_from: Option<usize>,
    pub pos: usize,
}

impl<A: Copy> Script<A> {
    pub open spec fn wf(self) -> bool {
        &&& self.pos <= self.steps@.len()
        &&& self.repeat_from matches Some(k) ==> k < self.steps@.len()
    }

    /// Whether the task is over.
    pub open spec fn over(self) -> bool {
        self.pos >= self.steps@.len()
    }

    /// Whether this is the step to perform.
    pub open spec fn at(self, action: A) -> bool {
        !self.over() && self.steps@[self.pos as int].action == action
    }

    /// Whether this step was performed, in a task that does not repeat.
    pub open spec fn passed(self, action: A) -> bool {
        exists|i: int| 0 <= i < self.pos && (#[trigger] self.steps@[i]).action == action
    }

    /// The task in which no step was performed yet.
    pub open spec fn fresh(self, steps: Seq<Step<A>>, repeat_from: Option<usize>) -> bool {
        &&& self.steps@ == steps
        &&& self.repeat_from == repeat_from
        &&& self.pos == 0
    }

    /// The same task, at another step.
    pub open spec fn same_task(self, other: Self) -> bool {
        self.steps == other.steps && self.repeat_from == other.repeat_from
    }

    /// A task that is over after its last step.
    pub fn once(steps: Vec<Step<A>>) -> (r: Self)
        ensures
            r.fresh(steps@, None),
            r.wf(),
    {
        Script { steps, repeat_from: None, pos: 0 }
    }

    /// A task that starts over at `repeat_from` after its last step.
    pub fn repeating(steps: Vec<Step<A>>, repeat_from: usize) -> (r: Self)
        requires
            repeat_from < steps@.len(),
        ensures
            r.fresh(steps@, Some(repeat_from)),
            r.wf(),
    {
        Script { steps, repeat_from: Some(repeat_from), pos: 0 }
    }

    /// The step to perform, if the task is not over.
    pub fn current(&self) -> (r: Option<A>)
        ensures
            self.over() ==> r is None,
            !self.over() ==> r == Some(self.steps@[self.pos as int].action),
    {
        if self.pos < self.steps.len() {
            Some(self.steps[self.pos].action)
        } else {
            None
        }
    }

    /// Takes note of what became of the current step.
    pub fn report(&mut self, reply: Reply) -> (next: Next)
        requires
            old(self).wf(),
            !old(self).over(),
        ensures
            final(self).wf(),
            final(self).same_task(*old(self)),
            match reply {
                Reply::Done => {
                    &&& final(self).pos == next_index(
                        old(self).steps@.len() as int,
                        old(self).repeat_from,
                        old(self).pos as int,
                    )
                    &&& old(self).pos + 1 < old(self).steps@.len() ==> final(self).pos
                        == old(self).pos + 1
                    &&& next == if final(self).over() {
                        Next::Finished
                    } else {
                        Next::Continue
                    }
                },
                Reply::Exhausted => next == Next::Finished && final(self).over(),
                Reply::Failed => next == Next::Stopped(
                    old(self).steps@[old(self).pos as int].failure,
                ) && final(self).over(),
            },
    {
        let len: usize = self.steps.len();
        match reply {
            Reply::Done => {
                if self.pos + 1 < len {
                    self.pos = self.pos + 1;
                    Next::Continue
                } else {
                    match self.repeat_from {
                        Some(k) => {
                            self.pos = k;
                            Next::Continue
                        },
                        None => {
                            self.pos = len;
                            Next::Finished
                        },
                    }
                }
            },
            Reply::Exhausted => {
                self.pos = len;
                Next::Finished
            },
            Reply::Failed => {
                let failure = self.steps[self.pos].failure;
                self.pos = len;
                Next::Stopped(failure)
            },
        }
    }
}

/// After a step, the steps that were performed are those before and this one.
pub proof fn lemma_passed<A: Copy>(pre: Script<A>, post: Script<A>)
    requires
        !pre.over(),
        post.steps == pre.steps,
        post.pos == pre.pos + 1,
    ensures
        forall|a: A| #[trigger] post.passed(a) <==> pre.passed(a) || pre.at(a),
{
    assert forall|a: A| #[trigger] post.passed(a) <==> pre.passed(a) || pre.at(a) by {
        if post.passed(a) {
            let i = choose|i: int| 0 <= i < post.pos && (#[trigger] post.steps@[i]).action == a;
            assert(pre.steps@[i].action == a);
        }
        if pre.passed(a) {
            let i = choose|i: int| 0 <= i < pre.pos && (#[trigger] pre.steps@[i]).action == a;
            assert(post.steps@[i].action == a);
        }
        if pre.at(a) {
            assert(post.steps@[pre.pos as int].action == a);
        }
    }
}

/// As long as no step fails, the steps are performed in the order of the script:
/// the first is the script's first, and if the current step is the `n`-th to be
/// performed, the next one is the one after that.
pub proof fn law_steps_in_order(len: int, repeat_from: Option<usize>, n: int)
    requires
        0 <= n,
        repeat_from matches Some(k) ==> k < len,
        repeat_from is None ==> n < len,
    ensures
        step_index(len, repeat_from, 0) == 0,
        0 <= step_index(len, repeat_from, n) < len,
        next_index(len, repeat_from, step_index(len, repeat_from, n)) == step_index(
            len,
            repeat_from,
            n + 1,
        ),
{
    match repeat_from {
        Some(k) => {
            if n >= k {
                let m = len - k;
                let a = n - k;
                vstd::arithmetic::div_mod::lemma_mod_adds(a, 1, m);
                assert(0 <= a % m < m);
                if m == 1 {
                    assert((a + 1) % m == 0 && a % m == 0);
                } else {
                    assert(1int % m == 1) by (nonlinear_arith)
                        requires
                            m > 1,
                    ;
                    if a % m + 1 == m {
                        vstd::arithmetic::div_mod::lemma_add_mod_noop(a, 1, m);
                        vstd::arithmetic::div_mod::lemma_mod_self_0(m);
                    } else {
                        vstd::arithmetic::div_mod::lemma_add_mod_noop(a, 1, m);
                        vstd::arithmetic::div_mod::lemma_small_mod((a % m + 1) as nat, m as nat);
                    }
                }
            } else if n + 1 == k {
                assert(0int % (len - k) == 0);
            }
        },
        None => {},
    }
}

/// What comes after a step that was performed: the step behind it, or after the last
/// one the step that the task starts over at, or the end of a task that does not.
pub proof fn law_next_step(len: int, repeat_from: Option<usize>, pos: int)
    requires
        0 <= pos < len,
    ensures
        pos < len - 1 ==> next_index(len, repeat_from, pos) == pos + 1,
        pos == len - 1 ==> next_index(len, repeat_from, pos) == (match repeat_from {
            Some(k) => k as int,
            None => len,
        }),
{
}

/// What the failure of a step of each kind means.
pub proof fn law_kinds_of_steps<A>(action: A, text: &'static str)
    ensures
        try_step(action).action == action && try_step(action).failure == Failure::Propagate,
        board_step(action, text).action == action && board_step(action, text).failure
            == Failure::Hashboard(text),
        must_step(action, text).action == action && must_step(action, text).failure
            == Failure::Panic(text),
{
}

/// A fresh task is at its first step and none was performed.
pub proof fn law_fresh_task<A: Copy>(
    script: Script<A>,
    steps: Seq<Step<A>>,
    repeat_from: Option<usize>,
    action: A,
)
    requires
        script.fresh(steps, repeat_from),
    ensures
        script.pos == 0,
        script.steps@ == steps,
        script.repeat_from == repeat_from,
        !script.passed(action),
        script.over() <==> steps.len() == 0,
        steps.len() > 0 ==> (script.at(action) <==> steps[0].action == action),
{
}

/// The steps that were performed are those before the current one.
pub proof fn law_performed_steps<A: Copy>(script: Script<A>, i: int)
    requires
        0 <= i < script.steps@.len(),
    ensures
        i < script.pos ==> script.passed(script.steps@[i].action),
        i == script.pos ==> script.at(script.steps@[i].action),
        script.over() <==> script.pos >= script.steps@.len(),
        forall|action: A| #[trigger]
            script.passed(action) ==> exists|j: int|
                0 <= j < script.pos && (#[trigger] script.steps@[j]).action == action,
{
}

/// Two scripts are of the same task exactly if they have the same steps and start over
/// at the same one.
pub proof fn law_same_task<A: Copy>(a: Script<A>, b: Script<A>)
    ensures
        a.same_task(b) <==> a.steps == b.steps && a.repeat_from == b.repeat_from,
{
}

} // verus!
