//! Statistics of mining.

use crate::script::{must_step, try_step, Failure, Script, Step};
use std::time::Instant;
use vstd::prelude::*;

verus! {

/// One second, in nanoseconds.
pub const SECOND_NS: u128 = 1_000_000_000;

/// How often the hash rate is reported, in milliseconds.
pub const MINING_DELAY_MS: u64 = 1000;

/// The intervals, in nanoseconds, over which the hash rate is averaged by default.
pub open spec fn default_intervals() -> Seq<u128> {
    seq![
        (5 * SECOND_NS) as u128,
        (60 * SECOND_NS) as u128,
        (5 * 60 * SECOND_NS) as u128,
        (15 * 60 * SECOND_NS) as u128,
        (24 * 60 * 60 * SECOND_NS) as u128,
    ]
}

/// The intervals, in nanoseconds, over which the hash rate is averaged by default:
/// 5 seconds, 1, 5 and 15 minutes, and a day.
pub fn default_time_mean_intervals() -> (r: Vec<u128>)
    ensures
        r@ == default_intervals(),
{
    let r: Vec<u128> = vec![
        5 * SECOND_NS,
        60 * SECOND_NS,
        5 * 60 * SECOND_NS,
        15 * 60 * SECOND_NS,
        24 * 60 * 60 * SECOND_NS,
    ];
    assert(r@ =~= default_intervals());
    r
}

/// The items of a vector in the opposite order.
fn reverse<T>(v: Vec<T>) -> (r: Vec<T>)
    ensures
        r@ == v@.reverse(),
{
    let ghost all = v@;
    let mut rest: Vec<T> = v;
    let mut r: Vec<T> = Vec::new();
    while rest.len() > 0
        invariant
            rest@.len() + r@.len() == all.len(),
            rest@ == all.take(rest@.len() as int),
            r@ == all.skip(rest@.len() as int).reverse(),
        decreases rest@.len(),
    {
        let item: T = rest.pop().unwrap();
        r.push(item);
        assert(r@ =~= all.skip(rest@.len() as int).reverse());
    }
    assert(all.skip(0) =~= all);
    r
}

/// A mean of hashes over a time interval.
#[derive(Debug)]
pub struct TimeMean<M> {
    /// The interval, in nanoseconds.
    pub interval: u128,
    pub mean: M,
}

/// What is known of the solutions of one kind: their shares, and the means of
/// their hashes over a number of time intervals.
#[derive(Debug)]
pub struct Meter<S, M> {
    /// All shares measured from the beginning of mining.
    pub shares: S,
    /// Approximate arithmetic means of hashes within given time intervals.
    pub time_means: Vec<TimeMean<M>>,
}

impl<S, M> Meter<S, M> {
    /// The meter has no shares, and a mean for each interval, in the same order.
    pub open spec fn is_new<N: Fn() -> S, F: Fn(u128) -> M>(
        self,
        intervals: Seq<u128>,
        no_shares: N,
        new_mean: F,
    ) -> bool {
        &&& call_ensures(no_shares, (), self.shares)
        &&& self.time_means@.len() == intervals.len()
        &&& forall|i: int|
            0 <= i < intervals.len() ==> (#[trigger] self.time_means@[i]).interval == intervals[i]
                && call_ensures(new_mean, (intervals[i],), self.time_means@[i].mean)
    }

    /// `post` is this meter after a solution was accounted: in its shares, and in
    /// each of its means.
    pub open spec fn accounted<A: Fn(S) -> S, I: Fn(M) -> M>(
        self,
        post: Self,
        account: A,
        insert: I,
    ) -> bool {
        &&& call_ensures(account, (self.shares,), post.shares)
        &&& post.time_means@.len() == self.time_means@.len()
        &&& forall|i: int|
            0 <= i < self.time_means@.len() ==> (#[trigger] post.time_means@[i]).interval
                == self.time_means@[i].interval && call_ensures(
                insert,
                (self.time_means@[i].mean,),
                post.time_means@[i].mean,
            )
    }

    /// A meter for the given intervals.
    ///
    /// * `no_shares` - makes the shares of a meter that accounted no solution
    /// * `new_mean` - makes the mean over an interval
    pub fn new<N: Fn() -> S, F: Fn(u128) -> M>(
        intervals: &Vec<u128>,
        no_shares: &N,
        new_mean: &F,
    ) -> (r: Self)
        requires
            call_requires(*no_shares, ()),
            forall|interval: u128| #[trigger] call_requires(*new_mean, (interval,)),
        ensures
            r.is_new(intervals@, *no_shares, *new_mean),
    {
        let shares: S = no_shares();
        let mut time_means: Vec<TimeMean<M>> = Vec::new();
        let n: usize = intervals.len();
        while time_means.len() < n
            invariant
                n == intervals@.len(),
                time_means@.len() <= n,
                forall|interval: u128| #[trigger] call_requires(*new_mean, (interval,)),
                forall|i: int|
                    0 <= i < time_means@.len() ==> (#[trigger] time_means@[i]).interval
                        == intervals@[i] && call_ensures(
                        *new_mean,
                        (intervals@[i],),
                        time_means@[i].mean,
                    ),
            decreases n - time_means@.len(),
        {
            let interval: u128 = intervals[time_means.len()];
            time_means.push(TimeMean { interval, mean: new_mean(interval) });
        }
        Meter { shares, time_means }
    }

    /// A meter for the default intervals.
    pub fn default<N: Fn() -> S, F: Fn(u128) -> M>(no_shares: &N, new_mean: &F) -> (r: Self)
        requires
            call_requires(*no_shares, ()),
            forall|interval: u128| #[trigger] call_requires(*new_mean, (interval,)),
        ensures
            r.is_new(default_intervals(), *no_shares, *new_mean),
    {
        Self::new(&default_time_mean_intervals(), no_shares, new_mean)
    }

    pub fn shares(&self) -> (r: &S)
        ensures
            *r == self.shares,
    {
        &self.shares
    }

    pub fn time_means(&self) -> (r: &Vec<TimeMean<M>>)
        ensures
            *r == self.time_means,
    {
        &self.time_means
    }

    /// Accounts a solution.
    ///
    /// * `account` - adds the solution to the shares
    /// * `insert` - adds the solution's hashes to a mean
    pub fn account_solution<A: Fn(S) -> S, I: Fn(M) -> M>(self, account: &A, insert: &I) -> (r: Self)
        requires
            forall|shares: S| #[trigger] call_requires(*account, (shares,)),
            forall|mean: M| #[trigger] call_requires(*insert, (mean,)),
        ensures
            self.accounted(r, *account, *insert),
            call_ensures(*account, (self.shares,), r.shares),
            r.time_means@.len() == self.time_means@.len(),
            forall|i: int|
                0 <= i < self.time_means@.len() ==> call_ensures(
                    *insert,
                    (self.time_means@[i].mean,),
                    (#[trigger] r.time_means@[i]).mean,
                ),
    {
        let ghost before = self;
        let Meter { shares, time_means } = self;
        let shares: S = account(shares);
        let mut reversed: Vec<TimeMean<M>> = reverse(time_means);
        let ghost n = before.time_means@.len() as int;
        let mut time_means: Vec<TimeMean<M>> = Vec::new();
        while reversed.len() > 0
            invariant
                n == before.time_means@.len(),
                time_means@.len() + reversed@.len() == n,
                forall|mean: M| #[trigger] call_requires(*insert, (mean,)),
                forall|j: int|
                    0 <= j < reversed@.len() ==> #[trigger] reversed@[j] == before.time_means@[n - 1
                        - j],
                forall|i: int|
                    0 <= i < time_means@.len() ==> (#[trigger] time_means@[i]).interval
                        == before.time_means@[i].interval && call_ensures(
                        *insert,
                        (before.time_means@[i].mean,),
                        time_means@[i].mean,
                    ),
            decreases reversed@.len(),
        {
            let TimeMean { interval, mean } = reversed.pop().unwrap();
            time_means.push(TimeMean { interval, mean: insert(mean) });
        }
        Meter { shares, time_means }
    }

    /// The first of the means that is over the given interval.
    pub fn find_time_mean(&self, interval: u128) -> (r: Option<usize>)
        ensures
            match r {
                Some(k) => {
                    &&& k < self.time_means@.len()
                    &&& self.time_means@[k as int].interval == interval
                    &&& forall|i: int|
                        0 <= i < k ==> (#[trigger] self.time_means@[i]).interval != interval
                },
                None => forall|i: int|
                    0 <= i < self.time_means@.len() ==> (#[trigger] self.time_means@[i]).interval
                        != interval,
            },
    {
        let n: usize = self.time_means.len();
        let mut i: usize = 0;
        while i < n
            invariant
                n == self.time_means@.len(),
                i <= n,
                forall|j: int| 0 <= j < i ==> (#[trigger] self.time_means@[j]).interval != interval,
            decreases n - i,
        {
            if self.time_means[i].interval == interval {
                return Some(i);
            }
            i += 1;
        }
        None
    }
}

/// Every solution is accounted over the same intervals: accounting does not change
/// where a mean is found.
pub proof fn law_accounting_keeps_intervals<S, M, A: Fn(S) -> S, I: Fn(M) -> M>(
    pre: Meter<S, M>,
    post: Meter<S, M>,
    account: A,
    insert: I,
)
    requires
        pre.accounted(post, account, insert),
    ensures
        pre.time_means@.map_values(|t: TimeMean<M>| t.interval) == post.time_means@.map_values(
            |t: TimeMean<M>| t.interval,
        ),
{
    assert(pre.time_means@.map_values(|t: TimeMean<M>| t.interval) =~= post.time_means@.map_values(
        |t: TimeMean<M>| t.interval,
    ));
}

/// Statistics of mining: of the solutions that were accepted, of those that were
/// rejected, and of those that were errors of the backend.
#[derive(Debug)]
pub struct Mining<S, M> {
    pub start_time: Instant,
    pub accepted: Meter<S, M>,
    pub rejected: Meter<S, M>,
    pub backend_error: Meter<S, M>,
}

impl<S, M> Mining<S, M> {
    /// Statistics of mining that started at the given time, with means over the
    /// given intervals.
    pub fn new<N: Fn() -> S, F: Fn(u128) -> M>(
        start_time: Instant,
        intervals: &Vec<u128>,
        no_shares: &N,
        new_mean: &F,
    ) -> (r: Self)
        requires
            call_requires(*no_shares, ()),
            forall|interval: u128| #[trigger] call_requires(*new_mean, (interval,)),
        ensures
            r.start_time == start_time,
            r.accepted.is_new(intervals@, *no_shares, *new_mean),
            r.rejected.is_new(intervals@, *no_shares, *new_mean),
            r.backend_error.is_new(intervals@, *no_shares, *new_mean),
    {
        Mining {
            start_time,
            accepted: Meter::new(intervals, no_shares, new_mean),
            rejected: Meter::new(intervals, no_shares, new_mean),
            backend_error: Meter::new(intervals, no_shares, new_mean),
        }
    }

    /// Statistics of mining that starts now, with means over the default
    /// intervals.
    pub fn default<N: Fn() -> S, F: Fn(u128) -> M>(no_shares: &N, new_mean: &F) -> (r: Self)
        requires
            call_requires(*no_shares, ()),
            forall|interval: u128| #[trigger] call_requires(*new_mean, (interval,)),
        ensures
            r.accepted.is_new(default_intervals(), *no_shares, *new_mean),
            r.rejected.is_new(default_intervals(), *no_shares, *new_mean),
            r.backend_error.is_new(default_intervals(), *no_shares, *new_mean),
    {
        Self::new(Instant::now(), &default_time_mean_intervals(), no_shares, new_mean)
    }
}

impl<S, M> Mining<S, M> {
    /// `post` are these statistics after a solution was accepted: it is accounted
    /// among the accepted ones only.
    pub open spec fn accepted_one<A: Fn(S) -> S, I: Fn(M) -> M>(
        self,
        post: Self,
        account: A,
        insert: I,
    ) -> bool {
        &&& self.accepted.accounted(post.accepted, account, insert)
        &&& post.start_time == self.start_time
        &&& post.rejected == self.rejected
        &&& post.backend_error == self.backend_error
    }

    /// Accounts a solution that was accepted.
    pub fn accept<A: Fn(S) -> S, I: Fn(M) -> M>(self, account: &A, insert: &I) -> (r: Self)
        requires
            forall|shares: S| #[trigger] call_requires(*account, (shares,)),
            forall|mean: M| #[trigger] call_requires(*insert, (mean,)),
        ensures
            self.accepted_one(r, *account, *insert),
            r.rejected == self.rejected && r.backend_error == self.backend_error,
    {
        Mining {
            start_time: self.start_time,
            accepted: self.accepted.account_solution(account, insert),
            rejected: self.rejected,
            backend_error: self.backend_error,
        }
    }
}

/// Accounts a solution that was accepted in the statistics of all nodes of a path,
/// once in each.
pub fn account_accepted<S, M, A: Fn(S) -> S, I: Fn(M) -> M>(
    path: Vec<Mining<S, M>>,
    account: &A,
    insert: &I,
) -> (r: Vec<Mining<S, M>>)
    requires
        forall|shares: S| #[trigger] call_requires(*account, (shares,)),
        forall|mean: M| #[trigger] call_requires(*insert, (mean,)),
    ensures
        r@.len() == path@.len(),
        forall|i: int|
            0 <= i < path@.len() ==> path@[i].accepted_one(#[trigger] r@[i], *account, *insert),
{
    let ghost before = path@;
    let ghost n = path@.len() as int;
    let mut reversed: Vec<Mining<S, M>> = reverse(path);
    let mut r: Vec<Mining<S, M>> = Vec::new();
    while reversed.len() > 0
        invariant
            n == before.len(),
            r@.len() + reversed@.len() == n,
            forall|shares: S| #[trigger] call_requires(*account, (shares,)),
            forall|mean: M| #[trigger] call_requires(*insert, (mean,)),
            forall|j: int| 0 <= j < reversed@.len() ==> #[trigger] reversed@[j] == before[n - 1 - j],
            forall|i: int|
                0 <= i < r@.len() ==> before[i].accepted_one(#[trigger] r@[i], *account, *insert),
        decreases reversed@.len(),
    {
        let node: Mining<S, M> = reversed.pop().unwrap();
        r.push(node.accept(account, insert));
    }
    r
}

/// An operation of the task that reports the hash rate.
#[derive(Clone, Copy, Debug, PartialEq, Eq, Structural)]
pub enum MiningStep {
    /// Wait for this many milliseconds.
    Delay(u64),
    /// Find the mean over the interval that is reported.
    FindTimeMean,
    ReportHashRate,
}

/// How the hash rate is reported.
pub open spec fn mining_steps() -> Seq<Step<MiningStep>> {
    seq![
        try_step(MiningStep::Delay(MINING_DELAY_MS)),
        must_step(MiningStep::FindTimeMean, "cannot find given time interval"),
        try_step(MiningStep::ReportHashRate),
    ]
}

/// The task that reports the hash rate, again and again.
pub fn mining_task() -> (r: Script<MiningStep>)
    ensures
        r.fresh(mining_steps(), Some(0)),
        r.wf(),
{
    let mut steps: Vec<Step<MiningStep>> = Vec::new();
    steps.push(Step { action: MiningStep::Delay(MINING_DELAY_MS), failure: Failure::Propagate });
    steps.push(
        Step {
            action: MiningStep::FindTimeMean,
            failure: Failure::Panic("cannot find given time interval"),
        },
    );
    steps.push(Step { action: MiningStep::ReportHashRate, failure: Failure::Propagate });
    assert(steps@ =~= mining_steps());
    Script::repeating(steps, 0)
}

/// Accounting a solution inserts it into every mean: for every `i` the `i`-th mean is
/// the outcome of inserting the solution into the `i`-th mean before, over the same
/// interval. The shares are those before with the solution added.
pub proof fn law_every_mean_gets_the_solution<S, M, A: Fn(S) -> S, I: Fn(M) -> M>(
    pre: Meter<S, M>,
    post: Meter<S, M>,
    account: A,
    insert: I,
    i: int,
)
    requires
        pre.accounted(post, account, insert),
    ensures
        call_ensures(account, (pre.shares,), post.shares),
        post.time_means@.len() == pre.time_means@.len(),
        0 <= i < pre.time_means@.len() ==> post.time_means@[i].interval
            == pre.time_means@[i].interval && call_ensures(
            insert,
            (pre.time_means@[i].mean,),
            post.time_means@[i].mean,
        ),
{
    if 0 <= i < pre.time_means@.len() {
        assert(post.time_means@[i].interval == pre.time_means@[i].interval);
    }
}

/// Where inserting a solution is a function of the mean, and adding it is one of the
/// shares, accounting applies the one to all means and the other to the shares.
pub proof fn law_accounting_applies_to_all<S, M, A: Fn(S) -> S, I: Fn(M) -> M>(
    pre: Meter<S, M>,
    post: Meter<S, M>,
    account: A,
    insert: I,
    added: spec_fn(S) -> S,
    inserted: spec_fn(M) -> M,
)
    requires
        pre.accounted(post, account, insert),
        forall|s: S, r: S| #[trigger] call_ensures(account, (s,), r) ==> r == added(s),
        forall|m: M, r: M| #[trigger] call_ensures(insert, (m,), r) ==> r == inserted(m),
    ensures
        post.shares == added(pre.shares),
        post.time_means@ == pre.time_means@.map_values(
            |t: TimeMean<M>| TimeMean { interval: t.interval, mean: inserted(t.mean) },
        ),
{
    assert(post.time_means@ =~= pre.time_means@.map_values(
        |t: TimeMean<M>| TimeMean { interval: t.interval, mean: inserted(t.mean) },
    )) by {
        assert forall|i: int| 0 <= i < pre.time_means@.len() implies #[trigger] post.time_means@[i]
            == (TimeMean {
            interval: pre.time_means@[i].interval,
            mean: inserted(pre.time_means@[i].mean),
        }) by {
            law_every_mean_gets_the_solution(pre, post, account, insert, i);
        }
    }
}

/// A new meter has a mean for each interval, made for that interval, and shares made
/// without a solution.
pub proof fn law_new_meter<S, M, N: Fn() -> S, F: Fn(u128) -> M>(
    meter: Meter<S, M>,
    intervals: Seq<u128>,
    no_shares: N,
    new_mean: F,
    i: int,
)
    requires
        meter.is_new(intervals, no_shares, new_mean),
    ensures
        call_ensures(no_shares, (), meter.shares),
        meter.time_means@.len() == intervals.len(),
        0 <= i < intervals.len() ==> meter.time_means@[i].interval == intervals[i] && call_ensures(
            new_mean,
            (intervals[i],),
            meter.time_means@[i].mean,
        ),
{
    if 0 <= i < intervals.len() {
        assert(meter.time_means@[i].interval == intervals[i]);
    }
}

/// An accepted solution changes the meter of accepted solutions, in its shares and in
/// every one of its means, and nothing else of the statistics.
pub proof fn law_accepting_changes_one_meter<S, M, A: Fn(S) -> S, I: Fn(M) -> M>(
    pre: Mining<S, M>,
    post: Mining<S, M>,
    account: A,
    insert: I,
    i: int,
)
    requires
        pre.accepted_one(post, account, insert),
    ensures
        post.start_time == pre.start_time,
        post.rejected == pre.rejected,
        post.backend_error == pre.backend_error,
        call_ensures(account, (pre.accepted.shares,), post.accepted.shares),
        post.accepted.time_means@.len() == pre.accepted.time_means@.len(),
        0 <= i < pre.accepted.time_means@.len() ==> post.accepted.time_means@[i].interval
            == pre.accepted.time_means@[i].interval && call_ensures(
            insert,
            (pre.accepted.time_means@[i].mean,),
            post.accepted.time_means@[i].mean,
        ),
{
    law_every_mean_gets_the_solution(pre.accepted, post.accepted, account, insert, i);
}

/// Only a missing interval is fatal to the report of the hash rate. The default
/// intervals are 5 seconds, 1, 5 and 15 minutes and a day, in nanoseconds.
pub proof fn law_report_needs_its_interval()
    ensures
        forall|i: int|
            0 <= i < mining_steps().len() ==> (#[trigger] mining_steps()[i]).failure
                == match mining_steps()[i].action {
                MiningStep::FindTimeMean => Failure::Panic("cannot find given time interval"),
                _ => Failure::Propagate,
            },
        default_intervals() == seq![
            5_000_000_000u128,
            60_000_000_000,
            300_000_000_000,
            900_000_000_000,
            86_400_000_000_000,
        ],
{
    assert(default_intervals() =~= seq![
        5_000_000_000u128,
        60_000_000_000,
        300_000_000_000,
        900_000_000_000,
        86_400_000_000_000,
    ]);
}

} // verus!
