//! Work that is sent to the chips, and the solutions that come back.

use crate::counter::{
    lemma_counted_nothing, lemma_counted_twice, CoreAddress, HashChainCounter, CORE_ADR_SPACE_SIZE,
    NUM_CORES_ON_CHIP,
};
use crate::script::{must_step, step_index, try_step, Failure, Script, Step};
use vstd::prelude::*;

verus! {

/// Raw solution from the Antminer S9.
#[derive(Clone, Copy, Debug, PartialEq, Eq, Structural)]
pub struct Solution {
    /// Actual nonce.
    pub nonce: u32,
    /// Index of a midstate that corresponds to the found nonce.
    pub midstate_idx: usize,
    /// Index of a solution (if multiple were found).
    pub solution_idx: usize,
    /// Hardware specific solution identifier.
    pub hardware_id: u32,
}

impl Solution {
    pub fn nonce(&self) -> (r: u32)
        ensures
            r == self.nonce,
    {
        self.nonce
    }

    pub fn midstate_idx(&self) -> (r: usize)
        ensures
            r == self.midstate_idx,
    {
        self.midstate_idx
    }

    pub fn solution_idx(&self) -> (r: usize)
        ensures
            r == self.solution_idx,
    {
        self.solution_idx
    }
}

/// What the work registry says of a solution.
#[derive(Clone, Copy, Debug, PartialEq, Eq, Structural)]
pub enum WorkLookup {
    /// There is no work under the solution's id.
    Missing,
    /// The work is dummy work, sent to initialize the chips.
    InitialWork,
    /// The solution was added to the work's solutions.
    Inserted(InsertStatus),
}

/// Whether a solution is left alone, given whether there is work under its id and
/// whether that is initial work: the solution of initial work is ignored, and one
/// without work cannot be paired. Only if there is no such reason it is added to
/// the solutions of its work.
pub fn skips_insert(found: bool, initial_work: bool) -> (r: Option<WorkLookup>)
    ensures
        r == if !found {
            Some(WorkLookup::Missing)
        } else if initial_work {
            Some(WorkLookup::InitialWork)
        } else {
            None
        },
        r matches Some(lookup) ==> !lookup.forwards() && forall|meets_target: bool|
            lookup.valid(meets_target) == 0 && #[trigger] lookup.errors(meets_target) == 0,
{
    if !found {
        Some(WorkLookup::Missing)
    } else if initial_work {
        Some(WorkLookup::InitialWork)
    } else {
        None
    }
}

/// What became of a solution that was added to those of its work.
#[derive(Clone, Copy, Debug, PartialEq, Eq, Structural)]
pub struct InsertStatus {
    /// The work has a solution for further processing.
    pub unique: bool,
    /// The work has had this solution before.
    pub duplicate: bool,
    /// The nonce differs from those of the solutions before.
    pub mismatched_nonce: bool,
}

pub open spec fn one_if(b: bool) -> int {
    if b {
        1
    } else {
        0
    }
}

impl WorkLookup {
    /// Whether the solution goes to the frontend.
    pub open spec fn forwards(self) -> bool {
        self matches WorkLookup::Inserted(status) && status.unique && !status.duplicate
    }

    /// How many valid nonces the solution counts for.
    pub open spec fn valid(self, meets_target: bool) -> int {
        one_if(self.forwards() && meets_target)
    }

    /// How many errors the solution counts for.
    pub open spec fn errors(self, meets_target: bool) -> int {
        match self {
            WorkLookup::Inserted(status) => one_if(self.forwards() && !meets_target) + one_if(
                status.duplicate,
            ) + one_if(status.mismatched_nonce),
            _ => 0,
        }
    }

    /// Whether the solution can be counted: the core exists if its chip does, and
    /// the counts stay within the limits of the machine.
    pub open spec fn fits(
        self,
        meets_target: bool,
        addr: CoreAddress,
        counter: HashChainCounter,
    ) -> bool {
        addr.chip < counter.chip@.len() ==> addr.core < CORE_ADR_SPACE_SIZE && counter.valid
            + self.valid(meets_target) <= usize::MAX && counter.errors + self.errors(meets_target)
            <= usize::MAX
    }

    /// Whether the solution can be counted.
    pub fn is_countable(
        &self,
        meets_target: bool,
        addr: CoreAddress,
        counter: &HashChainCounter,
    ) -> (r: bool)
        ensures
            r == self.fits(meets_target, addr, *counter),
    {
        if addr.chip >= counter.chip.len() {
            return true;
        }
        let forwarded = self.is_forwarded();
        let valid: usize = if forwarded && meets_target {
            1
        } else {
            0
        };
        let mut errors: usize = if forwarded && !meets_target {
            1
        } else {
            0
        };
        if let WorkLookup::Inserted(status) = self {
            if status.duplicate {
                errors += 1;
            }
            if status.mismatched_nonce {
                errors += 1;
            }
        }
        addr.core < CORE_ADR_SPACE_SIZE && counter.valid <= usize::MAX - valid && counter.errors
            <= usize::MAX - errors
    }

    /// Whether the solution is passed on to the frontend. Only then its hash is
    /// needed.
    pub fn is_forwarded(&self) -> (r: bool)
        ensures
            r == self.forwards(),
    {
        match self {
            WorkLookup::Inserted(status) => status.unique && !status.duplicate,
            _ => false,
        }
    }

    /// Counts a solution: as valid if it is passed on and its hash meets the ASIC
    /// target, and once as an error if it is passed on and its hash does not, if it
    /// is a duplicate, and if its nonce does not match.
    ///
    /// `meets_target` does not matter if the solution is not passed on.
    ///
    /// Returns whether to pass the solution on to the frontend.
    pub fn account(&self, meets_target: bool, addr: CoreAddress, counter: &mut HashChainCounter) -> (
    forward: bool)
        requires
            old(counter).wf(),
            self.fits(meets_target, addr, *old(counter)),
        ensures
            old(counter).counted(
                *final(counter),
                addr,
                self.valid(meets_target),
                self.errors(meets_target),
            ),
            final(counter).wf(),
            forward == self.forwards(),
    {
        proof {
            lemma_counted_nothing(*counter, addr);
        }
        match self {
            WorkLookup::Inserted(status) => {
                let ghost start = *counter;
                if status.unique && !status.duplicate {
                    if !meets_target {
                        counter.add_error(addr);
                    } else {
                        counter.add_valid(addr);
                    }
                }
                let ghost v = one_if(self.forwards() && meets_target);
                let ghost mut e = one_if(self.forwards() && !meets_target);
                let ghost mid = *counter;
                if status.duplicate {
                    counter.add_error(addr);
                    proof {
                        lemma_counted_twice(start, mid, *counter, addr, v, e, 0, 1);
                        e = e + 1;
                    }
                }
                let ghost mid = *counter;
                if status.mismatched_nonce {
                    counter.add_error(addr);
                    proof {
                        lemma_counted_twice(start, mid, *counter, addr, v, e, 0, 1);
                    }
                }
            },
            _ => {},
        }
        self.is_forwarded()
    }
}

/// Every solution that is passed on counts exactly once as valid or as below
/// target. A duplicate is dropped and counts as an error. Solutions of initial
/// work and those without work change no counter.
pub proof fn law_solutions_are_counted(lookup: WorkLookup, meets_target: bool)
    ensures
        lookup.forwards() ==> lookup.valid(meets_target) == one_if(meets_target)
            && lookup.errors(meets_target) >= one_if(!meets_target),
        lookup matches WorkLookup::Inserted(status) && status.duplicate ==> !lookup.forwards()
            && lookup.valid(meets_target) == 0 && lookup.errors(meets_target) >= 1,
        !(lookup is Inserted) ==> !lookup.forwards() && lookup.valid(meets_target) == 0
            && lookup.errors(meets_target) == 0,
{
}

/// An operation of the task that initializes the cores.
#[derive(Clone, Copy, Debug, PartialEq, Eq, Structural)]
pub enum InitWorkStep {
    LockTxFifo,
    PrepareOpenCore,
    /// Store the work in the registry as initial work, so that its solutions can
    /// be ignored.
    StoreInitialWork,
    WaitForRoom,
    SendWork,
}

/// How one core is initialized.
pub open spec fn init_one_core() -> Seq<Step<InitWorkStep>> {
    seq![
        try_step(InitWorkStep::PrepareOpenCore),
        try_step(InitWorkStep::StoreInitialWork),
        must_step(InitWorkStep::WaitForRoom, "wait for tx room"),
        must_step(InitWorkStep::SendWork, "send work"),
    ]
}

/// How `cores` cores are initialized: each core gets one work.
pub open spec fn init_work_steps(cores: nat) -> Seq<Step<InitWorkStep>>
    decreases cores,
{
    if cores == 0 {
        seq![must_step(InitWorkStep::LockTxFifo, "tx fifo missing")]
    } else {
        init_work_steps((cores - 1) as nat) + init_one_core()
    }
}

/// The task that initializes the cores by sending open-core work to each core.
pub fn send_init_work() -> (r: Script<InitWorkStep>)
    ensures
        r.fresh(init_work_steps(NUM_CORES_ON_CHIP as nat), None),
        r.wf(),
{
    let mut steps: Vec<Step<InitWorkStep>> = Vec::new();
    steps.push(
        Step { action: InitWorkStep::LockTxFifo, failure: Failure::Panic("tx fifo missing") },
    );
    let mut i: usize = 0;
    assert(steps@ =~= init_work_steps(0));
    while i < NUM_CORES_ON_CHIP
        invariant
            i <= NUM_CORES_ON_CHIP,
            steps@ == init_work_steps(i as nat),
        decreases NUM_CORES_ON_CHIP - i,
    {
        steps.push(Step { action: InitWorkStep::PrepareOpenCore, failure: Failure::Propagate });
        steps.push(Step { action: InitWorkStep::StoreInitialWork, failure: Failure::Propagate });
        steps.push(
            Step { action: InitWorkStep::WaitForRoom, failure: Failure::Panic("wait for tx room") },
        );
        steps.push(Step { action: InitWorkStep::SendWork, failure: Failure::Panic("send work") });
        i += 1;
        assert(steps@ =~= init_work_steps((i - 1) as nat) + init_one_core());
    }
    Script::once(steps)
}

/// An operation of the task that sends work to the chips.
#[derive(Clone, Copy, Debug, PartialEq, Eq, Structural)]
pub enum WorkTxStep {
    TakeTxFifo,
    /// Wait until there is room in the transmit queue.
    WaitForRoom,
    /// Get work from the generator. The generator may have none left.
    GenerateWork,
    /// Assign an id to the work, to pair it with its solutions later.
    StoreWork,
    SendWork,
}

/// How work is sent: it is requested only when there is room for it, and stored in
/// the registry before it is sent.
pub open spec fn work_tx_steps() -> Seq<Step<WorkTxStep>> {
    seq![
        must_step(WorkTxStep::TakeTxFifo, "work-tx io missing"),
        must_step(WorkTxStep::WaitForRoom, "wait for tx room"),
        try_step(WorkTxStep::GenerateWork),
        try_step(WorkTxStep::StoreWork),
        must_step(WorkTxStep::SendWork, "send work"),
    ]
}

/// The task that picks up work from the frontend, saves it to the registry and
/// sends it out to the chips. It ends when the generator is exhausted.
pub fn work_tx_task() -> (r: Script<WorkTxStep>)
    ensures
        r.fresh(work_tx_steps(), Some(1)),
        r.wf(),
{
    let mut steps: Vec<Step<WorkTxStep>> = Vec::new();
    steps.push(
        Step { action: WorkTxStep::TakeTxFifo, failure: Failure::Panic("work-tx io missing") },
    );
    steps.push(
        Step { action: WorkTxStep::WaitForRoom, failure: Failure::Panic("wait for tx room") },
    );
    steps.push(Step { action: WorkTxStep::GenerateWork, failure: Failure::Propagate });
    steps.push(Step { action: WorkTxStep::StoreWork, failure: Failure::Propagate });
    steps.push(Step { action: WorkTxStep::SendWork, failure: Failure::Panic("send work") });
    assert(steps@ =~= work_tx_steps());
    Script::repeating(steps, 1)
}

/// An operation of the task that receives solutions.
#[derive(Clone, Copy, Debug, PartialEq, Eq, Structural)]
pub enum SolutionRxStep {
    TakeRxFifo,
    ReceiveSolution,
    /// Look the solution's work up, count the solution and pass it on.
    AccountSolution,
}

/// How solutions are received.
pub open spec fn solution_rx_steps() -> Seq<Step<SolutionRxStep>> {
    seq![
        must_step(SolutionRxStep::TakeRxFifo, "work-rx io missing"),
        must_step(SolutionRxStep::ReceiveSolution, "recv solution failed"),
        try_step(SolutionRxStep::AccountSolution),
    ]
}

/// The task that receives solutions from the chips and sends them back to the
/// frontend. It never ends by itself.
pub fn solution_rx_task() -> (r: Script<SolutionRxStep>)
    ensures
        r.fresh(solution_rx_steps(), Some(1)),
        r.wf(),
{
    let mut steps: Vec<Step<SolutionRxStep>> = Vec::new();
    steps.push(
        Step { action: SolutionRxStep::TakeRxFifo, failure: Failure::Panic("work-rx io missing") },
    );
    steps.push(
        Step {
            action: SolutionRxStep::ReceiveSolution,
            failure: Failure::Panic("recv solution failed"),
        },
    );
    steps.push(Step { action: SolutionRxStep::AccountSolution, failure: Failure::Propagate });
    assert(steps@ =~= solution_rx_steps());
    Script::repeating(steps, 1)
}

/// Each core gets one work, which is stored as initial work before it is sent,
/// once there is room for it.
pub proof fn law_each_core_gets_work(cores: nat)
    ensures
        init_work_steps(cores).len() == 1 + 4 * cores,
        forall|k: int, i: int|
            0 <= k < cores && 0 <= i < 4 ==> #[trigger] init_work_steps(cores)[1 + 4 * k + i]
                == init_one_core()[i],
    decreases cores,
{
    if cores > 0 {
        let before = (cores - 1) as nat;
        law_each_core_gets_work(before);
        assert forall|k: int, i: int| 0 <= k < cores && 0 <= i < 4 implies #[trigger] init_work_steps(
            cores,
        )[1 + 4 * k + i] == init_one_core()[i] by {
            if k < before {
                assert(init_work_steps(before)[1 + 4 * k + i] == init_one_core()[i]);
            }
        }
    }
}

/// The operation that the task performs as its `n`-th one.
pub open spec fn work_tx_action(n: int) -> WorkTxStep {
    work_tx_steps()[step_index(work_tx_steps().len() as int, Some(1), n)].action
}

/// However long the task runs, work is requested only after there was room for
/// it, and it is stored before it is sent.
pub proof fn law_work_tx_order(n: int)
    requires
        0 <= n,
    ensures
        work_tx_action(n) is GenerateWork ==> n > 0 && work_tx_action(n - 1) is WaitForRoom,
        work_tx_action(n) is StoreWork ==> n > 0 && work_tx_action(n - 1) is GenerateWork,
        work_tx_action(n) is SendWork ==> n > 0 && work_tx_action(n - 1) is StoreWork,
        work_tx_action(n) is TakeTxFifo <==> n == 0,
{
    if n >= 2 {
        assert((n - 1) % 4 == ((n - 2) % 4 + 1) % 4);
    }
}

/// What a solution counts for and whether it is passed on, by what became of it and by
/// whether its hash meets the target. It is passed on exactly if it is a new one. Only
/// then it counts as valid or as below target, one of the two. It counts as one error
/// for being a duplicate and as another for a nonce that does not match.
pub proof fn law_what_a_solution_counts_for(
    unique: bool,
    duplicate: bool,
    mismatched_nonce: bool,
    meets_target: bool,
)
    ensures
        ({
            let lookup = WorkLookup::Inserted(InsertStatus { unique, duplicate, mismatched_nonce });
            let below_target = unique && !duplicate && !meets_target;
            &&& lookup.forwards() <==> unique && !duplicate
            &&& lookup.valid(meets_target) == if unique && !duplicate && meets_target {
                1int
            } else {
                0
            }
            &&& lookup.errors(meets_target) == (if below_target {
                1int
            } else {
                0
            }) + (if duplicate {
                1int
            } else {
                0
            }) + (if mismatched_nonce {
                1int
            } else {
                0
            })
        }),
        !WorkLookup::Missing.forwards() && !WorkLookup::InitialWork.forwards(),
        WorkLookup::Missing.valid(meets_target) == 0 && WorkLookup::Missing.errors(meets_target)
            == 0,
        WorkLookup::InitialWork.valid(meets_target) == 0 && WorkLookup::InitialWork.errors(
            meets_target,
        ) == 0,
{
}

/// Every solution can be counted while the counts are below the limits of the machine
/// by what a solution can add, and a solution of a chip that is not on the chain always.
pub proof fn law_solutions_can_be_counted(
    lookup: WorkLookup,
    meets_target: bool,
    addr: CoreAddress,
    counter: HashChainCounter,
)
    ensures
        addr.chip >= counter.chip@.len() ==> lookup.fits(meets_target, addr, counter),
        addr.core < 128 && counter.valid < usize::MAX && counter.errors < usize::MAX - 1
            ==> lookup.fits(meets_target, addr, counter),
        addr.chip < counter.chip@.len() ==> (lookup.fits(meets_target, addr, counter)
            <==> addr.core < 128 && counter.valid + lookup.valid(meets_target) <= usize::MAX
            && counter.errors + lookup.errors(meets_target) <= usize::MAX),
{
}

/// The work for core `k` is prepared, then stored as initial work, then it waits for
/// room, and then it is sent; to fail to wait or to send is fatal. The queue is locked
/// once, before all of it.
pub proof fn law_work_for_each_core(cores: nat, k: int)
    requires
        0 <= k < cores,
    ensures
        init_work_steps(cores).len() == 1 + 4 * cores,
        init_work_steps(cores)[0] == (Step {
            action: InitWorkStep::LockTxFifo,
            failure: Failure::Panic("tx fifo missing"),
        }),
        init_work_steps(cores)[1 + 4 * k].action == InitWorkStep::PrepareOpenCore,
        init_work_steps(cores)[2 + 4 * k].action == InitWorkStep::StoreInitialWork,
        init_work_steps(cores)[3 + 4 * k] == (Step {
            action: InitWorkStep::WaitForRoom,
            failure: Failure::Panic("wait for tx room"),
        }),
        init_work_steps(cores)[4 + 4 * k] == (Step {
            action: InitWorkStep::SendWork,
            failure: Failure::Panic("send work"),
        }),
    decreases cores,
{
    law_each_core_gets_work(cores);
    lemma_queue_is_locked_first(cores);
    let s = init_work_steps(cores);
    assert(s[1 + 4 * k + 0] == init_one_core()[0]);
    assert(s[1 + 4 * k + 1] == init_one_core()[1]);
    assert(s[1 + 4 * k + 2] == init_one_core()[2]);
    assert(s[1 + 4 * k + 3] == init_one_core()[3]);
}

/// The first step is to lock the queue.
proof fn lemma_queue_is_locked_first(cores: nat)
    ensures
        init_work_steps(cores).len() > 0,
        init_work_steps(cores)[0] == must_step(InitWorkStep::LockTxFifo, "tx fifo missing"),
    decreases cores,
{
    if cores > 0 {
        lemma_queue_is_locked_first((cores - 1) as nat);
    }
}

/// To send work and to receive solutions, the queues must be there and must work:
/// anything else is fatal.
pub proof fn law_failures_of_work(i: int)
    ensures
        0 <= i < work_tx_steps().len() ==> work_tx_steps()[i].failure == match work_tx_steps()[i].action {
            WorkTxStep::TakeTxFifo => Failure::Panic("work-tx io missing"),
            WorkTxStep::WaitForRoom => Failure::Panic("wait for tx room"),
            WorkTxStep::SendWork => Failure::Panic("send work"),
            _ => Failure::Propagate,
        },
        0 <= i < solution_rx_steps().len() ==> solution_rx_steps()[i].failure == match solution_rx_steps()[i].action {
            SolutionRxStep::TakeRxFifo => Failure::Panic("work-rx io missing"),
            SolutionRxStep::ReceiveSolution => Failure::Panic("recv solution failed"),
            SolutionRxStep::AccountSolution => Failure::Propagate,
        },
        work_tx_steps().len() == 5 && solution_rx_steps().len() == 3,
{
}

} // verus!
