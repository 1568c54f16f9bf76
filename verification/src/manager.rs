//! Starting, stopping and configuring hash chains.

use crate::halt::{stop_steps, StopStep, HALT_DELAY_MS};
use crate::midstate::{is_midstate_count, MidstateCount};
use crate::pll::MAX_CHIPS_ON_CHAIN;
use crate::power::Voltage;
use crate::script::{must_step, try_step, Failure, Reply, Script, Step};
use crate::text::{decimal, push_decimal};
use vstd::prelude::*;

verus! {

/// Mining parameters that can change at run time.
#[derive(Debug)]
pub struct HashChainParams {
    pub pll_frequency: Vec<usize>,
    pub voltage: Voltage,
}

impl HashChainParams {
    pub open spec fn same_as(self, other: Self) -> bool {
        self.pll_frequency@ == other.pll_frequency@ && self.voltage == other.voltage
    }
}

impl Clone for HashChainParams {
    fn clone(&self) -> (r: Self)
        ensures
            r.same_as(*self),
    {
        HashChainParams { pll_frequency: self.pll_frequency.clone(), voltage: self.voltage }
    }
}

/// An operation of starting a hash chain.
#[derive(Clone, Copy, Debug)]
pub enum StartStep<'a> {
    MakeHashChain { hashboard_idx: usize, midstate_count: MidstateCount, asic_difficulty: usize },
    /// Make a way to signal halt to the tasks of the chain.
    MakeHaltPair,
    /// Make a counter to track the performance of this many chips. How many there
    /// are is not known yet, so there is a place for each that can be addressed.
    MakeCounter { chip_count: usize },
    /// Initialize the chain with these frequencies and this voltage. Halt is required
    /// to stop the heart beats of its voltage controller.
    InitHashChain(&'a HashChainParams),
    /// Spawn the tasks of the chain.
    StartTasks,
}

/// An operation of changing the parameters of a running hash chain.
#[derive(Clone, Copy, Debug)]
pub enum ParamStep<'a> {
    SetVoltage(Voltage),
    SetPllTable(&'a Vec<usize>),
}

/// How the parameters of a hash chain are changed: there is nothing to do for one
/// that does not run.
pub open spec fn param_steps<'a>(running: bool, params: &'a HashChainParams) -> Seq<
    Step<ParamStep<'a>>,
> {
    if running {
        seq![
            try_step(ParamStep::SetVoltage(params.voltage)),
            try_step(ParamStep::SetPllTable(&params.pll_frequency)),
        ]
    } else {
        seq![]
    }
}

/// An operation of stopping a hash chain.
#[derive(Clone, Copy, Debug, PartialEq, Eq, Structural)]
pub enum ChainStopStep {
    /// Stop the tasks of the chain.
    Halt(StopStep),
    /// Drop the chain that is kept around.
    DropChain,
}

/// How a hash chain is stopped: first everything that runs, then the chain is
/// dropped.
pub open spec fn chain_stop_steps() -> Seq<Step<ChainStopStep>> {
    stop_steps().map_values(
        |s: Step<StopStep>| Step { action: ChainStopStep::Halt(s.action), failure: s.failure },
    ).push(try_step(ChainStopStep::DropChain))
}

/// Hash chain manager that can start and stop instances of a hash chain.
#[derive(Debug)]
pub struct HashChainManager<R> {
    pub hashboard_idx: usize,
    pub midstate_count: MidstateCount,
    pub asic_difficulty: usize,
    /// The running chain, if it runs.
    pub runtime: Option<R>,
    pub params: HashChainParams,
}

impl<R> HashChainManager<R> {
    pub open spec fn running(self) -> bool {
        self.runtime is Some
    }

    /// How the hash chain is started.
    pub open spec fn start_steps<'a>(&'a self) -> Seq<Step<StartStep<'a>>> {
        seq![
            must_step(
                StartStep::MakeHashChain {
                    hashboard_idx: self.hashboard_idx,
                    midstate_count: self.midstate_count,
                    asic_difficulty: self.asic_difficulty,
                },
                "hashchain instantiation failed",
            ),
            try_step(StartStep::MakeHaltPair),
            try_step(StartStep::MakeCounter { chip_count: MAX_CHIPS_ON_CHAIN }),
            must_step(StartStep::InitHashChain(&self.params), "hashchain initialization failed"),
            try_step(StartStep::StartTasks),
        ]
    }

    /// The same manager, but for what runs and its parameters.
    pub open spec fn same_board(self, other: Self) -> bool {
        &&& self.hashboard_idx == other.hashboard_idx
        &&& self.midstate_count == other.midstate_count
        &&& self.asic_difficulty == other.asic_difficulty
    }

    /// A manager of a chain that does not run yet, with one frequency for all
    /// chips.
    pub fn new(
        hashboard_idx: usize,
        midstate_count: MidstateCount,
        asic_difficulty: usize,
        pll_frequency: usize,
        voltage: Voltage,
    ) -> (r: Self)
        ensures
            r.hashboard_idx == hashboard_idx,
            r.midstate_count == midstate_count,
            r.asic_difficulty == asic_difficulty,
            !r.running(),
            r.params.voltage == voltage,
            r.params.pll_frequency@ == Seq::new(MAX_CHIPS_ON_CHAIN as nat, |i: int| pll_frequency),
    {
        let table: Vec<usize> = vec![pll_frequency; MAX_CHIPS_ON_CHAIN];
        assert(table@ =~= Seq::new(MAX_CHIPS_ON_CHAIN as nat, |i: int| pll_frequency));
        HashChainManager {
            hashboard_idx,
            midstate_count,
            asic_difficulty,
            runtime: None,
            params: HashChainParams { pll_frequency: table, voltage },
        }
    }

    /// The task of initializing a chain and starting to mine on it.
    pub fn start<'a>(&'a self) -> (r: Script<StartStep<'a>>)
        requires
            !self.running(),
        ensures
            r.fresh(self.start_steps(), None),
            r.wf(),
    {
        let mut steps: Vec<Step<StartStep<'a>>> = Vec::new();
        steps.push(
            Step {
                action: StartStep::MakeHashChain {
                    hashboard_idx: self.hashboard_idx,
                    midstate_count: self.midstate_count,
                    asic_difficulty: self.asic_difficulty,
                },
                failure: Failure::Panic("hashchain instantiation failed"),
            },
        );
        steps.push(Step { action: StartStep::MakeHaltPair, failure: Failure::Propagate });
        steps.push(
            Step {
                action: StartStep::MakeCounter { chip_count: MAX_CHIPS_ON_CHAIN },
                failure: Failure::Propagate,
            },
        );
        steps.push(
            Step {
                action: StartStep::InitHashChain(&self.params),
                failure: Failure::Panic("hashchain initialization failed"),
            },
        );
        steps.push(Step { action: StartStep::StartTasks, failure: Failure::Propagate });
        assert(steps@ =~= self.start_steps());
        Script::once(steps)
    }

    /// Remembers the chain that was started.
    pub fn started(&mut self, runtime: R)
        requires
            !old(self).running(),
        ensures
            final(self).runtime == Some(runtime),
            final(self).same_board(*old(self)),
            final(self).params == old(self).params,
    {
        self.runtime = Some(runtime);
    }

    /// The task of stopping the running chain.
    pub fn stop(&self) -> (r: Script<ChainStopStep>)
        requires
            self.running(),
        ensures
            r.fresh(chain_stop_steps(), None),
            r.wf(),
    {
        let mut steps: Vec<Step<ChainStopStep>> = Vec::new();
        steps.push(
            Step {
                action: ChainStopStep::Halt(StopStep::Broadcast),
                failure: Failure::Panic("restart broadcasting failed"),
            },
        );
        steps.push(
            Step {
                action: ChainStopStep::Halt(StopStep::Delay(HALT_DELAY_MS)),
                failure: Failure::Propagate,
            },
        );
        steps.push(Step { action: ChainStopStep::DropChain, failure: Failure::Propagate });
        assert(steps@ =~= chain_stop_steps());
        Script::once(steps)
    }

    /// Gives up the running chain, once its tasks have been stopped: the last step of
    /// stopping it.
    pub fn drop_chain(&mut self, script: &mut Script<ChainStopStep>) -> (r: R)
        requires
            old(self).running(),
            old(script).wf(),
            old(script).steps@ == chain_stop_steps(),
            old(script).repeat_from is None,
            old(script).at(ChainStopStep::DropChain),
        ensures
            old(self).runtime == Some(r),
            !final(self).running(),
            final(self).same_board(*old(self)),
            final(self).params == old(self).params,
            final(script).same_task(*old(script)),
            final(script).over(),
    {
        script.report(Reply::Done);
        self.runtime.take().unwrap()
    }

    /// Whether the chain is running.
    pub fn chain_is_running(&self) -> (r: bool)
        ensures
            r == self.running(),
    {
        self.runtime.is_some()
    }

    /// Sets the parameters of the chain. They are remembered even if it turns out
    /// that the running chain does not take them.
    ///
    /// Returns what has to be done to the running chain, if it runs.
    pub fn set_params<'a>(&mut self, params: &'a HashChainParams) -> (r: Script<ParamStep<'a>>)
        ensures
            final(self).params.same_as(*params),
            final(self).params.pll_frequency@ == params.pll_frequency@,
            final(self).params.voltage == params.voltage,
            final(self).same_board(*old(self)),
            final(self).runtime == old(self).runtime,
            r.fresh(param_steps(old(self).running(), params), None),
            r.wf(),
    {
        self.params = params.clone();
        let mut steps: Vec<Step<ParamStep<'a>>> = Vec::new();
        if self.runtime.is_some() {
            steps.push(
                Step { action: ParamStep::SetVoltage(params.voltage), failure: Failure::Propagate },
            );
            steps.push(
                Step {
                    action: ParamStep::SetPllTable(&params.pll_frequency),
                    failure: Failure::Propagate,
                },
            );
        }
        assert(steps@ =~= param_steps(old(self).running(), params));
        Script::once(steps)
    }
}

/// How the statistics call a board.
pub fn node_name(hashboard_idx: usize) -> (r: String)
    ensures
        r@ == "Antminer S9 - Hashboard "@ + decimal(hashboard_idx as nat),
{
    let mut name = "Antminer S9 - Hashboard ".to_owned();
    push_decimal(&mut name, hashboard_idx);
    name
}

/// Whether these are the managers of a miner: one for each enabled chain, in the
/// same order, none of which runs yet.
pub open spec fn are_managers<R>(
    hms: Seq<HashChainManager<R>>,
    enabled_chains: Seq<usize>,
    midstate_count: usize,
    asic_difficulty: usize,
    pll_frequency: usize,
    voltage: Voltage,
) -> bool {
    &&& hms.len() == enabled_chains.len()
    &&& forall|i: int|
        0 <= i < hms.len() ==> {
            let hm = #[trigger] hms[i];
            &&& hm.hashboard_idx == enabled_chains[i]
            &&& hm.midstate_count.count() == midstate_count
            &&& hm.asic_difficulty == asic_difficulty
            &&& !hm.running()
            &&& hm.params.voltage == voltage
            &&& hm.params.pll_frequency@ == Seq::new(
                MAX_CHIPS_ON_CHAIN as nat,
                |j: int| pll_frequency,
            )
        }
}

/// The managers of a miner, one for each enabled chain, in the same order.
pub fn make_managers<R>(
    enabled_chains: &Vec<usize>,
    midstate_count: usize,
    asic_difficulty: usize,
    pll_frequency: usize,
    voltage: Voltage,
) -> (r: Vec<HashChainManager<R>>)
    requires
        enabled_chains@.len() > 0 ==> is_midstate_count(midstate_count as int),
    ensures
        are_managers(
            r@,
            enabled_chains@,
            midstate_count,
            asic_difficulty,
            pll_frequency,
            voltage,
        ),
{
    let mut hms: Vec<HashChainManager<R>> = Vec::new();
    let n: usize = enabled_chains.len();
    while hms.len() < n
        invariant
            n == enabled_chains@.len(),
            n > 0 ==> is_midstate_count(midstate_count as int),
            hms@.len() <= n,
            are_managers(
                hms@,
                enabled_chains@.take(hms@.len() as int),
                midstate_count,
                asic_difficulty,
                pll_frequency,
                voltage,
            ),
        decreases n - hms@.len(),
    {
        let ghost before = hms@;
        let hm: HashChainManager<R> = HashChainManager::new(
            enabled_chains[hms.len()],
            MidstateCount::new(midstate_count),
            asic_difficulty,
            pll_frequency,
            voltage,
        );
        hms.push(hm);
        assert forall|i: int| 0 <= i < before.len() implies #[trigger] hms@[i] == before[i] by {}
    }
    assert(enabled_chains@.take(n as int) =~= enabled_chains@);
    hms
}

/// The start of one of the managers of a miner.
#[derive(Clone, Copy, Debug, PartialEq, Eq, Structural)]
pub struct MinerStep {
    /// Which of the managers it is.
    pub manager: usize,
    /// The board of this manager.
    pub hashboard_idx: usize,
}

/// How the managers of a miner are started: each of them once, in order.
pub open spec fn miner_steps<R>(hms: Seq<HashChainManager<R>>) -> Seq<Step<MinerStep>> {
    Seq::new(
        hms.len(),
        |i: int|
            must_step(
                MinerStep { manager: i as usize, hashboard_idx: hms[i].hashboard_idx },
                "failed to start hashchain",
            ),
    )
}

/// The task of starting all managers of a miner.
pub fn start_managers<R>(hms: &Vec<HashChainManager<R>>) -> (r: Script<MinerStep>)
    requires
        forall|i: int| 0 <= i < hms@.len() ==> !(#[trigger] hms@[i]).running(),
    ensures
        r.fresh(miner_steps(hms@), None),
        r.wf(),
{
    let mut steps: Vec<Step<MinerStep>> = Vec::new();
    let n: usize = hms.len();
    assert(steps@ =~= miner_steps(hms@.take(0)));
    while steps.len() < n
        invariant
            n == hms@.len(),
            steps@.len() <= n,
            steps@ == miner_steps(hms@.take(steps@.len() as int)),
        decreases n - steps@.len(),
    {
        let manager: usize = steps.len();
        steps.push(
            Step {
                action: MinerStep { manager, hashboard_idx: hms[manager].hashboard_idx },
                failure: Failure::Panic("failed to start hashchain"),
            },
        );
        assert(steps@ =~= miner_steps(hms@.take(steps@.len() as int)));
    }
    assert(hms@.take(n as int) =~= hms@);
    Script::once(steps)
}

/// Makes the managers of a miner, one for each enabled chain, and the task of
/// starting all of them.
pub fn start_miner<R>(
    enabled_chains: &Vec<usize>,
    midstate_count: usize,
    asic_difficulty: usize,
    pll_frequency: usize,
    voltage: Voltage,
) -> (r: (Vec<HashChainManager<R>>, Script<MinerStep>))
    requires
        enabled_chains@.len() > 0 ==> is_midstate_count(midstate_count as int),
    ensures
        are_managers(
            r.0@,
            enabled_chains@,
            midstate_count,
            asic_difficulty,
            pll_frequency,
            voltage,
        ),
        r.1.fresh(miner_steps(r.0@), None),
        r.1.wf(),
{
    let hms = make_managers(
        enabled_chains,
        midstate_count,
        asic_difficulty,
        pll_frequency,
        voltage,
    );
    let script = start_managers(&hms);
    (hms, script)
}

/// Each enabled chain is started exactly once, in the given order.
pub proof fn law_each_chain_is_started<R>(
    hms: Seq<HashChainManager<R>>,
    enabled_chains: Seq<usize>,
    midstate_count: usize,
    asic_difficulty: usize,
    pll_frequency: usize,
    voltage: Voltage,
)
    requires
        hms.len() <= usize::MAX,
        are_managers(
            hms,
            enabled_chains,
            midstate_count,
            asic_difficulty,
            pll_frequency,
            voltage,
        ),
    ensures
        miner_steps(hms).len() == enabled_chains.len(),
        forall|i: int|
            0 <= i < enabled_chains.len() ==> (#[trigger] miner_steps(hms)[i]).action == (MinerStep {
                manager: i as usize,
                hashboard_idx: enabled_chains[i],
            }) && miner_steps(hms)[i].failure == Failure::Panic("failed to start hashchain"),
{
    assert forall|i: int| 0 <= i < enabled_chains.len() implies (#[trigger] miner_steps(
        hms,
    )[i]).action == (MinerStep { manager: i as usize, hashboard_idx: enabled_chains[i] }) by {
        assert(hms[i].hashboard_idx == enabled_chains[i]);
    }
}

/// A chain is dropped last, when its tasks have been told to halt and were given the
/// time to.
pub proof fn law_chain_is_dropped_last(script: Script<ChainStopStep>)
    requires
        script.steps@ == chain_stop_steps(),
        script.at(ChainStopStep::DropChain),
    ensures
        script.passed(ChainStopStep::Halt(StopStep::Broadcast)),
        script.passed(ChainStopStep::Halt(StopStep::Delay(HALT_DELAY_MS))),
        script.pos + 1 == script.steps@.len(),
{
    assert(script.steps@[0].action == ChainStopStep::Halt(StopStep::Broadcast));
    assert(script.steps@[1].action == ChainStopStep::Halt(StopStep::Delay(HALT_DELAY_MS)));
}

/// Stopping a chain that was started leaves its manager as it was before.
pub proof fn law_stop_undoes_start<R>(
    pre: HashChainManager<R>,
    running: HashChainManager<R>,
    post: HashChainManager<R>,
)
    requires
        !pre.running(),
        running.running(),
        running.same_board(pre),
        running.params == pre.params,
        !post.running(),
        post.same_board(running),
        post.params == running.params,
    ensures
        post == pre,
{
}

/// The frequency table that a manager starts with holds a frequency for each chip
/// of a chain whose chips were found.
pub proof fn law_table_covers_chips(params: HashChainParams, pll_frequency: usize, chip_count: int)
    requires
        params.pll_frequency@ == Seq::new(MAX_CHIPS_ON_CHAIN as nat, |i: int| pll_frequency),
        0 < chip_count <= MAX_CHIPS_ON_CHAIN,
    ensures
        chip_count <= params.pll_frequency@.len(),
        forall|i: int| 0 <= i < chip_count ==> #[trigger] params.pll_frequency@[i] == pll_frequency,
{
}

/// A chain is made for the manager's board, with its midstate count and difficulty, and
/// initialized with its frequencies and voltage. Both are fatal if they fail. The counter
/// is made before and has a place for 64 chips.
pub proof fn law_start_uses_the_managers_values<R>(hm: &HashChainManager<R>)
    ensures
        hm.start_steps().len() == 5,
        hm.start_steps()[0].action == (StartStep::MakeHashChain {
            hashboard_idx: hm.hashboard_idx,
            midstate_count: hm.midstate_count,
            asic_difficulty: hm.asic_difficulty,
        }),
        hm.start_steps()[0].failure == Failure::Panic("hashchain instantiation failed"),
        hm.start_steps()[1].action is MakeHaltPair,
        hm.start_steps()[2].action == (StartStep::MakeCounter { chip_count: 64 }),
        hm.start_steps()[3].action matches StartStep::InitHashChain(params)
            && params.pll_frequency@ == hm.params.pll_frequency@ && params.voltage
            == hm.params.voltage,
        hm.start_steps()[3].failure == Failure::Panic("hashchain initialization failed"),
        hm.start_steps()[4].action is StartTasks,
        hm.start_steps()[1].failure == Failure::Propagate && hm.start_steps()[2].failure
            == Failure::Propagate && hm.start_steps()[4].failure == Failure::Propagate,
{
}

/// A running chain gets exactly the voltage and the frequencies of the parameters, the
/// voltage first; one that does not run gets nothing.
pub proof fn law_running_chain_gets_the_parameters(params: &HashChainParams)
    ensures
        param_steps(false, params).len() == 0,
        param_steps(true, params).len() == 2,
        param_steps(true, params)[0].action matches ParamStep::SetVoltage(voltage) && voltage
            == params.voltage,
        param_steps(true, params)[1].action matches ParamStep::SetPllTable(table) && table@
            == params.pll_frequency@,
        param_steps(true, params)[0].failure == Failure::Propagate && param_steps(
            true,
            params,
        )[1].failure == Failure::Propagate,
{
}

/// Parameters are the same exactly if they hold the same frequencies and voltage. A
/// manager's chain runs exactly if there is one.
pub proof fn law_same_parameters<R>(a: HashChainParams, b: HashChainParams, hm: HashChainManager<R>)
    ensures
        a.same_as(b) <==> a.pll_frequency@ == b.pll_frequency@ && a.voltage == b.voltage,
        hm.running() <==> hm.runtime is Some,
{
}

/// The manager of the `i`-th enabled chain is that of its board, does not run yet, and
/// has the given settings, with the same frequency for each of 64 chips.
pub proof fn law_manager_of_each_chain<R>(
    hms: Seq<HashChainManager<R>>,
    enabled_chains: Seq<usize>,
    midstate_count: usize,
    asic_difficulty: usize,
    pll_frequency: usize,
    voltage: Voltage,
    i: int,
    chip: int,
)
    requires
        are_managers(
            hms,
            enabled_chains,
            midstate_count,
            asic_difficulty,
            pll_frequency,
            voltage,
        ),
    ensures
        hms.len() == enabled_chains.len(),
        0 <= i < enabled_chains.len() ==> {
            &&& hms[i].hashboard_idx == enabled_chains[i]
            &&& hms[i].midstate_count.count() == midstate_count
            &&& hms[i].asic_difficulty == asic_difficulty
            &&& hms[i].runtime is None
            &&& hms[i].params.voltage == voltage
            &&& hms[i].params.pll_frequency@.len() == 64
            &&& 0 <= chip < 64 ==> hms[i].params.pll_frequency@[chip] == pll_frequency
        },
{
    if 0 <= i < enabled_chains.len() {
        assert(hms[i].hashboard_idx == enabled_chains[i]);
    }
}

/// A chain is stopped as everything that runs is stopped, with the same failures, and
/// then it is dropped.
pub proof fn law_stopping_a_chain(i: int)
    ensures
        chain_stop_steps().len() == stop_steps().len() + 1,
        0 <= i < stop_steps().len() ==> chain_stop_steps()[i].action == ChainStopStep::Halt(
            stop_steps()[i].action,
        ) && chain_stop_steps()[i].failure == stop_steps()[i].failure,
        chain_stop_steps().last().action == ChainStopStep::DropChain,
        chain_stop_steps().last().failure == Failure::Propagate,
{
}

} // verus!
