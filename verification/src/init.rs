//! Initialization of a hash chain, including the enumeration of its chips.

use crate::baud::{
    actual_baud_rate, baud_div, reachable, FPGA_IPCORE_F_CLK_BASE_BAUD_DIV,
    FPGA_IPCORE_F_CLK_SPEED_HZ, INIT_CHIP_BAUD_RATE, TARGET_CHIP_BAUD_RATE,
};
use crate::chain::{leading_bm1387, ChainCommand, ChipRev, HashChain};
use crate::error::ErrorKind;
use crate::pll::{
    law_table_is_set_chip_by_chip, law_work_time_is_fast_enough, PllTable, MAX_CHIPS_ON_CHAIN,
};
use crate::power::{high_voltage, law_equal_voltages, law_power_outcome, PowerInit, Voltage};
use crate::script::{
    lemma_passed, must_step, precedes, try_step, Failure, Next, Reply, Script, Step,
};
use vstd::prelude::*;

verus! {

/// Base delay quantum during hashboard initialization, in milliseconds.
pub const INIT_DELAY_MS: u64 = 1000;

/// An operation of the initialization of a hash chain.
#[derive(Clone, Copy, Debug, PartialEq, Eq, Structural)]
pub enum InitStep {
    /// Tell the monitor that the chain is on.
    RegisterWithMonitor,
    /// Let the FPGA IP core communicate at this speed.
    SetIpCoreBaudRate(usize),
    /// Tell the IP core about the number of midstates.
    SetMidstateCount,
    /// Initialize the voltage controller.
    InitPower,
    DisableIpCore,
    ResetPinLow,
    DisableVoltage,
    EnableVoltage,
    ResetPinHigh,
    EnableIpCore,
    /// Wait for this many milliseconds.
    Delay(u64),
    /// Detect the chips and give each of them an address.
    EnumerateChips,
    /// Tell the command interface how many chips there are.
    SetChipCount,
    /// Load the frequencies of all chips.
    SetPllTable,
    /// Let the chips communicate at this speed.
    ConfigureHashChain { baud_rate: usize, not_set_baud: bool, gate_block: bool },
    /// Set the ticket mask of all chips to the ASIC difficulty.
    SetAsicDifficulty,
    /// Make a work registry of the size of the transmit queue.
    MakeWorkRegistry,
    /// Send work that opens the cores.
    SendInitWork,
    /// Lower the voltage to the working level.
    SetInitialVoltage,
}

/// Puts the board into reset mode and disables the associated IP core.
pub open spec fn enter_reset_steps() -> Seq<Step<InitStep>> {
    seq![try_step(InitStep::DisableIpCore), try_step(InitStep::ResetPinLow)]
}

/// Leaves reset mode.
pub open spec fn exit_reset_steps() -> Seq<Step<InitStep>> {
    seq![try_step(InitStep::ResetPinHigh), try_step(InitStep::EnableIpCore)]
}

/// What comes before the chips can be talked to: the FPGA and the voltage
/// controller are set up, and the board is reset with the voltage off.
pub open spec fn board_init_steps() -> Seq<Step<InitStep>> {
    seq![
        must_step(InitStep::RegisterWithMonitor, "send failed"),
        try_step(InitStep::SetIpCoreBaudRate(INIT_CHIP_BAUD_RATE)),
        try_step(InitStep::SetMidstateCount),
        try_step(InitStep::InitPower),
    ] + enter_reset_steps() + seq![
        try_step(InitStep::DisableVoltage),
        try_step(InitStep::Delay(INIT_DELAY_MS)),
        try_step(InitStep::EnableVoltage),
        try_step(InitStep::Delay((2 * INIT_DELAY_MS) as u64)),
    ] + exit_reset_steps() + seq![try_step(InitStep::Delay(INIT_DELAY_MS))]
}

/// How the chips are found and configured.
pub open spec fn chip_init_steps() -> Seq<Step<InitStep>> {
    seq![
        try_step(InitStep::EnumerateChips),
        try_step(InitStep::SetChipCount),
        try_step(InitStep::SetPllTable),
        try_step(
            InitStep::ConfigureHashChain {
                baud_rate: TARGET_CHIP_BAUD_RATE,
                not_set_baud: false,
                gate_block: true,
            },
        ),
        try_step(InitStep::SetIpCoreBaudRate(TARGET_CHIP_BAUD_RATE)),
        try_step(InitStep::SetAsicDifficulty),
        must_step(InitStep::MakeWorkRegistry, "work-tx io missing"),
    ]
}

/// How the chips are made ready to work. Open-core work is sent at high voltage,
/// unless someone disabled it.
pub open spec fn work_init_steps(disable_init_work: bool) -> Seq<Step<InitStep>> {
    let lower = must_step(InitStep::SetInitialVoltage, "lowering voltage failed");
    if disable_init_work {
        seq![lower]
    } else {
        seq![try_step(InitStep::SendInitWork), lower]
    }
}

/// How a hash chain is initialized.
pub open spec fn init_steps(disable_init_work: bool) -> Seq<Step<InitStep>> {
    board_init_steps() + chip_init_steps() + work_init_steps(disable_init_work)
}

/// The initialization of a hash chain: its steps, the values that it is to leave
/// behind, and how far it got.
///
/// Most steps are performed and then reported. Those that find or use a value have
/// a method of their own.
#[derive(Debug)]
pub struct ChainInit {
    pub script: Script<InitStep>,
    /// The frequencies that the chips are to run at.
    pub clocks: PllTable,
    /// The voltage that the chips are to work at.
    pub voltage: Voltage,
    /// What the command interface was told about the number of chips.
    pub told_chip_count: Option<usize>,
    /// The size of the work registry.
    pub registry_size: Option<usize>,
    /// What the failure means that stopped the initialization, if one did.
    pub stopped: Option<Failure>,
}

impl ChainInit {
    /// Whether all steps were performed.
    pub open spec fn completed(self) -> bool {
        self.stopped is None && self.script.over()
    }

    /// What the steps that were performed left behind in the state of the chain and
    /// in the values that were passed on.
    pub open spec fn holds_of(self, chain: HashChain) -> bool {
        &&& self.script.wf()
        &&& self.script.steps@ == init_steps(chain.disable_init_work)
        &&& self.script.repeat_from is None
        &&& chain.wf()
        &&& if self.stopped is Some {
            self.script.over()
        } else {
            &&& self.clocks.next <= self.clocks.chip_count
            &&& chain.pll.follows(self.clocks.table@, self.clocks.next as int)
            &&& !self.script.passed(InitStep::EnumerateChips) ==> self.clocks.next == 0
            &&& self.script.passed(InitStep::EnumerateChips) ==> 1 <= chain.chip_count
                <= MAX_CHIPS_ON_CHAIN && self.clocks.chip_count == chain.chip_count
            &&& self.script.passed(InitStep::SetChipCount) ==> self.told_chip_count == Some(
                chain.chip_count,
            )
            &&& self.script.passed(InitStep::SetPllTable) ==> chain.chip_count <= self.clocks.table@.len()
                && chain.pll.follows(self.clocks.table@, chain.chip_count as int)
            &&& self.script.passed(InitStep::InitPower) && !self.script.passed(
                InitStep::SetInitialVoltage,
            ) ==> chain.power_station.remembers(high_voltage())
            &&& self.script.passed(InitStep::MakeWorkRegistry) ==> self.registry_size is Some
            &&& self.script.passed(InitStep::SetInitialVoltage) ==> chain.power_station.remembers(
                self.voltage,
            )
        }
    }

    /// What a completed initialization leaves behind: a chain with chips, of which
    /// the command interface knows, which run at their initial frequencies and at
    /// the initial voltage, and a work registry.
    pub open spec fn outcome(self, chain: HashChain) -> bool {
        &&& 1 <= chain.chip_count <= MAX_CHIPS_ON_CHAIN
        &&& self.told_chip_count == Some(chain.chip_count)
        &&& chain.chip_count <= self.clocks.table@.len()
        &&& forall|i: int|
            0 <= i < chain.chip_count ==> #[trigger] chain.pll.chip_freq@[i] == Some(
                self.clocks.table@[i],
            )
        &&& chain.power_station.remembers(self.voltage)
        &&& self.registry_size is Some
    }

    /// The same initialization, but for its progress and what it found.
    pub open spec fn same_goal(self, other: Self) -> bool {
        &&& self.script.same_task(other.script)
        &&& self.clocks.table == other.clocks.table
        &&& self.voltage == other.voltage
    }

    /// The two values that are passed on are the same.
    pub open spec fn same_found(self, other: Self) -> bool {
        &&& self.told_chip_count == other.told_chip_count
        &&& self.registry_size == other.registry_size
    }

    /// `post` is this initialization after its current step was performed.
    pub open spec fn advanced(self, post: Self) -> bool {
        &&& post.same_goal(self)
        &&& post.script.pos == self.script.pos + 1
        &&& post.stopped == self.stopped
    }

    /// `post` is this initialization, stopped by the failure of its current step.
    pub open spec fn failed(self, post: Self) -> bool {
        &&& post.same_goal(self)
        &&& post.same_found(self)
        &&& post.script.over()
        &&& post.stopped == Some(self.script.steps@[self.script.pos as int].failure)
    }

    /// The step to perform, if the initialization is not over.
    pub fn current(&self) -> (r: Option<InitStep>)
        ensures
            self.script.over() ==> r is None,
            !self.script.over() ==> r == Some(
                self.script.steps@[self.script.pos as int].action,
            ),
    {
        self.script.current()
    }

    /// Takes note of what became of the current step: one that neither finds nor
    /// uses a value, or one that failed.
    pub fn report(&mut self, chain: &HashChain, done: bool) -> (next: Next)
        requires
            old(self).holds_of(*chain),
            !old(self).script.over(),
            done ==> !uses_value(old(self).script.steps@[old(self).script.pos as int].action),
        ensures
            final(self).holds_of(*chain),
            if done {
                &&& old(self).advanced(*final(self))
                &&& final(self).same_found(*old(self))
                &&& next == if final(self).script.over() {
                    Next::Finished
                } else {
                    Next::Continue
                }
            } else {
                &&& old(self).failed(*final(self))
                &&& next == Next::Stopped(
                    old(self).script.steps@[old(self).script.pos as int].failure,
                )
            },
    {
        if done {
            let next = self.script.report(Reply::Done);
            proof {
                lemma_passed(old(self).script, self.script);
            }
            next
        } else {
            self.fail()
        }
    }

    /// Stops the initialization.
    fn fail(&mut self) -> (next: Next)
        requires
            old(self).script.wf(),
            !old(self).script.over(),
        ensures
            final(self).script.wf(),
            old(self).failed(*final(self)),
            next == Next::Stopped(old(self).script.steps@[old(self).script.pos as int].failure),
    {
        self.stopped = Some(self.script.steps[self.script.pos].failure);
        self.script.report(Reply::Failed)
    }

    /// Takes note that the voltage controller is initialized, as `power` says.
    pub fn power_initialized(&mut self, chain: &HashChain, power: &PowerInit)
        requires
            old(self).holds_of(*chain),
            old(self).stopped is None,
            old(self).script.at(InitStep::InitPower),
            power.holds_of(chain.power_station),
            power.completed(),
        ensures
            final(self).holds_of(*chain),
            final(self).same_found(*old(self)),
            old(self).advanced(*final(self)),
            chain.power_station.remembers(high_voltage()),
    {
        proof {
            law_power_outcome(*power, chain.power_station);
        }
        self.script.report(Reply::Done);
        proof {
            lemma_passed(old(self).script, self.script);
        }
    }

    /// Takes note of the answers of the chips. Returns the commands that give the
    /// chips their addresses.
    pub fn enumerate_chips(&mut self, chain: &mut HashChain, revs: &Vec<ChipRev>) -> (r: Result<
        Vec<ChainCommand>,
        ErrorKind,
    >)
        requires
            old(self).holds_of(*old(chain)),
            old(self).stopped is None,
            old(self).script.at(InitStep::EnumerateChips),
            old(chain).chip_count + leading_bm1387(revs@) <= usize::MAX,
        ensures
            final(self).holds_of(*final(chain)),
            old(chain).enumerated(*final(chain), revs@, r),
            final(self).same_found(*old(self)),
            r is Ok ==> old(self).advanced(*final(self)),
            r is Err ==> old(self).failed(*final(self)),
    {
        proof {
            lemma_once(*self, chain.disable_init_work);
        }
        let r = chain.enumerate_chips(revs);
        if r.is_ok() {
            self.clocks.chip_count = chain.chip_count;
            self.script.report(Reply::Done);
            proof {
                lemma_passed(old(self).script, self.script);
            }
        } else {
            self.fail();
        }
        r
    }

    /// The number of chips, to tell the command interface about.
    pub fn tell_chip_count(&mut self, chain: &HashChain) -> (r: usize)
        requires
            old(self).holds_of(*chain),
            old(self).stopped is None,
            old(self).script.at(InitStep::SetChipCount),
        ensures
            final(self).holds_of(*chain),
            old(self).advanced(*final(self)),
            r == chain.chip_count,
            final(self).told_chip_count == Some(r),
            final(self).registry_size == old(self).registry_size,
    {
        self.told_chip_count = Some(chain.chip_count);
        self.script.report(Reply::Done);
        proof {
            lemma_passed(old(self).script, self.script);
        }
        chain.chip_count
    }

    /// The next chip whose frequency has to be set, with that frequency. When there
    /// is none left, the step is done.
    pub fn next_chip(&mut self, chain: &HashChain) -> (r: Option<(usize, usize)>)
        requires
            old(self).holds_of(*chain),
            old(self).stopped is None,
            old(self).script.at(InitStep::SetPllTable),
            chain.chip_count <= old(self).clocks.table@.len(),
        ensures
            final(self).holds_of(*chain),
            final(self).same_found(*old(self)),
            match r {
                Some((chip_id, freq)) => {
                    &&& final(self).same_goal(*old(self))
                    &&& final(self).script == old(self).script
                    &&& final(self).stopped is None
                    &&& chip_id == final(self).clocks.next
                    &&& chip_id < chain.chip_count
                    &&& freq == old(self).clocks.table@[chip_id as int]
                    &&& chain.pll.chip_freq@[chip_id as int] != Some(freq)
                },
                None => old(self).advanced(*final(self)),
            },
            r is None <==> chain.pll.follows(
                old(self).clocks.table@,
                chain.chip_count as int,
            ),
            r is None <==> forall|i: int|
                0 <= i < chain.chip_count ==> #[trigger] chain.pll.chip_freq@[i] == Some(
                    old(self).clocks.table@[i],
                ),
    {
        proof {
            lemma_enumerated_before_clocks(*self, chain.disable_init_work);
        }
        let r = self.clocks.next_chip(&chain.pll);
        if r.is_none() {
            self.script.report(Reply::Done);
            proof {
                lemma_passed(old(self).script, self.script);
            }
        }
        r
    }

    /// Sets the frequency of the next chip and remembers it.
    ///
    /// `chip` is what became of loading the frequency into the chip.
    ///
    /// Returns whether the work time has to be set anew, for this frequency.
    pub fn set_pll<E>(&mut self, chain: &mut HashChain, chip: Result<(), E>) -> (r: Result<bool, E>)
        requires
            old(self).holds_of(*old(chain)),
            old(self).stopped is None,
            old(self).script.at(InitStep::SetPllTable),
            old(chain).chip_count <= old(self).clocks.table@.len(),
            old(self).clocks.next < old(chain).chip_count,
        ensures
            final(self).holds_of(*final(chain)),
            *final(chain) == (HashChain { pll: final(chain).pll, ..*old(chain) }),
            old(chain).pll.set_to(
                final(chain).pll,
                old(self).clocks.table@[old(self).clocks.next as int],
                old(self).clocks.next as int,
                chip,
                r,
            ),
            r is Ok ==> *final(self) == *old(self),
            r is Err ==> old(self).failed(*final(self)),
    {
        let ghost before = chain.pll;
        proof {
            lemma_enumerated_before_clocks(*self, chain.disable_init_work);
        }
        let freq: usize = self.clocks.table[self.clocks.next];
        let r = chain.set_pll(freq, self.clocks.next, chip);
        proof {
            law_table_is_set_chip_by_chip(self.clocks, before, chain.pll, chip, r);
            lemma_current_not_passed(*self, chain.disable_init_work);
        }
        if r.is_err() {
            self.fail();
        }
        r
    }

    /// Takes note of the size of the transmit queue. Returns the size that the work
    /// registry gets: the same.
    pub fn size_registry(&mut self, chain: &HashChain, work_id_count: usize) -> (r: usize)
        requires
            old(self).holds_of(*chain),
            old(self).stopped is None,
            old(self).script.at(InitStep::MakeWorkRegistry),
        ensures
            final(self).holds_of(*chain),
            old(self).advanced(*final(self)),
            r == work_id_count,
            final(self).registry_size == Some(r),
            final(self).told_chip_count == old(self).told_chip_count,
    {
        self.registry_size = Some(work_id_count);
        self.script.report(Reply::Done);
        proof {
            lemma_passed(old(self).script, self.script);
        }
        work_id_count
    }

    /// Sets the initial voltage and remembers it.
    ///
    /// `controller` is what the voltage controller answered. It is only asked,
    /// and its answer only counts, if the voltage changes.
    pub fn set_voltage<E>(&mut self, chain: &mut HashChain, controller: Result<(), E>) -> (r: Result<
        (),
        E,
    >)
        requires
            old(self).holds_of(*old(chain)),
            old(self).stopped is None,
            old(self).script.at(InitStep::SetInitialVoltage),
        ensures
            final(self).holds_of(*final(chain)),
            final(self).same_found(*old(self)),
            *final(chain) == (HashChain { power_station: final(chain).power_station, ..*old(chain) }),
            old(chain).power_station.voltage_set(
                final(chain).power_station,
                old(self).voltage,
                controller,
                r,
            ),
            r is Ok ==> old(self).advanced(*final(self)),
            r is Err ==> old(self).failed(*final(self)),
    {
        let r = chain.power_station.set_voltage(self.voltage, controller);
        if r.is_ok() {
            self.script.report(Reply::Done);
            proof {
                lemma_passed(old(self).script, self.script);
            }
        } else {
            self.fail();
        }
        r
    }

    /// The size of the work registry, if the initialization is complete.
    pub fn finish(&self, chain: &HashChain) -> (r: Option<usize>)
        requires
            self.holds_of(*chain),
        ensures
            self.completed() ==> self.outcome(*chain) && r == self.registry_size && r is Some,
            !self.completed() ==> r is None,
    {
        proof {
            if self.completed() {
                law_init_outcome(*self, *chain);
            }
        }
        if self.stopped.is_none() && self.script.current().is_none() {
            self.registry_size
        } else {
            None
        }
    }
}

/// Whether a step finds or uses a value, so that it has a method of its own.
pub open spec fn uses_value(step: InitStep) -> bool {
    ||| step is InitPower
    ||| step is EnumerateChips
    ||| step is SetChipCount
    ||| step is SetPllTable
    ||| step is MakeWorkRegistry
    ||| step is SetInitialVoltage
}

/// The chips are enumerated once.
proof fn lemma_once(init: ChainInit, disable_init_work: bool)
    requires
        init.script.steps@ == init_steps(disable_init_work),
        init.script.at(InitStep::EnumerateChips),
    ensures
        !init.script.passed(InitStep::EnumerateChips),
        !init.script.passed(InitStep::SetChipCount),
        !init.script.passed(InitStep::SetPllTable),
{
}

/// When the frequencies are set, the chips are known.
proof fn lemma_enumerated_before_clocks(init: ChainInit, disable_init_work: bool)
    requires
        init.script.steps@ == init_steps(disable_init_work),
        init.script.at(InitStep::SetPllTable),
    ensures
        init.script.passed(InitStep::EnumerateChips),
{
    law_init_order(disable_init_work);
    assert(init.script.steps@[13].action == InitStep::EnumerateChips);
}

/// While the frequencies are set, they are not all set yet.
proof fn lemma_current_not_passed(init: ChainInit, disable_init_work: bool)
    requires
        init.script.steps@ == init_steps(disable_init_work),
        init.script.at(InitStep::SetPllTable),
    ensures
        !init.script.passed(InitStep::SetPllTable),
        !init.script.passed(InitStep::SetInitialVoltage),
{
}

/// The cores are opened at high voltage: when the work for that is sent, the default
/// initial voltage is still set.
pub proof fn law_cores_open_at_high_voltage(init: ChainInit, chain: HashChain)
    requires
        init.holds_of(chain),
        init.script.at(InitStep::SendInitWork),
    ensures
        chain.power_station.remembers(high_voltage()),
{
    assert(init.script.steps@[3].action == InitStep::InitPower);
}

/// A completed initialization leaves at least one chip; the command interface was
/// told how many; each chip runs at its initial frequency; the initial voltage is
/// set; and there is a work registry.
pub proof fn law_init_outcome(init: ChainInit, chain: HashChain)
    requires
        init.holds_of(chain),
        init.completed(),
    ensures
        init.outcome(chain),
{
    let steps = init.script.steps@;
    let last = steps.len() - 1;
    assert(steps[13].action == InitStep::EnumerateChips);
    assert(steps[14].action == InitStep::SetChipCount);
    assert(steps[15].action == InitStep::SetPllTable);
    assert(steps[19].action == InitStep::MakeWorkRegistry);
    assert(steps[last].action == InitStep::SetInitialVoltage);
}

impl HashChain {
    /// The task of initializing the complete hashboard, including the enumeration
    /// of all chips.
    ///
    /// * `initial_pll_frequency` - the frequencies that the chips are to run at
    /// * `initial_voltage` - the voltage that the chips are to work at
    pub fn init(&self, initial_pll_frequency: Vec<usize>, initial_voltage: Voltage) -> (r: ChainInit)
        requires
            self.wf(),
        ensures
            r.script.fresh(init_steps(self.disable_init_work), None),
            r.clocks == (PllTable { table: initial_pll_frequency, chip_count: 0, next: 0 }),
            r.voltage == initial_voltage,
            r.told_chip_count is None,
            r.registry_size is None,
            r.stopped is None,
            r.holds_of(*self),
    {
        let failure = Failure::Propagate;
        let mut steps: Vec<Step<InitStep>> = Vec::new();
        steps.push(
            Step { action: InitStep::RegisterWithMonitor, failure: Failure::Panic("send failed") },
        );
        steps.push(Step { action: InitStep::SetIpCoreBaudRate(INIT_CHIP_BAUD_RATE), failure });
        steps.push(Step { action: InitStep::SetMidstateCount, failure });
        steps.push(Step { action: InitStep::InitPower, failure });
        steps.push(Step { action: InitStep::DisableIpCore, failure });
        steps.push(Step { action: InitStep::ResetPinLow, failure });
        steps.push(Step { action: InitStep::DisableVoltage, failure });
        steps.push(Step { action: InitStep::Delay(INIT_DELAY_MS), failure });
        steps.push(Step { action: InitStep::EnableVoltage, failure });
        steps.push(Step { action: InitStep::Delay(2 * INIT_DELAY_MS), failure });
        steps.push(Step { action: InitStep::ResetPinHigh, failure });
        steps.push(Step { action: InitStep::EnableIpCore, failure });
        steps.push(Step { action: InitStep::Delay(INIT_DELAY_MS), failure });
        assert(steps@ =~= board_init_steps());
        steps.push(Step { action: InitStep::EnumerateChips, failure });
        steps.push(Step { action: InitStep::SetChipCount, failure });
        steps.push(Step { action: InitStep::SetPllTable, failure });
        // `gate_block` lets the chips in the chain start one after the other.
        steps.push(
            Step {
                action: InitStep::ConfigureHashChain {
                    baud_rate: TARGET_CHIP_BAUD_RATE,
                    not_set_baud: false,
                    gate_block: true,
                },
                failure,
            },
        );
        steps.push(Step { action: InitStep::SetIpCoreBaudRate(TARGET_CHIP_BAUD_RATE), failure });
        steps.push(Step { action: InitStep::SetAsicDifficulty, failure });
        steps.push(
            Step {
                action: InitStep::MakeWorkRegistry,
                failure: Failure::Panic("work-tx io missing"),
            },
        );
        assert(steps@ =~= board_init_steps() + chip_init_steps());
        if !self.disable_init_work {
            steps.push(Step { action: InitStep::SendInitWork, failure });
        }
        steps.push(
            Step {
                action: InitStep::SetInitialVoltage,
                failure: Failure::Panic("lowering voltage failed"),
            },
        );
        assert(steps@ =~= init_steps(self.disable_init_work));
        ChainInit {
            script: Script::once(steps),
            clocks: PllTable::new(initial_pll_frequency, 0),
            voltage: initial_voltage,
            told_chip_count: None,
            registry_size: None,
            stopped: None,
        }
    }
}

/// The order that the hardware relies on. The FPGA changes to the target speed
/// only after all chips were configured for it; the chips are only talked to
/// after the voltage controller was initialized and the board left reset mode; the
/// board is in reset mode while the voltage is off; the voltage is lowered last.
pub proof fn law_init_order(disable_init_work: bool)
    ensures
        ({
            let steps = init_steps(disable_init_work);
            &&& precedes(
                steps,
                |a: InitStep| a is ConfigureHashChain,
                |a: InitStep| a == InitStep::SetIpCoreBaudRate(TARGET_CHIP_BAUD_RATE),
            )
            &&& precedes(
                steps,
                |a: InitStep| a == InitStep::SetIpCoreBaudRate(INIT_CHIP_BAUD_RATE),
                |a: InitStep| a is EnumerateChips,
            )
            &&& precedes(steps, |a: InitStep| a is InitPower, |a: InitStep| a is EnumerateChips)
            &&& precedes(steps, |a: InitStep| a is ResetPinHigh, |a: InitStep| a is EnumerateChips)
            &&& precedes(steps, |a: InitStep| a is EnumerateChips, |a: InitStep| a is SetPllTable)
            &&& precedes(steps, |a: InitStep| a is ResetPinLow, |a: InitStep| a is DisableVoltage)
            &&& precedes(steps, |a: InitStep| a is DisableVoltage, |a: InitStep| a is EnableVoltage)
            &&& precedes(steps, |a: InitStep| a is EnableVoltage, |a: InitStep| a is ResetPinHigh)
            &&& precedes(
                steps,
                |a: InitStep| !(a is SetInitialVoltage),
                |a: InitStep| a is SetInitialVoltage,
            )
        }),
{
}

/// The FPGA IP core reaches each of the speeds that the initialization asks it for
/// exactly.
pub proof fn law_line_speeds_are_exact(disable_init_work: bool, i: int)
    requires
        0 <= i < init_steps(disable_init_work).len(),
    ensures
        init_steps(disable_init_work)[i].action matches InitStep::SetIpCoreBaudRate(baud) ==> ({
            let c = FPGA_IPCORE_F_CLK_SPEED_HZ as int;
            let d = FPGA_IPCORE_F_CLK_BASE_BAUD_DIV as int;
            &&& reachable(baud as int, c, d)
            &&& actual_baud_rate(baud_div(baud as int, c, d), c, d) == baud
        }),
{
    let c = FPGA_IPCORE_F_CLK_SPEED_HZ as int;
    let d = FPGA_IPCORE_F_CLK_BASE_BAUD_DIV as int;
    assert(baud_div(INIT_CHIP_BAUD_RATE as int, c, d) == 26);
    assert(actual_baud_rate(26, c, d) == INIT_CHIP_BAUD_RATE) by (nonlinear_arith)
        requires
            c == 50_000_000,
            d == 16,
    ;
    assert(baud_div(TARGET_CHIP_BAUD_RATE as int, c, d) == 1) by (nonlinear_arith)
        requires
            c == 50_000_000,
            d == 16,
    ;
    assert(actual_baud_rate(1, c, d) == TARGET_CHIP_BAUD_RATE) by (nonlinear_arith)
        requires
            c == 50_000_000,
            d == 16,
    ;
}

/// Not to send open-core work leaves out that step and no other, and changes nothing
/// about the others.
pub proof fn law_disabled_init_work_is_left_out()
    ensures
        init_steps(false).len() == 22,
        init_steps(false)[20].action == InitStep::SendInitWork,
        init_steps(true) == init_steps(false).remove(20),
{
    assert(init_steps(true) =~= init_steps(false).remove(20));
}

/// What the failures of the initialization mean: it is fatal if the monitor cannot be
/// told, if there is no transmit queue, and if the voltage cannot be lowered. All others
/// are handed on.
pub proof fn law_failures_of_init(disable_init_work: bool, i: int)
    requires
        0 <= i < init_steps(disable_init_work).len(),
    ensures
        init_steps(disable_init_work)[i].failure == match init_steps(disable_init_work)[i].action {
            InitStep::RegisterWithMonitor => Failure::Panic("send failed"),
            InitStep::MakeWorkRegistry => Failure::Panic("work-tx io missing"),
            InitStep::SetInitialVoltage => Failure::Panic("lowering voltage failed"),
            _ => Failure::Propagate,
        },
{
}

/// After a completed initialization there are 1 to 64 chips; the command interface was
/// told that number; chip `i` runs at the `i`-th frequency of the table; the voltage that
/// is remembered has the bits of the initial one, unless that is zero; and the size of the
/// work registry is known.
pub proof fn law_values_after_init(init: ChainInit, chain: HashChain, i: int)
    requires
        init.holds_of(chain),
        init.stopped is None,
        init.script.pos == init.script.steps@.len(),
    ensures
        1 <= chain.chip_count <= 64,
        init.told_chip_count == Some(chain.chip_count),
        chain.chip_count <= init.clocks.table@.len(),
        0 <= i < chain.chip_count ==> chain.pll.chip_freq@[i] == Some(init.clocks.table@[i]),
        init.voltage.bits != 0 && init.voltage.bits != 0x8000_0000 ==> (
        chain.power_station.current_voltage matches Some(v) && v.bits == init.voltage.bits),
        init.registry_size is Some,
        forall|c: int|
            0 <= c < 64 ==> (#[trigger] chain.pll.chip_freq@[c] matches Some(freq) ==> freq == 0 || (
            chain.pll.max_freq matches Some(max_freq) && freq <= max_freq)),
{
    law_init_outcome(init, chain);
    if let Some(v) = chain.power_station.current_voltage {
        law_equal_voltages(v, init.voltage);
    }
    assert forall|c: int| 0 <= c < 64 implies (#[trigger] chain.pll.chip_freq@[c] matches Some(freq)
        ==> freq == 0 || (chain.pll.max_freq matches Some(max_freq) && freq <= max_freq)) by {
        law_work_time_is_fast_enough(chain.pll, c);
    }
}

/// While the cores are opened, the voltage that is remembered is 9.4 V.
pub proof fn law_voltage_while_cores_open(init: ChainInit, chain: HashChain)
    requires
        init.holds_of(chain),
        init.script.at(InitStep::SendInitWork),
    ensures
        chain.power_station.current_voltage matches Some(v) && v.bits == 0x4116_6666,
{
    law_cores_open_at_high_voltage(init, chain);
    if let Some(v) = chain.power_station.current_voltage {
        law_equal_voltages(v, high_voltage());
    }
}

/// To perform a step moves on by one and keeps what the initialization aims at. To fail
/// ends it with what the failure of the step means.
pub proof fn law_progress_of_init(pre: ChainInit, post: ChainInit)
    ensures
        pre.advanced(post) ==> post.script.pos == pre.script.pos + 1 && post.stopped == pre.stopped
            && post.script.steps == pre.script.steps && post.clocks.table == pre.clocks.table
            && post.voltage == pre.voltage,
        pre.failed(post) ==> post.script.pos >= post.script.steps@.len() && post.stopped == Some(
            pre.script.steps@[pre.script.pos as int].failure,
        ) && post.registry_size == pre.registry_size && post.told_chip_count
            == pre.told_chip_count && post.clocks.table == pre.clocks.table && post.voltage
            == pre.voltage,
{
}

/// An initialization is complete exactly if no step failed and none is left. Two agree
/// in what they found exactly if the number of chips that was told and the size of the
/// registry are the same.
pub proof fn law_complete_init(a: ChainInit, b: ChainInit)
    ensures
        a.completed() <==> a.stopped is None && a.script.pos >= a.script.steps@.len(),
        a.same_found(b) <==> a.told_chip_count == b.told_chip_count && a.registry_size
            == b.registry_size,
{
}

} // verus!
