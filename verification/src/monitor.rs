//! Tasks that watch over a running hash chain.

use crate::count::sum;
use crate::script::{must_step, try_step, Failure, Script, Step};
use vstd::prelude::*;

verus! {

/// Address of the chip with the connected temperature sensor.
pub const TEMP_CHIP: usize = 61;

/// How often a chain is looked at, in milliseconds.
pub const MONITOR_DELAY_MS: u64 = 5000;

/// An operation of the temperature monitor.
#[derive(Clone, Copy, Debug, PartialEq, Eq, Structural)]
pub enum TemperatureStep {
    /// Wait for this many milliseconds.
    Delay(u64),
    /// Open the I2C bus behind this chip.
    OpenBus(usize),
    ProbeSensors,
    /// Take the sensor that was found, if there is one.
    TakeSensor,
    InitSensor,
    ReadTemperature,
    /// Tell the monitor about the temperature.
    ReportTemperature,
}

/// How the temperature is monitored.
///
/// There is a delay before the sensor is initialized: otherwise the receive queue
/// might be clogged with initial work and there would be no replies.
pub open spec fn temperature_steps() -> Seq<Step<TemperatureStep>> {
    seq![
        try_step(TemperatureStep::Delay(MONITOR_DELAY_MS)),
        must_step(TemperatureStep::OpenBus(TEMP_CHIP), "bus construction failed"),
        must_step(TemperatureStep::ProbeSensors, "sensor probing failed"),
        must_step(TemperatureStep::TakeSensor, "no sensors found"),
        must_step(TemperatureStep::InitSensor, "failed to initialize sensor"),
        must_step(TemperatureStep::ReadTemperature, "failed to read temperature"),
        must_step(TemperatureStep::ReportTemperature, "send failed"),
        try_step(TemperatureStep::Delay(MONITOR_DELAY_MS)),
    ]
}

/// The temperature monitor: once the sensor is set up, it reads and reports the
/// temperature again and again.
pub fn temperature_monitor_task() -> (r: Script<TemperatureStep>)
    ensures
        r.fresh(temperature_steps(), Some(5)),
        r.wf(),
{
    let mut steps: Vec<Step<TemperatureStep>> = Vec::new();
    steps.push(
        Step {
            action: TemperatureStep::Delay(MONITOR_DELAY_MS),
            failure: Failure::Propagate,
        },
    );
    steps.push(
        Step {
            action: TemperatureStep::OpenBus(TEMP_CHIP),
            failure: Failure::Panic("bus construction failed"),
        },
    );
    steps.push(
        Step {
            action: TemperatureStep::ProbeSensors,
            failure: Failure::Panic("sensor probing failed"),
        },
    );
    steps.push(
        Step { action: TemperatureStep::TakeSensor, failure: Failure::Panic("no sensors found") },
    );
    steps.push(
        Step {
            action: TemperatureStep::InitSensor,
            failure: Failure::Panic("failed to initialize sensor"),
        },
    );
    steps.push(
        Step {
            action: TemperatureStep::ReadTemperature,
            failure: Failure::Panic("failed to read temperature"),
        },
    );
    steps.push(
        Step { action: TemperatureStep::ReportTemperature, failure: Failure::Panic("send failed") },
    );
    steps.push(
        Step {
            action: TemperatureStep::Delay(MONITOR_DELAY_MS),
            failure: Failure::Propagate,
        },
    );
    assert(steps@ =~= temperature_steps());
    Script::repeating(steps, 5)
}

/// An operation of the hashrate monitor.
#[derive(Clone, Copy, Debug, PartialEq, Eq, Structural)]
pub enum HashrateStep {
    /// Wait for this many milliseconds.
    Delay(u64),
    /// Read the hashrate register of all chips.
    ReadHashrates,
    /// Report the total hashrate.
    ReportTotal,
}

/// How the hashrate is monitored.
pub open spec fn hashrate_steps() -> Seq<Step<HashrateStep>> {
    seq![
        try_step(HashrateStep::Delay(MONITOR_DELAY_MS)),
        must_step(HashrateStep::ReadHashrates, "reading hashrate_reg failed"),
        try_step(HashrateStep::ReportTotal),
    ]
}

/// The hashrate monitor: it periodically fetches information about the hashrate.
pub fn hashrate_monitor_task() -> (r: Script<HashrateStep>)
    ensures
        r.fresh(hashrate_steps(), Some(0)),
        r.wf(),
{
    let mut steps: Vec<Step<HashrateStep>> = Vec::new();
    steps.push(
        Step { action: HashrateStep::Delay(MONITOR_DELAY_MS), failure: Failure::Propagate },
    );
    steps.push(
        Step {
            action: HashrateStep::ReadHashrates,
            failure: Failure::Panic("reading hashrate_reg failed"),
        },
    );
    steps.push(Step { action: HashrateStep::ReportTotal, failure: Failure::Propagate });
    assert(steps@ =~= hashrate_steps());
    Script::repeating(steps, 0)
}

/// The hashrates as numbers.
pub open spec fn rates(hashrates: Seq<u64>) -> Seq<int> {
    hashrates.map_values(|h: u64| h as int)
}

/// The total hashrate of the chips.
pub fn total_hashrate(hashrates: &Vec<u64>) -> (r: u128)
    ensures
        r == sum(rates(hashrates@)),
        r as int == hashrates@.fold_left(0int, |total: int, h: u64| total + h),
{
    let n: usize = hashrates.len();
    let mut total: u128 = 0;
    let mut i: usize = 0;
    while i < n
        invariant
            n == hashrates@.len(),
            i <= n,
            total == sum(rates(hashrates@.take(i as int))),
            total <= i * 0xffff_ffff_ffff_ffff,
        decreases n - i,
    {
        proof {
            let next = rates(hashrates@.take(i + 1));
            assert(next.drop_last() =~= rates(hashrates@.take(i as int)));
            assert(next.last() == hashrates@[i as int]);
            assert(i * 0xffff_ffff_ffff_ffff <= 0xffff_ffff_ffff_fffe * 0xffff_ffff_ffff_ffff)
                by (nonlinear_arith)
                requires
                    i <= 0xffff_ffff_ffff_fffe,
            ;
        }
        total = total + hashrates[i] as u128;
        i += 1;
    }
    assert(hashrates@.take(n as int) =~= hashrates@);
    proof {
        law_total_is_sum_of_chips(hashrates@);
    }
    total
}

/// The total hashrate is that of all chips added up, each of them once.
pub proof fn law_total_is_sum_of_chips(hashrates: Seq<u64>)
    ensures
        sum(rates(hashrates)) == hashrates.fold_left(0int, |total: int, h: u64| total + h),
    decreases hashrates.len(),
{
    if hashrates.len() > 0 {
        law_total_is_sum_of_chips(hashrates.drop_last());
        assert(rates(hashrates).drop_last() =~= rates(hashrates.drop_last()));
    }
}

/// Every failure of the monitors is fatal, each with a text of its own.
pub proof fn law_failures_of_monitors(i: int)
    ensures
        0 <= i < temperature_steps().len() ==> temperature_steps()[i].failure == match temperature_steps()[i].action {
            TemperatureStep::Delay(_) => Failure::Propagate,
            TemperatureStep::OpenBus(_) => Failure::Panic("bus construction failed"),
            TemperatureStep::ProbeSensors => Failure::Panic("sensor probing failed"),
            TemperatureStep::TakeSensor => Failure::Panic("no sensors found"),
            TemperatureStep::InitSensor => Failure::Panic("failed to initialize sensor"),
            TemperatureStep::ReadTemperature => Failure::Panic("failed to read temperature"),
            TemperatureStep::ReportTemperature => Failure::Panic("send failed"),
        },
        0 <= i < hashrate_steps().len() ==> hashrate_steps()[i].failure == match hashrate_steps()[i].action {
            HashrateStep::ReadHashrates => Failure::Panic("reading hashrate_reg failed"),
            _ => Failure::Propagate,
        },
        temperature_steps().len() == 8 && hashrate_steps().len() == 3,
{
}

} // verus!
