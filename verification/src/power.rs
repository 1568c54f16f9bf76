//! Voltage of a hashboard.

use crate::error::ErrorKind;
use crate::script::{
    lemma_passed, must_step, precedes, try_step, Failure, Next, Reply, Script, Step,
};
use crate::text::{decimal, push_decimal};
use vstd::prelude::*;

verus! {

/// A voltage, as the bit pattern of a single precision floating point number of
/// volts.
#[derive(Clone, Copy, Debug)]
pub struct Voltage {
    pub bits: u32,
}

/// Bit pattern of the default initial voltage, 9.4 V.
pub const OPEN_CORE_VOLTAGE_BITS: u32 = 0x4116_6666;

/// The bit that holds the sign of a single precision number.
pub const F32_SIGN_BIT: u32 = 0x8000_0000;

/// Bit pattern of positive infinity: what is above it is not a number.
pub const F32_INFINITY_BITS: u32 = 0x7f80_0000;

impl Voltage {
    /// The bit pattern without the sign.
    pub open spec fn magnitude(self) -> int {
        self.bits as int % F32_SIGN_BIT as int
    }

    /// Whether the bit pattern is that of a number.
    pub open spec fn is_number(self) -> bool {
        self.magnitude() <= F32_INFINITY_BITS
    }

    /// Equality of floating point numbers: what is not a number equals nothing,
    /// and the two zeros are equal.
    pub open spec fn equals(self, other: Self) -> bool {
        &&& self.is_number()
        &&& other.is_number()
        &&& self.bits == other.bits || (self.magnitude() == 0 && other.magnitude() == 0)
    }

    /// Whether two voltages are equal as floating point numbers.
    pub fn same_as(&self, other: &Self) -> (r: bool)
        ensures
            r == self.equals(*other),
    {
        let a: u32 = self.bits % F32_SIGN_BIT;
        let b: u32 = other.bits % F32_SIGN_BIT;
        a <= F32_INFINITY_BITS && b <= F32_INFINITY_BITS && (self.bits == other.bits || (a == 0 && b
            == 0))
    }
}

/// Default initial voltage.
pub fn open_core_voltage() -> (r: Voltage)
    ensures
        r.bits == OPEN_CORE_VOLTAGE_BITS,
{
    Voltage { bits: OPEN_CORE_VOLTAGE_BITS }
}

/// Stateful wrapper around voltage control.
#[derive(Clone, Copy, Debug)]
pub struct PowerStation {
    /// The voltage that was last set.
    pub current_voltage: Option<Voltage>,
}

impl PowerStation {
    /// Whether this voltage was the last one that was set.
    pub open spec fn is_set_to(self, voltage: Voltage) -> bool {
        self.current_voltage matches Some(current) && current.equals(voltage)
    }

    /// Whether the station remembers this voltage, or one that equals it.
    pub open spec fn remembers(self, voltage: Voltage) -> bool {
        self.current_voltage == Some(voltage) || self.is_set_to(voltage)
    }

    /// `post` and `r` are what comes of setting a voltage, if the controller's answer
    /// is `controller`: the voltage that is set already is not set again, and one
    /// that was refused is not remembered.
    pub open spec fn voltage_set<E>(
        self,
        post: Self,
        voltage: Voltage,
        controller: Result<(), E>,
        r: Result<(), E>,
    ) -> bool {
        if self.is_set_to(voltage) {
            post == self && r is Ok
        } else {
            match controller {
                Ok(_) => post.current_voltage == Some(voltage) && r is Ok,
                Err(e) => post == self && r == Err::<(), E>(e),
            }
        }
    }

    /// A power station of which no voltage was set yet.
    pub fn new() -> (r: Self)
        ensures
            r.current_voltage is None,
    {
        PowerStation { current_voltage: None }
    }

    /// Whether the controller has to be told about this voltage.
    pub fn needs_voltage(&self, voltage: Voltage) -> (r: bool)
        ensures
            r == !self.is_set_to(voltage),
            self.current_voltage is None ==> r,
            self.current_voltage matches Some(current) ==> (current.bits != voltage.bits
                && voltage.bits != 0 && voltage.bits != 0x8000_0000 ==> r),
    {
        match self.current_voltage {
            Some(current) => !current.same_as(&voltage),
            None => true,
        }
    }

    /// Sets the voltage and remembers what was set.
    ///
    /// `controller` is what the voltage controller answered. It is only asked,
    /// and its answer only counts, if the voltage changes.
    pub fn set_voltage<E>(&mut self, voltage: Voltage, controller: Result<(), E>) -> (r: Result<
        (),
        E,
    >)
        ensures
            old(self).voltage_set(*final(self), voltage, controller, r),
            r is Ok && voltage.bits != 0 && voltage.bits != 0x8000_0000 ==> (
            final(self).current_voltage matches Some(current) && current.bits == voltage.bits),
            r is Ok ==> final(self).remembers(voltage),
            r is Ok && voltage.is_number() ==> final(self).is_set_to(voltage),
    {
        if self.needs_voltage(voltage) {
            match controller {
                Ok(_) => {
                    self.current_voltage = Some(voltage);
                    Ok(())
                },
                Err(e) => Err(e),
            }
        } else {
            Ok(())
        }
    }
}

/// Whether `r` is the outcome of checking a firmware version.
pub open spec fn is_version_outcome(r: Result<(), ErrorKind>, version: u8, expected: u8) -> bool {
    if version == expected {
        r is Ok
    } else {
        r matches Err(ErrorKind::UnexpectedVersion(name, found, wanted)) && name@
            == "voltage controller firmware"@ && found@ == decimal(version as nat) && wanted@
            == decimal(expected as nat)
    }
}

/// Checks the firmware version of the voltage controller.
pub fn check_version(version: u8, expected: u8) -> (r: Result<(), ErrorKind>)
    ensures
        is_version_outcome(r, version, expected),
{
    if version != expected {
        let mut found = String::new();
        push_decimal(&mut found, version as usize);
        let mut wanted = String::new();
        push_decimal(&mut wanted, expected as usize);
        assert(found@ =~= decimal(version as nat));
        assert(wanted@ =~= decimal(expected as nat));
        return Err(
            ErrorKind::UnexpectedVersion("voltage controller firmware".to_owned(), found, wanted),
        );
    }
    Ok(())
}

/// An operation of the initialization of the voltage controller.
#[derive(Clone, Copy, Debug)]
pub enum PowerStep {
    Reset,
    JumpFromLoaderToApp,
    /// Read the firmware version and check it.
    CheckVersion,
    /// Set this voltage, by way of the power station.
    SetVoltage(Voltage),
    EnableVoltage,
    /// Without heart beats the controller shuts down in about 10 seconds.
    StartHeartBeat,
    /// Leave the shutdown of the controller to a task of its own.
    SpawnHaltTask,
}

/// How the voltage controller is initialized.
pub open spec fn power_init_steps() -> Seq<Step<PowerStep>> {
    seq![
        try_step(PowerStep::Reset),
        try_step(PowerStep::JumpFromLoaderToApp),
        try_step(PowerStep::CheckVersion),
        try_step(PowerStep::SetVoltage(high_voltage())),
        try_step(PowerStep::EnableVoltage),
        try_step(PowerStep::StartHeartBeat),
        try_step(PowerStep::SpawnHaltTask),
    ]
}

/// The initialization of the voltage controller: its steps, what it is to find, and
/// how far it got.
///
/// Most steps are performed and then reported. Those that find or use a value have
/// a method of their own.
#[derive(Debug)]
pub struct PowerInit {
    pub script: Script<PowerStep>,
    /// The firmware version that the controller is to run.
    pub expected_version: u8,
    /// The firmware version that was found.
    pub version: Option<u8>,
    /// What the failure means that stopped the initialization, if one did.
    pub stopped: Option<Failure>,
}

/// The default initial voltage.
pub open spec fn high_voltage() -> Voltage {
    Voltage { bits: OPEN_CORE_VOLTAGE_BITS }
}

impl PowerInit {
    /// Whether all steps were performed.
    pub open spec fn completed(self) -> bool {
        self.stopped is None && self.script.over()
    }

    /// What the steps that were performed left behind.
    pub open spec fn holds_of(self, station: PowerStation) -> bool {
        &&& self.script.wf()
        &&& self.script.steps@ == power_init_steps()
        &&& self.script.repeat_from is None
        &&& if self.stopped is Some {
            self.script.over()
        } else {
            &&& self.script.passed(PowerStep::CheckVersion) ==> self.version == Some(
                self.expected_version,
            )
            &&& self.script.passed(PowerStep::SetVoltage(high_voltage())) ==> station.remembers(
                high_voltage(),
            )
        }
    }

    /// `post` is this initialization after its current step was performed.
    pub open spec fn advanced(self, post: Self) -> bool {
        &&& post.script.same_task(self.script)
        &&& post.script.pos == self.script.pos + 1
        &&& post.expected_version == self.expected_version
        &&& post.stopped == self.stopped
    }

    /// `post` is this initialization, stopped by the failure of its current step.
    pub open spec fn failed(self, post: Self) -> bool {
        &&& post.script.same_task(self.script)
        &&& post.script.over()
        &&& post.expected_version == self.expected_version
        &&& post.stopped == Some(self.script.steps@[self.script.pos as int].failure)
    }

    /// The step to perform, if the initialization is not over.
    pub fn current(&self) -> (r: Option<PowerStep>)
        ensures
            self.script.over() ==> r is None,
            !self.script.over() ==> r == Some(self.script.steps@[self.script.pos as int].action),
    {
        self.script.current()
    }

    /// Takes note of what became of the current step: one that neither finds nor
    /// uses a value, or one that failed.
    pub fn report(&mut self, station: &PowerStation, done: bool) -> (next: Next)
        requires
            old(self).holds_of(*station),
            !old(self).script.over(),
            done ==> !(old(self).script.steps@[old(self).script.pos as int].action is CheckVersion)
                && !(old(self).script.steps@[old(self).script.pos as int].action is SetVoltage),
        ensures
            final(self).holds_of(*station),
            final(self).version == old(self).version,
            if done {
                &&& old(self).advanced(*final(self))
                &&& next == if final(self).script.over() {
                    Next::Finished
                } else {
                    Next::Continue
                }
            } else {
                &&& old(self).failed(*final(self))
                &&& next == Next::Stopped(
                    old(self).script.steps@[old(self).script.pos as int].failure,
                )
            },
    {
        if done {
            let next = self.script.report(Reply::Done);
            proof {
                lemma_passed(old(self).script, self.script);
            }
            next
        } else {
            self.fail()
        }
    }

    /// Stops the initialization.
    fn fail(&mut self) -> (next: Next)
        requires
            old(self).script.wf(),
            !old(self).script.over(),
        ensures
            final(self).script.wf(),
            final(self).version == old(self).version,
            old(self).failed(*final(self)),
            next == Next::Stopped(old(self).script.steps@[old(self).script.pos as int].failure),
    {
        self.stopped = Some(self.script.steps[self.script.pos].failure);
        self.script.report(Reply::Failed)
    }

    /// Checks the firmware version that was found.
    pub fn check_version(&mut self, station: &PowerStation, version: u8) -> (r: Result<
        (),
        ErrorKind,
    >)
        requires
            old(self).holds_of(*station),
            old(self).stopped is None,
            old(self).script.at(PowerStep::CheckVersion),
        ensures
            final(self).holds_of(*station),
            final(self).version == Some(version),
            is_version_outcome(r, version, old(self).expected_version),
            r is Ok ==> old(self).advanced(*final(self)),
            r is Err ==> old(self).failed(*final(self)),
    {
        self.version = Some(version);
        let r = check_version(version, self.expected_version);
        if r.is_ok() {
            self.script.report(Reply::Done);
            proof {
                lemma_passed(old(self).script, self.script);
            }
        } else {
            self.fail();
        }
        r
    }

    /// Sets the default initial voltage and remembers it.
    ///
    /// `controller` is what the voltage controller answered. It is only asked,
    /// and its answer only counts, if the voltage changes.
    pub fn set_voltage<E>(&mut self, station: &mut PowerStation, controller: Result<(), E>) -> (r:
        Result<(), E>)
        requires
            old(self).holds_of(*old(station)),
            old(self).stopped is None,
            old(self).script.at(PowerStep::SetVoltage(high_voltage())),
        ensures
            final(self).holds_of(*final(station)),
            final(self).version == old(self).version,
            old(station).voltage_set(*final(station), high_voltage(), controller, r),
            r is Ok ==> old(self).advanced(*final(self)),
            r is Err ==> old(self).failed(*final(self)),
    {
        let r = station.set_voltage(open_core_voltage(), controller);
        if r.is_ok() {
            self.script.report(Reply::Done);
            proof {
                lemma_passed(old(self).script, self.script);
            }
        } else {
            self.fail();
        }
        r
    }

    /// Whether the voltage controller is initialized.
    pub fn is_complete(&self) -> (r: bool)
        ensures
            r == self.completed(),
    {
        self.stopped.is_none() && self.script.current().is_none()
    }
}

/// Once the voltage controller is initialized, it runs the expected firmware and
/// the default initial voltage is set.
pub proof fn law_power_outcome(init: PowerInit, station: PowerStation)
    requires
        init.holds_of(station),
        init.completed(),
    ensures
        init.version == Some(init.expected_version),
        station.remembers(high_voltage()),
        station.current_voltage matches Some(v) && v.bits == 0x4116_6666,
{
    assert(init.script.steps@[2].action == PowerStep::CheckVersion);
    assert(init.script.steps@[3].action == PowerStep::SetVoltage(high_voltage()));
}

impl PowerStation {
    /// The task of initializing the voltage controller.
    pub fn init(&self, expected_version: u8) -> (r: PowerInit)
        ensures
            r.script.fresh(power_init_steps(), None),
            r.expected_version == expected_version,
            r.version is None,
            r.stopped is None,
            r.holds_of(*self),
    {
        let failure = Failure::Propagate;
        let mut steps: Vec<Step<PowerStep>> = Vec::new();
        steps.push(Step { action: PowerStep::Reset, failure });
        steps.push(Step { action: PowerStep::JumpFromLoaderToApp, failure });
        steps.push(Step { action: PowerStep::CheckVersion, failure });
        steps.push(Step { action: PowerStep::SetVoltage(open_core_voltage()), failure });
        steps.push(Step { action: PowerStep::EnableVoltage, failure });
        steps.push(Step { action: PowerStep::StartHeartBeat, failure });
        steps.push(Step { action: PowerStep::SpawnHaltTask, failure });
        assert(steps@ =~= power_init_steps());
        PowerInit { script: Script::once(steps), expected_version, version: None, stopped: None }
    }
}

/// An operation of the shutdown of the voltage controller.
#[derive(Clone, Copy, Debug)]
pub enum PowerHaltStep {
    WaitForHalt,
    DisableVoltage,
    StopHeartBeat,
}

/// How the voltage controller is shut down: the voltage is turned off before the
/// heart beats stop.
pub open spec fn power_halt_steps() -> Seq<Step<PowerHaltStep>> {
    seq![
        try_step(PowerHaltStep::WaitForHalt),
        must_step(PowerHaltStep::DisableVoltage, "failed disabling voltage"),
        try_step(PowerHaltStep::StopHeartBeat),
    ]
}

impl PowerStation {
    /// The task of shutting the voltage controller down.
    pub fn halt() -> (r: Script<PowerHaltStep>)
        ensures
            r.fresh(power_halt_steps(), None),
            r.wf(),
    {
        let mut steps: Vec<Step<PowerHaltStep>> = Vec::new();
        steps.push(Step { action: PowerHaltStep::WaitForHalt, failure: Failure::Propagate });
        steps.push(
            Step {
                action: PowerHaltStep::DisableVoltage,
                failure: Failure::Panic("failed disabling voltage"),
            },
        );
        steps.push(Step { action: PowerHaltStep::StopHeartBeat, failure: Failure::Propagate });
        assert(steps@ =~= power_halt_steps());
        Script::once(steps)
    }
}

/// The firmware version is checked before the voltage is set, the voltage is set
/// before it is enabled, and the heart beats start only after that. At the end the
/// voltage is turned off after halt only, and before the heart beats stop.
pub proof fn law_power_order()
    ensures
        precedes(
            power_init_steps(),
            |a: PowerStep| a is CheckVersion,
            |a: PowerStep| a is SetVoltage,
        ),
        precedes(
            power_init_steps(),
            |a: PowerStep| a is SetVoltage,
            |a: PowerStep| a is EnableVoltage,
        ),
        precedes(
            power_init_steps(),
            |a: PowerStep| a is EnableVoltage,
            |a: PowerStep| a is StartHeartBeat,
        ),
        precedes(
            power_halt_steps(),
            |a: PowerHaltStep| a is WaitForHalt,
            |a: PowerHaltStep| a is DisableVoltage,
        ),
        precedes(
            power_halt_steps(),
            |a: PowerHaltStep| a is DisableVoltage,
            |a: PowerHaltStep| a is StopHeartBeat,
        ),
{
}

/// When two voltages are equal. A bit pattern is not a number if it is above that of
/// infinity without its sign; what is not a number equals nothing, not even itself.
/// Numbers are equal exactly if their bit patterns are the same, but for the two zeros,
/// which are equal to each other.
pub proof fn law_equal_voltages(a: Voltage, b: Voltage)
    ensures
        a.equals(b) <==> b.equals(a),
        a.equals(b) && a.bits != 0 && a.bits != 0x8000_0000 ==> a.bits == b.bits,
        a.bits == b.bits ==> (a.equals(b) <==> a.bits <= 0x7f80_0000 || 0x8000_0000 <= a.bits
            <= 0xff80_0000),
        a.bits == 0 && b.bits == 0x8000_0000 ==> a.equals(b),
        (a.bits == 0 || a.bits == 0x8000_0000) && a.equals(b) ==> b.bits == 0 || b.bits
            == 0x8000_0000,
{
}

/// What setting a voltage does. A voltage other than the one that is set, or one that is
/// not a number, is always told to the controller, and what the controller answers
/// decides. After success the station remembers exactly the bits that were requested,
/// but for the sign of zero. After failure it remembers what it did before.
pub proof fn law_setting_a_voltage<E>(
    pre: PowerStation,
    post: PowerStation,
    voltage: Voltage,
    controller: Result<(), E>,
    r: Result<(), E>,
)
    requires
        pre.voltage_set(post, voltage, controller, r),
    ensures
        r is Ok && voltage.bits != 0 && voltage.bits != 0x8000_0000 ==> (
        post.current_voltage matches Some(v) && v.bits == voltage.bits),
        r is Ok && (voltage.bits == 0 || voltage.bits == 0x8000_0000) ==> (
        post.current_voltage matches Some(v) && (v.bits == 0 || v.bits == 0x8000_0000)),
        r is Err ==> post == pre,
        pre.current_voltage is None ==> (r is Ok <==> controller is Ok),
        pre.current_voltage matches Some(v) && v.bits != voltage.bits && voltage.bits != 0
            && voltage.bits != 0x8000_0000 ==> (r is Ok <==> controller is Ok),
        pre.current_voltage matches Some(v) && v.bits == voltage.bits && (voltage.bits
            <= 0x7f80_0000 || 0x8000_0000 <= voltage.bits <= 0xff80_0000) ==> r is Ok && post
            == pre,
        r matches Err(e) ==> controller == Err::<(), E>(e),
{
    if let Some(v) = pre.current_voltage {
        law_equal_voltages(v, voltage);
    }
}

/// A firmware version is accepted exactly if it is the expected one.
pub proof fn law_version_must_match(r: Result<(), ErrorKind>, version: u8, expected: u8)
    requires
        is_version_outcome(r, version, expected),
    ensures
        r is Ok <==> version == expected,
        r matches Err(e) ==> (e matches ErrorKind::UnexpectedVersion(name, found, wanted) && name@
            == "voltage controller firmware"@ && found@ == decimal(version as nat) && wanted@
            == decimal(expected as nat)),
{
}

/// Every failure of initializing the voltage controller is handed on. When it is shut
/// down, it is fatal if the voltage cannot be turned off. The voltage that is set is
/// 9.4 V.
pub proof fn law_failures_of_power(i: int)
    ensures
        0 <= i < power_init_steps().len() ==> power_init_steps()[i].failure == Failure::Propagate,
        0 <= i < power_halt_steps().len() ==> power_halt_steps()[i].failure == match power_halt_steps()[i].action {
            PowerHaltStep::DisableVoltage => Failure::Panic("failed disabling voltage"),
            _ => Failure::Propagate,
        },
        0 <= i < power_init_steps().len() ==> (
        power_init_steps()[i].action matches PowerStep::SetVoltage(voltage) ==> voltage.bits
            == 0x4116_6666),
        power_init_steps().len() == 7 && power_halt_steps().len() == 3,
{
}

/// To perform a step of initializing the voltage controller moves on by one. To fail ends
/// it with what the failure of the step means. It is complete exactly if no step failed
/// and none is left.
pub proof fn law_progress_of_power(pre: PowerInit, post: PowerInit)
    ensures
        pre.advanced(post) ==> post.script.pos == pre.script.pos + 1 && post.stopped == pre.stopped
            && post.script.steps == pre.script.steps && post.expected_version
            == pre.expected_version,
        pre.failed(post) ==> post.script.pos >= post.script.steps@.len() && post.stopped == Some(
            pre.script.steps@[pre.script.pos as int].failure,
        ) && post.expected_version == pre.expected_version,
        pre.completed() <==> pre.stopped is None && pre.script.pos >= pre.script.steps@.len(),
{
}

} // verus!
