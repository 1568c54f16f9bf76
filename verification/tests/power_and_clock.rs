use bosminer_am1_s9::error::ErrorKind;
use bosminer_am1_s9::pll::{work_space_size, HashChainPll, PllTable};
use bosminer_am1_s9::power::{
    check_version, open_core_voltage, PowerHaltStep, PowerInit, PowerStation, PowerStep, Voltage,
};
use bosminer_am1_s9::script::{Failure, Next, Reply};

fn volts(v: f32) -> Voltage {
    Voltage { bits: v.to_bits() }
}

#[test]
fn open_core_voltage_is_9_4_volts() {
    assert_eq!(f32::from_bits(open_core_voltage().bits), 9.4);
}

#[test]
fn voltages_compare_as_floating_point_numbers() {
    let values = [0.0f32, -0.0, 9.4, 8.9, -9.4, f32::NAN, f32::INFINITY, f32::NEG_INFINITY, 1e-40];
    for a in values {
        for b in values {
            assert_eq!(volts(a).same_as(&volts(b)), a == b);
        }
    }
}

#[test]
fn voltage_is_set_once() {
    let mut station = PowerStation::new();
    assert!(station.needs_voltage(volts(9.0)));
    assert_eq!(station.set_voltage::<u8>(volts(9.0), Ok(())), Ok(()));
    assert!(!station.needs_voltage(volts(9.0)));
    // the controller is not asked again
    assert_eq!(station.set_voltage(volts(9.0), Err(1u8)), Ok(()));
    assert!(station.needs_voltage(volts(8.5)));
}

#[test]
fn voltage_that_was_refused_is_not_remembered() {
    let mut station = PowerStation::new();
    assert_eq!(station.set_voltage(volts(9.0), Err(7u8)), Err(7));
    assert!(station.current_voltage.is_none());
    assert_eq!(station.set_voltage::<u8>(volts(9.0), Ok(())), Ok(()));
    assert_eq!(station.set_voltage(volts(8.0), Err(7u8)), Err(7));
    assert!(!station.needs_voltage(volts(9.0)));
}

#[test]
fn firmware_version_is_checked() {
    assert!(check_version(3, 3).is_ok());
    match check_version(16, 3) {
        Err(ErrorKind::UnexpectedVersion(name, found, expected)) => {
            assert_eq!(name, "voltage controller firmware");
            assert_eq!(found, "16");
            assert_eq!(expected, "3");
        }
        other => panic!("{:?}", other),
    }
}

#[test]
fn voltage_controller_is_initialized_in_order() {
    let mut script = PowerStation::new().init(3).script;
    let mut steps = Vec::new();
    while let Some(step) = script.current() {
        steps.push(step);
        script.report(Reply::Done);
    }
    assert_eq!(steps.len(), 7);
    assert!(matches!(steps[0], PowerStep::Reset));
    assert!(matches!(steps[1], PowerStep::JumpFromLoaderToApp));
    assert!(matches!(steps[2], PowerStep::CheckVersion));
    assert!(matches!(steps[3], PowerStep::SetVoltage(v) if v.bits == 9.4f32.to_bits()));
    assert!(matches!(steps[4], PowerStep::EnableVoltage));
    assert!(matches!(steps[5], PowerStep::StartHeartBeat));
    assert!(matches!(steps[6], PowerStep::SpawnHaltTask));
}

/// Performs the steps of initializing the voltage controller up to the one at `until`.
fn init_power_up_to(station: &mut PowerStation, init: &mut PowerInit, until: usize) {
    while init.script.pos < until {
        match init.current().unwrap() {
            PowerStep::CheckVersion => init.check_version(station, 3).unwrap(),
            PowerStep::SetVoltage(_) => init.set_voltage(station, Ok::<(), ()>(())).unwrap(),
            _ => {
                init.report(station, true);
            }
        }
    }
}

#[test]
fn initialized_voltage_controller_is_at_9_4_volts() {
    let mut station = PowerStation::new();
    let mut init = station.init(3);
    assert!(!init.is_complete());
    init_power_up_to(&mut station, &mut init, 7);
    assert!(init.is_complete());
    assert!(init.current().is_none());
    assert_eq!(init.version, Some(3));
    assert_eq!(station.current_voltage.unwrap().bits, 9.4f32.to_bits());
}

#[test]
fn voltage_controller_initialization_can_fail() {
    let mut station = PowerStation::new();
    let mut init = station.init(3);
    init_power_up_to(&mut station, &mut init, 2);
    assert!(matches!(
        init.check_version(&station, 4),
        Err(ErrorKind::UnexpectedVersion(_, _, _))
    ));
    assert!(matches!(init.stopped, Some(Failure::Propagate)));
    assert!(init.current().is_none() && !init.is_complete());

    let mut init = station.init(3);
    init_power_up_to(&mut station, &mut init, 3);
    assert_eq!(init.set_voltage(&mut station, Err(5u8)), Err(5));
    assert!(station.current_voltage.is_none() && !init.is_complete());

    let mut init = station.init(3);
    assert!(matches!(init.report(&station, false), Next::Stopped(Failure::Propagate)));
    assert!(!init.is_complete());
}

#[test]
fn voltage_goes_off_before_the_heart_beats_stop() {
    let mut script = PowerStation::halt();
    assert!(matches!(script.current(), Some(PowerHaltStep::WaitForHalt)));
    script.report(Reply::Done);
    assert!(matches!(script.current(), Some(PowerHaltStep::DisableVoltage)));
    assert!(matches!(script.report(Reply::Done), Next::Continue));
    assert!(matches!(script.current(), Some(PowerHaltStep::StopHeartBeat)));
    assert!(matches!(script.report(Reply::Done), Next::Finished));

    let mut script = PowerStation::halt();
    script.report(Reply::Done);
    assert!(matches!(
        script.report(Reply::Failed),
        Next::Stopped(Failure::Panic("failed disabling voltage"))
    ));
}

#[test]
fn work_time_follows_the_fastest_chip() {
    let mut pll = HashChainPll::new();
    assert!(!pll.set_work_time(0));
    assert_eq!(pll.max_freq, None);
    assert!(pll.set_work_time(500));
    assert!(!pll.set_work_time(500));
    assert!(!pll.set_work_time(400));
    assert_eq!(pll.max_freq, Some(500));
    assert!(pll.set_work_time(501));
    assert_eq!(pll.max_freq, Some(501));
}

#[test]
fn frequency_is_loaded_when_it_changes() {
    let mut pll = HashChainPll::new();
    assert!(pll.needs_pll(650, 5));
    assert_eq!(pll.set_pll::<u8>(650, 5, Ok(())), Ok(true));
    assert_eq!(pll.chip_freq[5], Some(650));
    assert!(!pll.needs_pll(650, 5));
    assert_eq!(pll.set_pll(650, 5, Err(1u8)), Ok(false));
    assert_eq!(pll.set_pll::<u8>(600, 6, Ok(())), Ok(false));
    assert_eq!(pll.set_pll(700, 5, Err(2u8)), Err(2));
    assert_eq!(pll.chip_freq[5], Some(650));
    assert_eq!(pll.max_freq, Some(650));
}

#[test]
fn table_is_loaded_chip_by_chip() {
    let mut pll = HashChainPll::new();
    pll.set_pll::<u8>(11, 1, Ok(())).unwrap();
    let mut task = PllTable::new(vec![10, 11, 12, 13], 3);
    assert_eq!(task.next_chip(&pll), Some((0, 10)));
    assert_eq!(pll.set_pll::<u8>(10, 0, Ok(())), Ok(false));
    // chip 1 runs at its frequency already
    assert_eq!(task.next_chip(&pll), Some((2, 12)));
    assert_eq!(pll.set_pll(12, 2, Err(9u8)), Err(9));
    assert_eq!(task.next_chip(&pll), Some((2, 12)));
    assert_eq!(pll.set_pll::<u8>(12, 2, Ok(())), Ok(true));
    assert_eq!(task.next_chip(&pll), None);
    assert_eq!(&pll.chip_freq[..4], &[Some(10), Some(11), Some(12), None]);
    assert_eq!(pll.max_freq, Some(12));
}

#[test]
fn a_core_searches_2_to_the_19_nonces_per_midstate() {
    assert_eq!(work_space_size(1), 524_288);
    assert_eq!(work_space_size(4), 2_097_152);
    assert_eq!(work_space_size(0), 0);
}
