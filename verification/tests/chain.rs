use bosminer_am1_s9::chain::{ChainCommand, ChipRev, HashChain, ProbeStep};
use bosminer_am1_s9::error::ErrorKind;
use bosminer_am1_s9::init::{ChainInit, InitStep};
use bosminer_am1_s9::midstate::{MidstateCount, MidstateReg};
use bosminer_am1_s9::power::{PowerStep, Voltage};
use bosminer_am1_s9::script::{Failure, Next, Reply, Script};

/// 8.8 V
const VOLTAGE: Voltage = Voltage { bits: 0x410c_cccd };

fn chain() -> HashChain {
    HashChain::new(8, MidstateCount::new(4), 64)
}

fn bm1387(n: usize) -> Vec<ChipRev> {
    (0..n)
        .map(|_| ChipRev { is_bm1387: true, name: "Bm1387".to_string() })
        .collect()
}

fn text(e: ErrorKind) -> String {
    match e {
        ErrorKind::Hashchip(text) => text,
        other => panic!("{:?}", other),
    }
}

fn run_all<A: Copy>(mut script: Script<A>) -> Vec<A> {
    let mut actions = Vec::new();
    while let Some(action) = script.current() {
        actions.push(action);
        script.report(Reply::Done);
    }
    actions
}

#[test]
fn midstate_encodings() {
    for (count, bits, mask, reg) in [
        (1, 0, 0, MidstateReg::One),
        (2, 1, 1, MidstateReg::Two),
        (4, 2, 3, MidstateReg::Four),
    ] {
        let m = MidstateCount::new(count);
        assert_eq!(m.to_count(), count);
        assert_eq!(m.to_bits(), bits);
        assert_eq!(m.to_mask(), mask);
        assert_eq!(m.to_reg(), reg);
        let work_id = 0x1357usize;
        assert_eq!(work_id & m.to_mask(), work_id % count);
        assert_eq!(work_id >> m.to_bits(), work_id / count);
    }
}

#[test]
fn new_chain_has_no_chips() {
    let chain = chain();
    assert_eq!(chain.get_chip_count(), 0);
    assert_eq!(chain.midstate_count.to_count(), 4);
    assert_eq!(chain.asic_difficulty, 64);
    assert_eq!(chain.hashboard_idx, 8);
    assert!(!chain.disable_init_work);
    assert_eq!(chain.pll.chip_freq, vec![None; 64]);
    assert_eq!(chain.pll.max_freq, None);
    assert!(chain.power_station.current_voltage.is_none());
    assert_eq!(chain.name(), "Hash Board 8");
}

#[test]
fn board_must_be_present() {
    assert!(HashChain::check_present(8, false).is_ok());
    match HashChain::check_present(8, true) {
        Err(ErrorKind::Hashboard(8, text)) => assert_eq!(text, "not present"),
        other => panic!("{:?}", other),
    }
}

#[test]
fn board_is_probed_in_order() {
    assert_eq!(
        run_all(HashChain::probe()),
        vec![
            ProbeStep::OpenPlugPin,
            ProbeStep::CheckPlugPin,
            ProbeStep::OpenResetPin,
            ProbeStep::OpenCore,
            ProbeStep::InitCore,
        ]
    );
}

#[test]
fn missing_pins_are_errors_of_the_board() {
    let mut probe = HashChain::probe();
    let next = probe.report(Reply::Failed);
    assert!(matches!(
        next,
        Next::Stopped(Failure::Hashboard("failed to initialize plug pin"))
    ));
    assert!(probe.current().is_none());

    let mut probe = HashChain::probe();
    probe.report(Reply::Done);
    assert!(matches!(probe.current(), Some(ProbeStep::CheckPlugPin)));
    probe.report(Reply::Done);
    assert!(matches!(
        probe.report(Reply::Failed),
        Next::Stopped(Failure::Hashboard("failed to initialize reset pin"))
    ));
    match HashChain::board_error(3, "failed to initialize reset pin") {
        ErrorKind::Hashboard(3, text) => assert_eq!(text, "failed to initialize reset pin"),
        other => panic!("{:?}", other),
    }
}

#[test]
fn chips_are_inactivated_then_addressed() {
    let mut chain = chain();
    let commands = chain.enumerate_chips(&bm1387(3)).unwrap();
    assert_eq!(chain.get_chip_count(), 3);
    assert_eq!(
        commands,
        vec![
            ChainCommand::InactivateFromChain,
            ChainCommand::Delay(100),
            ChainCommand::InactivateFromChain,
            ChainCommand::Delay(100),
            ChainCommand::InactivateFromChain,
            ChainCommand::Delay(100),
            ChainCommand::SetChipAddress(0),
            ChainCommand::SetChipAddress(1),
            ChainCommand::SetChipAddress(2),
        ]
    );
}

#[test]
fn full_chain_has_64_chips() {
    let mut c = chain();
    let commands = c.enumerate_chips(&bm1387(64)).unwrap();
    assert_eq!(commands.len(), 70);
    assert_eq!(commands[69], ChainCommand::SetChipAddress(63));
    assert_eq!(c.get_chip_count(), 64);
    let mut c = chain();
    assert_eq!(
        text(c.enumerate_chips(&bm1387(65)).unwrap_err()),
        "detected 65 chips, expected less than 256 chips on 1 chain. Possibly a hardware issue?"
    );
    assert_eq!(c.get_chip_count(), 65);
}

#[test]
fn empty_chain_is_an_error() {
    let mut c = chain();
    assert_eq!(
        text(c.enumerate_chips(&bm1387(0)).unwrap_err()),
        "no chips detected on the current chain"
    );
}

#[test]
fn chips_of_another_revision_are_an_error() {
    let mut c = chain();
    let mut revs = bm1387(12);
    revs[10] = ChipRev { is_bm1387: false, name: "Bm1385".to_string() };
    assert_eq!(
        text(c.enumerate_chips(&revs).unwrap_err()),
        "unexpected revision of chip 10 (expected: Bm1385 received: Bm1387)"
    );
    assert_eq!(c.get_chip_count(), 10);
}

#[test]
fn chips_add_up_over_enumerations() {
    let mut c = chain();
    c.enumerate_chips(&bm1387(30)).unwrap();
    assert_eq!(c.enumerate_chips(&bm1387(20)).unwrap().len(), 56);
    assert_eq!(c.get_chip_count(), 50);
}

#[test]
fn chain_is_initialized_in_order() {
    let head = vec![
        InitStep::RegisterWithMonitor,
        InitStep::SetIpCoreBaudRate(115740),
        InitStep::SetMidstateCount,
        InitStep::InitPower,
        InitStep::DisableIpCore,
        InitStep::ResetPinLow,
        InitStep::DisableVoltage,
        InitStep::Delay(1000),
        InitStep::EnableVoltage,
        InitStep::Delay(2000),
        InitStep::ResetPinHigh,
        InitStep::EnableIpCore,
        InitStep::Delay(1000),
        InitStep::EnumerateChips,
        InitStep::SetChipCount,
        InitStep::SetPllTable,
        InitStep::ConfigureHashChain {
            baud_rate: 1562500,
            not_set_baud: false,
            gate_block: true,
        },
        InitStep::SetIpCoreBaudRate(1562500),
        InitStep::SetAsicDifficulty,
        InitStep::MakeWorkRegistry,
    ];
    let mut c = chain();
    let mut all = head.clone();
    all.push(InitStep::SendInitWork);
    all.push(InitStep::SetInitialVoltage);
    assert_eq!(run_all(c.init(vec![650; 64], VOLTAGE).script), all);
    c.disable_init_work = true;
    let mut all = head;
    all.push(InitStep::SetInitialVoltage);
    assert_eq!(run_all(c.init(vec![650; 64], VOLTAGE).script), all);
}

#[test]
fn initialization_stops_at_the_first_failure() {
    let c = chain();
    for failing in 0..22 {
        let mut script = c.init(vec![650; 64], VOLTAGE).script;
        for _ in 0..failing {
            assert!(matches!(script.report(Reply::Done), Next::Continue));
        }
        let action = script.current().unwrap();
        let next = script.report(Reply::Failed);
        match action {
            InitStep::RegisterWithMonitor => {
                assert!(matches!(next, Next::Stopped(Failure::Panic("send failed"))))
            }
            InitStep::MakeWorkRegistry => {
                assert!(matches!(next, Next::Stopped(Failure::Panic("work-tx io missing"))))
            }
            InitStep::SetInitialVoltage => {
                assert!(matches!(next, Next::Stopped(Failure::Panic("lowering voltage failed"))))
            }
            _ => assert!(matches!(next, Next::Stopped(Failure::Propagate))),
        }
        assert!(script.current().is_none());
    }
}

#[test]
fn frequencies_of_the_chips_are_set_by_table() {
    let mut c = chain();
    c.enumerate_chips(&bm1387(3)).unwrap();
    let mut task = c.set_pll_table(vec![500, 700, 600, 900]);
    let mut loaded = Vec::new();
    while let Some((chip, freq)) = task.next_chip(&c.pll) {
        let too_slow: Result<bool, ()> = c.set_pll(freq, chip, Ok(()));
        loaded.push((chip, freq, too_slow.unwrap()));
    }
    assert_eq!(loaded, vec![(0, 500, true), (1, 700, true), (2, 600, false)]);
    assert_eq!(c.pll.max_freq, Some(700));
    assert_eq!(c.pll.chip_freq[3], None);
    // the same table again changes nothing
    assert_eq!(c.set_pll_table(vec![500, 700, 600]).next_chip(&c.pll), None);
    // one other frequency is one change
    let mut again = c.set_pll_table(vec![500, 800, 600]);
    assert_eq!(again.next_chip(&c.pll), Some((1, 800)));
    assert_eq!(c.set_pll(800, 1, Err("no answer")), Err("no answer"));
    assert_eq!(c.pll.chip_freq[1], Some(700));
}

#[test]
fn frequency_of_one_chip_is_set() {
    let mut c = chain();
    c.enumerate_chips(&bm1387(2)).unwrap();
    assert_eq!(c.set_pll(650, 1, Ok::<(), &str>(())), Ok(true));
    assert_eq!(c.pll.chip_freq[1], Some(650));
    assert_eq!(c.set_pll(650, 1, Err("not asked")), Ok(false));
    assert_eq!(c.set_pll(600, 0, Err("no answer")), Err("no answer"));
    assert_eq!(c.pll.chip_freq[0], None);
    assert_eq!(c.set_pll(600, 0, Ok::<(), &str>(())), Ok(false));
    assert_eq!(c.pll.max_freq, Some(650));
}

/// Performs all steps up to one.
fn init_up_to(c: &mut HashChain, init: &mut ChainInit, chips: usize, until: Option<InitStep>) {
    while let Some(step) = init.current() {
        if Some(step) == until {
            return;
        }
        match step {
            InitStep::InitPower => {
                let mut power = c.power_station.init(3);
                while let Some(step) = power.current() {
                    match step {
                        PowerStep::CheckVersion => {
                            power.check_version(&c.power_station, 3).unwrap();
                        }
                        PowerStep::SetVoltage(_) => {
                            power.set_voltage(&mut c.power_station, Ok::<(), ()>(())).unwrap();
                        }
                        _ => {
                            power.report(&c.power_station, true);
                        }
                    }
                }
                assert!(power.is_complete());
                init.power_initialized(c, &power);
            }
            InitStep::SendInitWork => {
                // the cores are opened at high voltage
                assert_eq!(c.power_station.current_voltage.unwrap().bits, 9.4f32.to_bits());
                init.report(c, true);
            }
            InitStep::EnumerateChips => {
                init.enumerate_chips(c, &bm1387(chips)).unwrap();
            }
            InitStep::SetChipCount => {
                assert_eq!(init.tell_chip_count(c), chips);
            }
            InitStep::SetPllTable => {
                while init.next_chip(c).is_some() {
                    init.set_pll(c, Ok::<(), ()>(())).unwrap();
                }
            }
            InitStep::MakeWorkRegistry => {
                assert_eq!(init.size_registry(c, 4096), 4096);
            }
            InitStep::SetInitialVoltage => {
                init.set_voltage(c, Ok::<(), ()>(())).unwrap();
            }
            _ => {
                init.report(c, true);
            }
        }
    }
}

#[test]
fn completed_initialization_leaves_its_values() {
    for disable_init_work in [false, true] {
        let mut c = chain();
        c.disable_init_work = disable_init_work;
        let mut init = c.init(vec![500, 700, 600, 900], VOLTAGE);
        assert_eq!(init.finish(&c), None);
        init_up_to(&mut c, &mut init, 3, None);
        assert_eq!(init.finish(&c), Some(4096));
        assert_eq!(init.told_chip_count, Some(3));
        assert_eq!(c.get_chip_count(), 3);
        assert_eq!(&c.pll.chip_freq[..4], &[Some(500), Some(700), Some(600), None]);
        assert_eq!(c.power_station.current_voltage.unwrap().bits, VOLTAGE.bits);
    }
}

#[test]
fn initialization_fails_without_chips() {
    let mut c = chain();
    let mut init = c.init(vec![500; 64], VOLTAGE);
    init_up_to(&mut c, &mut init, 0, Some(InitStep::EnumerateChips));
    assert_eq!(
        text(init.enumerate_chips(&mut c, &vec![]).unwrap_err()),
        "no chips detected on the current chain"
    );
    assert!(matches!(init.stopped, Some(Failure::Propagate)));
    assert!(init.current().is_none());
    assert_eq!(init.finish(&c), None);
}

#[test]
fn initialization_fails_when_a_chip_does_not_take_its_frequency() {
    let mut c = chain();
    let mut init = c.init(vec![500, 600], VOLTAGE);
    init_up_to(&mut c, &mut init, 2, Some(InitStep::SetPllTable));
    assert_eq!(init.next_chip(&c), Some((0, 500)));
    assert_eq!(init.set_pll(&mut c, Ok::<(), u8>(())), Ok(true));
    assert_eq!(init.next_chip(&c), Some((1, 600)));
    assert_eq!(init.set_pll(&mut c, Err(7u8)), Err(7));
    assert!(matches!(init.stopped, Some(Failure::Propagate)));
    assert_eq!(init.finish(&c), None);
    assert_eq!(&c.pll.chip_freq[..2], &[Some(500), None]);
}

#[test]
fn initialization_fails_when_the_voltage_is_refused() {
    let mut c = chain();
    let mut init = c.init(vec![500, 600], VOLTAGE);
    init_up_to(&mut c, &mut init, 2, Some(InitStep::SetInitialVoltage));
    assert_eq!(init.set_voltage(&mut c, Err(7u8)), Err(7));
    assert!(matches!(init.stopped, Some(Failure::Panic("lowering voltage failed"))));
    assert_eq!(init.finish(&c), None);
    assert_eq!(c.power_station.current_voltage.unwrap().bits, 9.4f32.to_bits());
}

#[test]
fn initialization_stops_at_a_reported_failure() {
    let c = chain();
    let mut init = c.init(vec![500], VOLTAGE);
    assert!(matches!(
        init.report(&c, false),
        Next::Stopped(Failure::Panic("send failed"))
    ));
    assert!(matches!(init.stopped, Some(Failure::Panic("send failed"))));
    assert!(init.current().is_none());
}
