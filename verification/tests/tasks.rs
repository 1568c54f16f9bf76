use bosminer_am1_s9::backend::{Backend, BackendArgs};
use bosminer_am1_s9::counter::{CoreAddress, CoreCounter, HashChainCounter};
use bosminer_am1_s9::halt::{do_stop, is_halt, StopStep};
use bosminer_am1_s9::manager::{
    make_managers, node_name, start_managers, start_miner, ChainStopStep, HashChainManager,
    HashChainParams, MinerStep, ParamStep, StartStep,
};
use bosminer_am1_s9::midstate::MidstateCount;
use bosminer_am1_s9::monitor::{
    hashrate_monitor_task, temperature_monitor_task, total_hashrate, HashrateStep, TemperatureStep,
};
use bosminer_am1_s9::power::Voltage;
use bosminer_am1_s9::script::{Failure, Next, Reply, Script};
use bosminer_am1_s9::text::push_decimal;
use bosminer_am1_s9::work::{
    send_init_work, skips_insert, solution_rx_task, work_tx_task, InitWorkStep, InsertStatus, Solution,
    SolutionRxStep, WorkLookup, WorkTxStep,
};

fn first<A: Copy>(mut script: Script<A>, n: usize) -> Vec<A> {
    let mut actions = Vec::new();
    while actions.len() < n {
        match script.current() {
            Some(action) => actions.push(action),
            None => break,
        }
        script.report(Reply::Done);
    }
    actions
}

fn inserted(unique: bool, duplicate: bool, mismatched_nonce: bool) -> WorkLookup {
    WorkLookup::Inserted(InsertStatus { unique, duplicate, mismatched_nonce })
}

#[test]
fn decimal_numbers() {
    for n in [0usize, 7, 9, 10, 99, 100, 12345, usize::MAX] {
        let mut text = "n = ".to_string();
        push_decimal(&mut text, n);
        assert_eq!(text, format!("n = {}", n));
    }
}

#[test]
fn solution_accessors() {
    let s = Solution { nonce: 0xdead_beef, midstate_idx: 2, solution_idx: 1, hardware_id: 77 };
    assert_eq!((s.nonce(), s.midstate_idx(), s.solution_idx()), (0xdead_beef, 2, 1));
    assert_eq!(s.hardware_id, 77);
}

#[test]
fn solutions_are_counted() {
    let at = CoreAddress { chip: 1, core: 3 };
    for (lookup, meets, forwarded, valid, errors) in [
        (inserted(true, false, false), true, true, 1, 0),
        (inserted(true, false, false), false, true, 0, 1),
        (inserted(true, false, true), true, true, 1, 1),
        (inserted(true, false, true), false, true, 0, 2),
        (inserted(true, true, false), true, false, 0, 1),
        (inserted(false, true, true), true, false, 0, 2),
        (inserted(false, false, false), true, false, 0, 0),
        (inserted(false, false, true), false, false, 0, 1),
        (WorkLookup::InitialWork, true, false, 0, 0),
        (WorkLookup::Missing, false, false, 0, 0),
    ] {
        let mut counter = HashChainCounter::new(2);
        assert_eq!(lookup.is_forwarded(), forwarded);
        assert_eq!(lookup.account(meets, at, &mut counter), forwarded);
        assert_eq!((counter.valid, counter.errors), (valid, errors));
        assert_eq!(counter.chip[1].core[3], CoreCounter { valid, errors });
        let mut counter = HashChainCounter::new(1);
        lookup.account(meets, at, &mut counter);
        assert_eq!((counter.valid, counter.errors), (0, 0));
    }
}

#[test]
fn solutions_without_work_and_of_initial_work_are_left_alone() {
    assert_eq!(skips_insert(false, false), Some(WorkLookup::Missing));
    assert_eq!(skips_insert(false, true), Some(WorkLookup::Missing));
    assert_eq!(skips_insert(true, true), Some(WorkLookup::InitialWork));
    assert_eq!(skips_insert(true, false), None);
}

#[test]
fn solutions_are_countable_up_to_the_limit() {
    let at = CoreAddress { chip: 0, core: 3 };
    let mut counter = HashChainCounter::new(1);
    counter.errors = usize::MAX - 1;
    assert!(inserted(true, false, false).is_countable(false, at, &counter));
    assert!(inserted(false, true, false).is_countable(false, at, &counter));
    assert!(!inserted(false, true, true).is_countable(false, at, &counter));
    assert!(!inserted(true, false, true).is_countable(false, at, &counter));
    assert!(inserted(true, false, true).is_countable(true, at, &counter));
    assert!(WorkLookup::Missing.is_countable(true, at, &counter));
    counter.valid = usize::MAX;
    assert!(!inserted(true, false, false).is_countable(true, at, &counter));
    assert!(inserted(true, true, false).is_countable(true, at, &counter));
    let beyond = CoreAddress { chip: 0, core: 128 };
    assert!(!inserted(false, true, false).is_countable(true, beyond, &HashChainCounter::new(1)));
    let elsewhere = CoreAddress { chip: 1, core: 128 };
    assert!(inserted(true, false, true).is_countable(true, elsewhere, &counter));
}

#[test]
fn each_core_gets_one_initial_work() {
    let actions = first(send_init_work(), 1000);
    assert_eq!(actions.len(), 1 + 4 * 114);
    assert_eq!(actions[0], InitWorkStep::LockTxFifo);
    for k in 0..114 {
        assert_eq!(
            &actions[1 + 4 * k..5 + 4 * k],
            &[
                InitWorkStep::PrepareOpenCore,
                InitWorkStep::StoreInitialWork,
                InitWorkStep::WaitForRoom,
                InitWorkStep::SendWork,
            ]
        );
    }
}

#[test]
fn initial_work_must_be_sent() {
    let mut script = send_init_work();
    assert!(matches!(
        script.report(Reply::Failed),
        Next::Stopped(Failure::Panic("tx fifo missing"))
    ));
    let mut script = send_init_work();
    for _ in 0..3 {
        script.report(Reply::Done);
    }
    assert!(matches!(
        script.report(Reply::Failed),
        Next::Stopped(Failure::Panic("wait for tx room"))
    ));
    let mut script = send_init_work();
    for _ in 0..4 {
        script.report(Reply::Done);
    }
    assert!(matches!(
        script.report(Reply::Failed),
        Next::Stopped(Failure::Panic("send work"))
    ));
}

#[test]
fn work_is_sent_until_the_generator_is_exhausted() {
    let round = [
        WorkTxStep::WaitForRoom,
        WorkTxStep::GenerateWork,
        WorkTxStep::StoreWork,
        WorkTxStep::SendWork,
    ];
    let actions = first(work_tx_task(), 401);
    assert_eq!(actions.len(), 401);
    assert_eq!(actions[0], WorkTxStep::TakeTxFifo);
    for chunk in actions[1..].chunks(4) {
        assert_eq!(chunk, &round);
    }
    let mut script = work_tx_task();
    script.report(Reply::Done);
    script.report(Reply::Done);
    assert_eq!(script.current(), Some(WorkTxStep::GenerateWork));
    assert!(matches!(script.report(Reply::Exhausted), Next::Finished));
    assert_eq!(script.current(), None);
}

#[test]
fn solutions_are_received_forever() {
    let actions = first(solution_rx_task(), 5);
    assert_eq!(
        actions,
        vec![
            SolutionRxStep::TakeRxFifo,
            SolutionRxStep::ReceiveSolution,
            SolutionRxStep::AccountSolution,
            SolutionRxStep::ReceiveSolution,
            SolutionRxStep::AccountSolution,
        ]
    );
    let mut script = solution_rx_task();
    script.report(Reply::Done);
    assert!(matches!(
        script.report(Reply::Failed),
        Next::Stopped(Failure::Panic("recv solution failed"))
    ));
}

#[test]
fn temperature_is_read_again_and_again() {
    assert_eq!(
        first(temperature_monitor_task(), 11),
        vec![
            TemperatureStep::Delay(5000),
            TemperatureStep::OpenBus(61),
            TemperatureStep::ProbeSensors,
            TemperatureStep::TakeSensor,
            TemperatureStep::InitSensor,
            TemperatureStep::ReadTemperature,
            TemperatureStep::ReportTemperature,
            TemperatureStep::Delay(5000),
            TemperatureStep::ReadTemperature,
            TemperatureStep::ReportTemperature,
            TemperatureStep::Delay(5000),
        ]
    );
    let mut script = temperature_monitor_task();
    for _ in 0..3 {
        script.report(Reply::Done);
    }
    assert!(matches!(
        script.report(Reply::Failed),
        Next::Stopped(Failure::Panic("no sensors found"))
    ));
}

#[test]
fn hashrates_are_summed_up() {
    assert_eq!(
        first(hashrate_monitor_task(), 4),
        vec![
            HashrateStep::Delay(5000),
            HashrateStep::ReadHashrates,
            HashrateStep::ReportTotal,
            HashrateStep::Delay(5000),
        ]
    );
    assert_eq!(total_hashrate(&vec![]), 0);
    assert_eq!(total_hashrate(&vec![1, 20, 300]), 321);
    assert_eq!(total_hashrate(&vec![u64::MAX; 3]), 3 * u64::MAX as u128);
}

#[test]
fn halt_condition() {
    assert!(is_halt(None));
    assert!(is_halt(Some(true)));
    assert!(!is_halt(Some(false)));
    assert_eq!(first(do_stop(), 9), vec![StopStep::Broadcast, StopStep::Delay(2000)]);
    assert!(matches!(
        do_stop().report(Reply::Failed),
        Next::Stopped(Failure::Panic("restart broadcasting failed"))
    ));
}

fn manager() -> HashChainManager<&'static str> {
    HashChainManager::new(8, MidstateCount::new(1), 64, 650, Voltage { bits: 1 })
}

#[test]
fn chain_is_started_and_stopped() {
    let mut hm = manager();
    assert!(!hm.chain_is_running());
    let steps = first(hm.start(), 9);
    assert_eq!(steps.len(), 5);
    match steps[0] {
        StartStep::MakeHashChain { hashboard_idx, midstate_count, asic_difficulty } => {
            assert_eq!((hashboard_idx, midstate_count.to_count(), asic_difficulty), (8, 1, 64));
        }
        other => panic!("{:?}", other),
    }
    assert!(matches!(steps[1], StartStep::MakeHaltPair));
    assert!(matches!(steps[2], StartStep::MakeCounter { chip_count: 64 }));
    match steps[3] {
        StartStep::InitHashChain(params) => {
            assert_eq!(params.pll_frequency, vec![650; 64]);
            assert_eq!(params.voltage.bits, 1);
        }
        other => panic!("{:?}", other),
    }
    assert!(matches!(steps[4], StartStep::StartTasks));
    assert!(matches!(
        hm.start().report(Reply::Failed),
        Next::Stopped(Failure::Panic("hashchain instantiation failed"))
    ));
    hm.started("chain");
    assert!(hm.chain_is_running());
    let mut script = hm.stop();
    assert_eq!(script.current(), Some(ChainStopStep::Halt(StopStep::Broadcast)));
    assert!(matches!(script.report(Reply::Done), Next::Continue));
    assert_eq!(script.current(), Some(ChainStopStep::Halt(StopStep::Delay(2000))));
    assert!(matches!(script.report(Reply::Done), Next::Continue));
    assert_eq!(script.current(), Some(ChainStopStep::DropChain));
    assert!(hm.chain_is_running());
    assert_eq!(hm.drop_chain(&mut script), "chain");
    assert!(script.current().is_none());
    assert!(!hm.chain_is_running());
    assert_eq!((hm.hashboard_idx, hm.asic_difficulty), (8, 64));
    assert_eq!(hm.params.pll_frequency, vec![650; 64]);
}

#[test]
fn params_of_a_running_chain_are_changed_live() {
    let mut hm = manager();
    let params = HashChainParams { pll_frequency: vec![1, 2], voltage: Voltage { bits: 5 } };
    assert!(first(hm.set_params(&params), 9).is_empty());
    assert_eq!(hm.params.pll_frequency, vec![1, 2]);
    hm.started("chain");
    let params = HashChainParams { pll_frequency: vec![3], voltage: Voltage { bits: 6 } };
    let mut script = hm.set_params(&params);
    assert!(matches!(script.current(), Some(ParamStep::SetVoltage(Voltage { bits: 6 }))));
    assert!(matches!(script.report(Reply::Done), Next::Continue));
    match script.current() {
        Some(ParamStep::SetPllTable(table)) => assert_eq!(*table, vec![3]),
        other => panic!("{:?}", other),
    }
    assert!(matches!(script.report(Reply::Failed), Next::Stopped(Failure::Propagate)));
    assert_eq!(hm.params.pll_frequency, vec![3]);
    assert_eq!(hm.params.voltage.bits, 6);
    assert!(hm.chain_is_running());
}

#[test]
fn each_enabled_chain_gets_a_manager() {
    let hms: Vec<HashChainManager<u8>> =
        make_managers(&vec![8, 6, 7], 4, 64, 600, Voltage { bits: 9 });
    assert_eq!(hms.iter().map(|h| h.hashboard_idx).collect::<Vec<_>>(), vec![8, 6, 7]);
    assert!(hms.iter().all(|h| h.midstate_count.to_count() == 4
        && h.params.pll_frequency == vec![600; 64]
        && h.params.voltage.bits == 9
        && h.runtime.is_none()));
    let none: Vec<HashChainManager<u8>> = make_managers(&vec![], 3, 64, 600, Voltage { bits: 9 });
    assert!(none.is_empty());
    assert!(start_managers(&none).current().is_none());
    assert_eq!(node_name(8), "Antminer S9 - Hashboard 8");
}

#[test]
fn each_manager_is_started_once_in_order() {
    let (hms, mut script): (Vec<HashChainManager<u8>>, Script<MinerStep>) =
        start_miner(&vec![8, 6], 2, 64, 600, Voltage { bits: 9 });
    assert_eq!(hms.iter().map(|h| h.hashboard_idx).collect::<Vec<_>>(), vec![8, 6]);
    assert_eq!(script.current(), Some(MinerStep { manager: 0, hashboard_idx: 8 }));
    assert!(matches!(script.report(Reply::Done), Next::Continue));
    assert_eq!(script.current(), Some(MinerStep { manager: 1, hashboard_idx: 6 }));
    assert!(matches!(script.report(Reply::Done), Next::Finished));
    assert!(matches!(
        start_managers(&hms).report(Reply::Failed),
        Next::Stopped(Failure::Panic("failed to start hashchain"))
    ));
}

#[test]
fn command_line_overrides_the_defaults() {
    let mut backend = Backend::new(650, Voltage { bits: 1 });
    let none = BackendArgs { disable_asic_boost: false, pll_frequency: None, voltage: None };
    assert_eq!(backend.init(&none), None);
    assert_eq!((backend.pll_frequency, backend.voltage.bits), (650, 1));
    let all = BackendArgs {
        disable_asic_boost: true,
        pll_frequency: Some("700".to_string()),
        voltage: Some(Voltage { bits: 2 }),
    };
    assert!(none.is_valid() && all.is_valid());
    assert_eq!(backend.init(&all), Some(1));
    assert_eq!((backend.pll_frequency, backend.voltage.bits), (700, 2));
    assert_eq!(backend.name(), "Bitmain Antminer S9");
}

#[test]
fn chip_frequency_is_read_from_text() {
    let args = |text: &str| BackendArgs {
        disable_asic_boost: false,
        pll_frequency: Some(text.to_string()),
        voltage: None,
    };
    let mut max = String::new();
    push_decimal(&mut max, usize::MAX);
    let good = [("0", 0), ("650000000", 650_000_000), ("+17", 17), ("000000000000000000000012", 12)];
    for (text, freq) in good.into_iter().chain([(max.as_str(), usize::MAX)]) {
        let mut backend = Backend::new(1, Voltage { bits: 1 });
        assert!(args(text).is_valid(), "{}", text);
        assert_eq!(backend.init(&args(text)), None);
        assert_eq!(backend.pll_frequency, freq);
        assert_eq!(backend.voltage.bits, 1);
    }
    max.push('0');
    for text in ["", "+", "-1", "-0", "++1", " 1", "1 ", "1.0", "0x10", "1_000", "\u{661}", &max] {
        assert!(!args(text).is_valid(), "{}", text);
    }
}
