use bosminer_am1_s9::script::{Failure, Next, Reply};
use bosminer_am1_s9::stats::{
    account_accepted, default_time_mean_intervals, mining_task, Meter, Mining, MiningStep,
};
use std::time::{Duration, Instant};

fn meter(intervals: &Vec<u128>) -> Meter<u32, Vec<u128>> {
    Meter::new(intervals, &|| 0u32, &|interval: u128| vec![interval])
}

#[test]
fn default_intervals_are_seconds_to_a_day() {
    let secs = [5u64, 60, 300, 900, 86_400];
    let ns: Vec<u128> = secs.iter().map(|s| Duration::from_secs(*s).as_nanos()).collect();
    assert_eq!(default_time_mean_intervals(), ns);
}

#[test]
fn meter_has_a_mean_for_each_interval() {
    let m = meter(&vec![5, 60, 5]);
    assert_eq!(*m.shares(), 0);
    let intervals: Vec<u128> = m.time_means().iter().map(|t| t.interval).collect();
    assert_eq!(intervals, vec![5, 60, 5]);
    assert_eq!(m.time_means[1].mean, vec![60]);
}

#[test]
fn default_meter_has_the_default_intervals() {
    let m: Meter<u32, u128> = Meter::default(&|| 4, &|interval| interval + 1);
    assert_eq!(m.shares, 4);
    let intervals: Vec<u128> = m.time_means.iter().map(|t| t.interval).collect();
    assert_eq!(intervals, default_time_mean_intervals());
    assert_eq!(m.time_means[0].mean, 5_000_000_001);
}

#[test]
fn solution_is_accounted_in_shares_and_means() {
    let m = meter(&vec![5, 60, 7]).account_solution(&|s| s + 3, &|mut mean: Vec<u128>| {
        mean.push(1000);
        mean
    });
    assert_eq!(m.shares, 3);
    let means: Vec<Vec<u128>> = m.time_means.iter().map(|t| t.mean.clone()).collect();
    assert_eq!(means, vec![vec![5, 1000], vec![60, 1000], vec![7, 1000]]);
    assert_eq!(m.find_time_mean(7), Some(2));
}

#[test]
fn first_mean_of_an_interval_is_found() {
    let m = meter(&vec![5, 60, 5]);
    assert_eq!(m.find_time_mean(5), Some(0));
    assert_eq!(m.find_time_mean(60), Some(1));
    assert_eq!(m.find_time_mean(6), None);
    assert_eq!(meter(&vec![]).find_time_mean(5), None);
}

#[test]
fn mining_has_three_meters() {
    let t = Instant::now();
    let m: Mining<u32, u128> = Mining::new(t, &vec![5, 60], &|| 9, &|interval| interval);
    assert_eq!(m.start_time, t);
    for meter in [&m.accepted, &m.rejected, &m.backend_error] {
        assert_eq!(meter.shares, 9);
        assert_eq!(meter.time_means.len(), 2);
        assert_eq!(meter.time_means[1].mean, 60);
    }
    let m = m.accept(&|s| s + 1, &|mean| mean + 1);
    assert_eq!((m.accepted.shares, m.rejected.shares, m.backend_error.shares), (10, 9, 9));
    assert_eq!(m.accepted.time_means[0].mean, 6);
    assert_eq!(m.start_time, t);
}

#[test]
fn accepted_solution_is_accounted_in_each_node_of_a_path() {
    let t = Instant::now();
    let node = |shares: u32| -> Mining<u32, u128> {
        Mining::new(t, &vec![5, 60], &|| shares, &|interval| interval)
    };
    let path = account_accepted(vec![node(1), node(10), node(100)], &|s| s + 2, &|m| m + 7);
    let accepted: Vec<u32> = path.iter().map(|n| n.accepted.shares).collect();
    let rejected: Vec<u32> = path.iter().map(|n| n.rejected.shares).collect();
    assert_eq!(accepted, vec![3, 12, 102]);
    assert_eq!(rejected, vec![1, 10, 100]);
    for n in &path {
        let means: Vec<u128> = n.accepted.time_means.iter().map(|m| m.mean).collect();
        assert_eq!(means, vec![12, 67]);
        assert_eq!(n.backend_error.time_means[0].mean, 5);
        assert_eq!(n.start_time, t);
    }
    let nowhere: Vec<Mining<u32, u128>> = account_accepted(vec![], &|s| s, &|m| m);
    assert!(nowhere.is_empty());
}

#[test]
fn mining_starts_now_by_default() {
    let before = Instant::now();
    let m: Mining<u32, u128> = Mining::default(&|| 0, &|interval| interval);
    assert!(m.start_time >= before);
    assert_eq!(m.rejected.time_means.len(), 5);
    assert_eq!(m.backend_error.time_means[4].interval, 86_400_000_000_000);
}

#[test]
fn hash_rate_is_reported_every_second() {
    let mut script = mining_task();
    let mut actions = Vec::new();
    for _ in 0..4 {
        actions.push(script.current().unwrap());
        script.report(Reply::Done);
    }
    assert_eq!(
        actions,
        vec![
            MiningStep::Delay(1000),
            MiningStep::FindTimeMean,
            MiningStep::ReportHashRate,
            MiningStep::Delay(1000),
        ]
    );
    assert!(matches!(
        script.report(Reply::Failed),
        Next::Stopped(Failure::Panic("cannot find given time interval"))
    ));
}
