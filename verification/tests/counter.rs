use bosminer_am1_s9::counter::{
    ChipCounter, CoreAddress, CoreCounter, HashChainCounter, CORE_ADR_SPACE_SIZE, NUM_CORES_ON_CHIP,
};
use std::time::Instant;

fn addr(chip: usize, core: usize) -> CoreAddress {
    CoreAddress { chip, core }
}

#[test]
fn core_counter_starts_and_resets_at_zero() {
    let mut core = CoreCounter::new();
    assert_eq!(core, CoreCounter { valid: 0, errors: 0 });
    core.valid = 3;
    core.errors = 4;
    core.reset();
    assert_eq!(core, CoreCounter { valid: 0, errors: 0 });
}

#[test]
fn chip_counter_reads_the_clock() {
    let before = Instant::now();
    let mut chip = ChipCounter::new();
    assert!(chip.started >= before);
    let first = chip.started;
    chip.valid = 1;
    chip.core[5].valid = 1;
    chip.reset();
    assert!(chip.started >= first);
    assert_eq!((chip.valid, chip.errors), (0, 0));
    assert!(chip.core.iter().all(|c| c.valid == 0 && c.errors == 0));
}

#[test]
fn chip_counter_takes_the_given_time() {
    let t0 = Instant::now();
    let t1 = Instant::now();
    let mut chip = ChipCounter::new_at(t1);
    assert_eq!(chip.started, t1);
    chip.reset_at(t0);
    assert_eq!(chip.started, t0);
}

#[test]
fn bitmask_has_a_bit_for_each_core_with_nonces() {
    let mut chip = ChipCounter::new();
    assert_eq!(chip.core_bitmask(), 0);
    chip.core[0].valid = 1;
    chip.core[56].valid = 7;
    chip.core[64].valid = 1;
    chip.core[127].valid = 2;
    chip.core[9].errors = 5;
    assert_eq!(
        chip.core_bitmask(),
        1u128 | (1u128 << 56) | (1u128 << 64) | (1u128 << 127)
    );
}

#[test]
fn all_cores_of_a_new_chip_are_dead() {
    assert_eq!(ChipCounter::new().dead_cores(), NUM_CORES_ON_CHIP);
}

#[test]
fn a_nonce_revives_a_core_and_its_neighbours() {
    let mut chip = ChipCounter::new();
    chip.core[10].valid = 1;
    assert_eq!(chip.dead_cores(), 111);
    // address 57 belongs to no core, but its neighbour 56 does
    chip.core[57].valid = 1;
    assert_eq!(chip.dead_cores(), 110);
    chip.core[0].valid = 1;
    assert_eq!(chip.dead_cores(), 108);
    // address 63 belongs to no core, but its neighbour 64 does
    chip.core[63].valid = 1;
    assert_eq!(chip.dead_cores(), 107);
    chip.core[60].valid = 1;
    chip.core[124].valid = 1;
    assert_eq!(chip.dead_cores(), 107);
}

#[test]
fn no_core_is_dead_when_all_found_nonces() {
    let mut chip = ChipCounter::new();
    for core in chip.core.iter_mut() {
        core.valid = 1;
    }
    assert_eq!(chip.dead_cores(), 0);
    assert_eq!(chip.core_bitmask(), u128::MAX);
}

#[test]
fn every_third_core_suffices() {
    let mut chip = ChipCounter::new();
    for i in 0..19 {
        chip.core[1 + 3 * i].valid = 1;
        chip.core[65 + 3 * i].valid = 1;
    }
    assert_eq!(chip.dead_cores(), 0);
}

#[test]
fn chain_counter_starts_empty() {
    let before = Instant::now();
    let chain = HashChainCounter::new(3);
    assert!(chain.started >= before);
    assert_eq!(chain.chip.len(), 3);
    assert_eq!((chain.valid, chain.errors), (0, 0));
    assert_eq!(chain.chip[0].started, chain.chip[2].started);
    assert!(chain.chip.iter().all(|c| c.valid == 0 && c.errors == 0));
    assert_eq!(HashChainCounter::new(0).chip.len(), 0);
}

#[test]
fn chain_counter_takes_the_given_times() {
    let t0 = Instant::now();
    let t1 = Instant::now();
    let chain = HashChainCounter::new_at(2, t1, t0);
    assert_eq!(chain.started, t1);
    assert_eq!(chain.chip[1].started, t0);
}

#[test]
fn nonces_and_errors_are_counted_on_each_level() {
    let mut chain = HashChainCounter::new(2);
    chain.add_valid(addr(1, 7));
    chain.add_valid(addr(1, 7));
    chain.add_valid(addr(0, 127));
    chain.add_error(addr(1, 7));
    assert_eq!((chain.valid, chain.errors), (3, 1));
    assert_eq!((chain.chip[0].valid, chain.chip[0].errors), (1, 0));
    assert_eq!((chain.chip[1].valid, chain.chip[1].errors), (2, 1));
    assert_eq!(chain.chip[1].core[7], CoreCounter { valid: 2, errors: 1 });
    assert_eq!(chain.chip[0].core[127], CoreCounter { valid: 1, errors: 0 });
    assert_eq!(chain.chip[0].core[7], CoreCounter { valid: 0, errors: 0 });
}

#[test]
fn nonces_of_chips_that_do_not_exist_are_ignored() {
    let mut chain = HashChainCounter::new(2);
    chain.add_valid(addr(2, 7));
    chain.add_error(addr(63, 500));
    assert_eq!((chain.valid, chain.errors), (0, 0));
}

#[test]
fn sums_stay_consistent() {
    let mut chain = HashChainCounter::new(4);
    for i in 0..1000usize {
        let a = addr(i % 5, (i * 37) % CORE_ADR_SPACE_SIZE);
        if i % 3 == 0 {
            chain.add_error(a);
        } else {
            chain.add_valid(a);
        }
    }
    assert_eq!(chain.valid, chain.chip.iter().map(|c| c.valid).sum::<usize>());
    assert_eq!(chain.errors, chain.chip.iter().map(|c| c.errors).sum::<usize>());
    for chip in chain.chip.iter() {
        assert_eq!(chip.valid, chip.core.iter().map(|c| c.valid).sum::<usize>());
        assert_eq!(chip.errors, chip.core.iter().map(|c| c.errors).sum::<usize>());
    }
    assert_eq!(chain.valid + chain.errors, 800);
}

#[test]
fn chain_counter_resets() {
    let mut chain = HashChainCounter::new(2);
    chain.add_valid(addr(0, 1));
    chain.add_error(addr(1, 2));
    let first = chain.started;
    let copy = chain.clone();
    chain.reset();
    assert!(chain.started >= first);
    assert_eq!((chain.valid, chain.errors, chain.chip.len()), (0, 0, 2));
    assert_eq!(chain.chip[0].core[1].valid, 0);
    assert_eq!(chain.chip[1].errors, 0);
    assert_eq!((copy.valid, copy.errors, copy.started), (1, 1, first));
    let t = Instant::now();
    let times = vec![t, first];
    chain.reset_at(first, &times);
    assert_eq!((chain.started, chain.chip[0].started, chain.chip[1].started), (first, t, first));
}
