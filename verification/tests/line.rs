use bosminer_am1_s9::baud::{
    calc_baud_clock_div, CHIP_OSC_CLK_HZ, FPGA_IPCORE_F_CLK_BASE_BAUD_DIV,
    FPGA_IPCORE_F_CLK_SPEED_HZ, INIT_CHIP_BAUD_RATE, TARGET_CHIP_BAUD_RATE,
};
use bosminer_am1_s9::chain::{HashChain, MiscCtrl};
use bosminer_am1_s9::error::ErrorKind;

fn text(e: ErrorKind) -> String {
    match e {
        ErrorKind::BaudRate(text) => text,
        other => panic!("{:?}", other),
    }
}

#[test]
fn initial_and_target_rates_of_the_fpga_are_exact() {
    let c = FPGA_IPCORE_F_CLK_SPEED_HZ;
    let d = FPGA_IPCORE_F_CLK_BASE_BAUD_DIV;
    assert_eq!(calc_baud_clock_div(INIT_CHIP_BAUD_RATE, c, d).unwrap(), (26, 115740));
    assert_eq!(calc_baud_clock_div(TARGET_CHIP_BAUD_RATE, c, d).unwrap(), (1, 1562500));
    assert_eq!(HashChain::set_ip_core_baud_rate(INIT_CHIP_BAUD_RATE).unwrap(), 26);
    assert_eq!(HashChain::set_ip_core_baud_rate(TARGET_CHIP_BAUD_RATE).unwrap(), 1);
}

#[test]
fn initial_and_target_rates_of_the_chips_are_exact() {
    assert_eq!(
        calc_baud_clock_div(INIT_CHIP_BAUD_RATE, CHIP_OSC_CLK_HZ, 8).unwrap(),
        (26, 115740)
    );
    assert_eq!(
        calc_baud_clock_div(TARGET_CHIP_BAUD_RATE, CHIP_OSC_CLK_HZ, 8).unwrap(),
        (1, 1562500)
    );
}

#[test]
fn divisor_is_rounded() {
    // 50e6 / (16 * 115200) = 27.13
    assert_eq!(calc_baud_clock_div(115200, 50_000_000, 16).unwrap(), (26, 115740));
    // 100 / (1 * 40) = 2.5, rounded up
    assert!(calc_baud_clock_div(40, 100, 1).is_err());
    // 1000 / 10.1 = 99.0
    assert_eq!(calc_baud_clock_div(10, 1000, 1).unwrap(), (99, 10));
    // 10000 / 97 = 103.09
    assert_eq!(calc_baud_clock_div(97, 10000, 1).unwrap(), (102, 97));
}

#[test]
fn rates_that_are_too_far_off_are_refused() {
    // 50e6 / (16 * 2_300_000) = 1.36: the line would run at 3125000
    assert_eq!(
        text(calc_baud_clock_div(2_300_000, 50_000_000, 16).unwrap_err()),
        "requested 2300000 baud, resulting 3125000 baud"
    );
    assert_eq!(
        text(HashChain::set_ip_core_baud_rate(6_250_000).unwrap_err()),
        "requested 6250000 baud, resulting 3125000 baud"
    );
    assert_eq!(
        text(calc_baud_clock_div(40, 100, 1).unwrap_err()),
        "requested 40 baud, resulting 33 baud"
    );
}

#[test]
fn rates_out_of_reach_are_refused() {
    assert_eq!(
        text(calc_baud_clock_div(7_000_000, 25_000_000, 8).unwrap_err()),
        "requested 7000000 baud, resulting 3125000 baud"
    );
    // twice the base clock is the last that is rounded to it
    assert_eq!(
        text(calc_baud_clock_div(200, 100, 1).unwrap_err()),
        "requested 200 baud, resulting 100 baud"
    );
    assert_eq!(
        text(calc_baud_clock_div(201, 100, 1).unwrap_err()),
        "requested 201 baud, resulting 100 baud"
    );
    assert_eq!(
        text(calc_baud_clock_div(usize::MAX, 25_000_000, 8).unwrap_err()),
        format!("requested {} baud, resulting 3125000 baud", usize::MAX)
    );
    assert!(calc_baud_clock_div(1, 0, 1).is_err());
    assert_eq!(
        text(HashChain::set_ip_core_baud_rate(6_250_001).unwrap_err()),
        "requested 6250001 baud, resulting 3125000 baud"
    );
    assert_eq!(
        text(HashChain::configure_hash_chain(7_000_000, false, true, 8).unwrap_err()),
        "requested 7000000 baud, resulting 3125000 baud"
    );
}

#[test]
fn five_percent_are_tolerated() {
    // the actual rate is 100 in each case
    assert_eq!(calc_baud_clock_div(105, 100, 1).unwrap(), (0, 100));
    assert_eq!(calc_baud_clock_div(96, 100, 1).unwrap(), (0, 100));
    assert!(calc_baud_clock_div(106, 100, 1).is_err());
    assert!(calc_baud_clock_div(95, 100, 1).is_err());
}

#[test]
fn accepted_rates_are_within_a_twentieth() {
    for baud in (10_000..3_000_000).step_by(7_919) {
        if let Ok((div, actual)) = calc_baud_clock_div(baud, 50_000_000, 16) {
            let diff = if actual > baud { actual - baud } else { baud - actual };
            assert!(20 * diff <= baud);
            assert_eq!(actual, 50_000_000 / (16 * (div + 1)));
            let exact = 50_000_000f64 / (16f64 * baud as f64);
            assert!((exact - (div + 1) as f64).abs() <= 0.5);
        }
    }
}

#[test]
fn chips_are_configured_with_inverted_clock() {
    let (reg, actual) =
        HashChain::configure_hash_chain(TARGET_CHIP_BAUD_RATE, false, true, 8).unwrap();
    assert_eq!(
        reg,
        MiscCtrl {
            not_set_baud: false,
            inv_clock: true,
            baud_clock_div: 1,
            gate_block: true,
            mmen: true,
        }
    );
    assert_eq!(actual, TARGET_CHIP_BAUD_RATE);
    let (reg, _) = HashChain::configure_hash_chain(INIT_CHIP_BAUD_RATE, true, false, 8).unwrap();
    assert_eq!((reg.not_set_baud, reg.gate_block, reg.baud_clock_div), (true, false, 26));
    assert_eq!(
        text(HashChain::configure_hash_chain(4_000_000, false, true, 8).unwrap_err()),
        "requested 4000000 baud, resulting 3125000 baud"
    );
}

#[test]
fn difficulty_is_cut_to_32_bits() {
    assert_eq!(HashChain::ticket_mask_difficulty(64), 64);
    assert_eq!(HashChain::ticket_mask_difficulty(0xffff_ffff), 0xffff_ffff);
    assert_eq!(HashChain::ticket_mask_difficulty(0x1_0000_0005), 5);
}
