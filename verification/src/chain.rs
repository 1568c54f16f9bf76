//! State of a hash chain, and how its chips are found and configured.

use crate::baud::{
    actual_baud_rate, baud_div, baud_error_text, baud_rate_acceptable, calc_baud_clock_div,
    is_baud_outcome, reachable, CHIP_OSC_CLK_HZ, FPGA_IPCORE_F_CLK_BASE_BAUD_DIV,
    FPGA_IPCORE_F_CLK_SPEED_HZ,
};
use crate::error::ErrorKind;
use crate::midstate::MidstateCount;
use crate::pll::{HashChainPll, PllTable, MAX_CHIPS_ON_CHAIN};
use crate::power::PowerStation;
use crate::script::{board_step, try_step, Failure, Script, Step};
use crate::text::{decimal, push_decimal};
use vstd::prelude::*;
use vstd::string::*;

verus! {

/// How long a chip takes to be inactivated, in milliseconds.
pub const INACTIVATE_FROM_CHAIN_DELAY_MS: u64 = 100;

/// State of the controller of a hashboard.
#[derive(Debug)]
pub struct HashChain {
    /// Number of chips that have been detected.
    pub chip_count: usize,
    /// Number of midstates that the IP core is configured for.
    pub midstate_count: MidstateCount,
    /// ASIC difficulty.
    pub asic_difficulty: usize,
    /// Current PLL chip frequencies.
    pub pll: HashChainPll,
    /// Voltage on this hashboard.
    pub power_station: PowerStation,
    pub hashboard_idx: usize,
    /// Do not send open-core work if this is true (some tests that test chip
    /// initialization may want to do this).
    pub disable_init_work: bool,
}

/// Revision of a chip, as the chip itself reports it.
#[derive(Debug)]
pub struct ChipRev {
    /// Whether it is a BM1387.
    pub is_bm1387: bool,
    /// Its name.
    pub name: String,
}

/// A command that all chips of a chain or one of them get.
#[derive(Clone, Copy, Debug, PartialEq, Eq, Structural)]
pub enum ChainCommand {
    /// Take all chips offline.
    InactivateFromChain,
    /// Wait for this many milliseconds.
    Delay(u64),
    /// Give an address to the first chip on the chain that has none.
    SetChipAddress(usize),
}

/// Contents of the register that configures a chip.
#[derive(Clone, Copy, Debug, PartialEq, Eq, Structural)]
pub struct MiscCtrl {
    /// The chips ignore the divisor.
    pub not_set_baud: bool,
    pub inv_clock: bool,
    pub baud_clock_div: usize,
    /// The chips start up gradually, as they keep receiving null jobs.
    pub gate_block: bool,
    pub mmen: bool,
}

/// An operation of getting hold of a hashboard.
#[derive(Clone, Copy, Debug, PartialEq, Eq, Structural)]
pub enum ProbeStep {
    OpenPlugPin,
    /// Read the plug pin and check that the board is present.
    CheckPlugPin,
    OpenResetPin,
    OpenCore,
    InitCore,
}

/// How to get hold of a hashboard.
pub open spec fn probe_steps() -> Seq<Step<ProbeStep>> {
    seq![
        board_step(ProbeStep::OpenPlugPin, "failed to initialize plug pin"),
        try_step(ProbeStep::CheckPlugPin),
        board_step(ProbeStep::OpenResetPin, "failed to initialize reset pin"),
        try_step(ProbeStep::OpenCore),
        try_step(ProbeStep::InitCore),
    ]
}

/// How many chips, from the first one on, are BM1387.
pub open spec fn leading_bm1387(revs: Seq<ChipRev>) -> nat
    decreases revs.len(),
{
    if revs.len() == 0 || !revs[0].is_bm1387 {
        0
    } else {
        1 + leading_bm1387(revs.drop_first())
    }
}

/// The commands by which `chip_count` chips get their addresses. All chips are
/// set to be offline before, so that each chip, after accepting its address,
/// passes further addresses down the chain.
pub open spec fn addressing(chip_count: int) -> Seq<ChainCommand> {
    let offline = seq![
        ChainCommand::InactivateFromChain,
        ChainCommand::Delay(INACTIVATE_FROM_CHAIN_DELAY_MS),
    ];
    offline + offline + offline + Seq::new(
        chip_count as nat,
        |i: int| ChainCommand::SetChipAddress(i as usize),
    )
}

pub open spec fn chip_rev_text(address: int, name: Seq<char>) -> Seq<char> {
    "unexpected revision of chip "@ + decimal(address as nat) + " (expected: "@ + name
        + " received: Bm1387)"@
}

pub open spec fn too_many_chips_text(chip_count: int) -> Seq<char> {
    "detected "@ + decimal(chip_count as nat)
        + " chips, expected less than 256 chips on 1 chain. Possibly a hardware issue?"@
}

impl HashChain {
    pub open spec fn wf(self) -> bool {
        self.pll.wf()
    }

    /// `post` and `r` are what comes of these answers of the chips. The chips before
    /// one of another revision are counted; then that chip, too many chips, or none
    /// at all are an error.
    pub open spec fn enumerated(
        self,
        post: Self,
        revs: Seq<ChipRev>,
        r: Result<Vec<ChainCommand>, ErrorKind>,
    ) -> bool {
        let good = leading_bm1387(revs) as int;
        &&& post == (HashChain { chip_count: post.chip_count, ..self })
        &&& post.chip_count == self.chip_count + good
        &&& if good < revs.len() {
            r matches Err(ErrorKind::Hashchip(text)) && text@ == chip_rev_text(
                good,
                revs[good].name@,
            )
        } else if post.chip_count > MAX_CHIPS_ON_CHAIN {
            r matches Err(ErrorKind::Hashchip(text)) && text@ == too_many_chips_text(
                post.chip_count as int,
            )
        } else if post.chip_count == 0 {
            r matches Err(ErrorKind::Hashchip(text)) && text@
                == "no chips detected on the current chain"@
        } else {
            r matches Ok(commands) && commands@ == addressing(post.chip_count as int)
        }
    }

    /// The task of getting hold of a hashboard.
    pub fn probe() -> (r: Script<ProbeStep>)
        ensures
            r.fresh(probe_steps(), None),
            r.wf(),
    {
        let mut steps: Vec<Step<ProbeStep>> = Vec::new();
        steps.push(
            Step {
                action: ProbeStep::OpenPlugPin,
                failure: Failure::Hashboard("failed to initialize plug pin"),
            },
        );
        steps.push(Step { action: ProbeStep::CheckPlugPin, failure: Failure::Propagate });
        steps.push(
            Step {
                action: ProbeStep::OpenResetPin,
                failure: Failure::Hashboard("failed to initialize reset pin"),
            },
        );
        steps.push(Step { action: ProbeStep::OpenCore, failure: Failure::Propagate });
        steps.push(Step { action: ProbeStep::InitCore, failure: Failure::Propagate });
        assert(steps@ =~= probe_steps());
        Script::once(steps)
    }

    /// The error of a hashboard.
    pub fn board_error(hashboard_idx: usize, text: &str) -> (r: ErrorKind)
        ensures
            r matches ErrorKind::Hashboard(idx, t) && idx == hashboard_idx && t@ == text@,
    {
        ErrorKind::Hashboard(hashboard_idx, text.to_owned())
    }

    /// Checks that a board is present: its plug pin is not low.
    pub fn check_present(hashboard_idx: usize, plug_is_low: bool) -> (r: Result<(), ErrorKind>)
        ensures
            r is Ok <==> !plug_is_low,
            plug_is_low ==> (r matches Err(ErrorKind::Hashboard(idx, text)) && idx == hashboard_idx
                && text@ == "not present"@),
    {
        if plug_is_low {
            Err(Self::board_error(hashboard_idx, "not present"))
        } else {
            Ok(())
        }
    }

    /// A new hashboard controller.
    ///
    /// * `hashboard_idx` - index of this hashboard
    /// * `midstate_count` - see Self
    /// * `asic_difficulty` - to what difficulty set the hardware target filter
    pub fn new(hashboard_idx: usize, midstate_count: MidstateCount, asic_difficulty: usize) -> (r:
        Self)
        ensures
            r.chip_count == 0,
            r.midstate_count == midstate_count,
            r.asic_difficulty == asic_difficulty,
            r.pll.max_freq is None,
            forall|i: int| 0 <= i < MAX_CHIPS_ON_CHAIN ==> #[trigger] r.pll.chip_freq@[i] is None,
            r.power_station.current_voltage is None,
            r.hashboard_idx == hashboard_idx,
            !r.disable_init_work,
            r.wf(),
    {
        HashChain {
            chip_count: 0,
            midstate_count,
            asic_difficulty,
            pll: HashChainPll::new(),
            power_station: PowerStation::new(),
            hashboard_idx,
            disable_init_work: false,
        }
    }

    pub fn get_chip_count(&self) -> (r: usize)
        ensures
            r == self.chip_count,
    {
        self.chip_count
    }

    /// How the board is called.
    pub fn name(&self) -> (r: String)
        ensures
            r@ == "Hash Board "@ + decimal(self.hashboard_idx as nat),
    {
        let mut name = "Hash Board ".to_owned();
        push_decimal(&mut name, self.hashboard_idx);
        name
    }

    /// Counts the chips that answered and says how to give them their addresses.
    ///
    /// The chips before one of another revision are counted even though it is an
    /// error.
    pub fn enumerate_chips(&mut self, revs: &Vec<ChipRev>) -> (r: Result<
        Vec<ChainCommand>,
        ErrorKind,
    >)
        requires
            old(self).chip_count + leading_bm1387(revs@) <= usize::MAX,
        ensures
            old(self).enumerated(*final(self), revs@, r),
            r is Ok ==> 1 <= final(self).chip_count <= MAX_CHIPS_ON_CHAIN,
            r matches Ok(commands) ==> commands@.len() == 6 + final(self).chip_count && commands@[0]
                == ChainCommand::InactivateFromChain,
    {
        let n: usize = revs.len();
        let mut address: usize = 0;
        proof {
            assert(revs@.skip(0) =~= revs@);
        }
        while address < n
            invariant
                n == revs@.len(),
                address <= n,
                old(self).chip_count + leading_bm1387(revs@) <= usize::MAX,
                *self == (HashChain { chip_count: self.chip_count, ..*old(self) }),
                self.chip_count == old(self).chip_count + address,
                leading_bm1387(revs@) == address + leading_bm1387(revs@.skip(address as int)),
            decreases n - address,
        {
            proof {
                assert(revs@.skip(address as int).drop_first() =~= revs@.skip(address + 1));
                assert(revs@.skip(address as int)[0] == revs@[address as int]);
            }
            if !revs[address].is_bm1387 {
                let mut text = "unexpected revision of chip ".to_owned();
                push_decimal(&mut text, address);
                text.append(" (expected: ");
                text.append(revs[address].name.as_str());
                text.append(" received: Bm1387)");
                return Err(ErrorKind::Hashchip(text));
            }
            self.chip_count = self.chip_count + 1;
            address += 1;
        }
        if self.chip_count > MAX_CHIPS_ON_CHAIN {
            let mut text = "detected ".to_owned();
            push_decimal(&mut text, self.chip_count);
            text.append(
                " chips, expected less than 256 chips on 1 chain. Possibly a hardware issue?",
            );
            return Err(ErrorKind::Hashchip(text));
        }
        if self.chip_count == 0 {
            return Err(
                ErrorKind::Hashchip("no chips detected on the current chain".to_owned()),
            );
        }
        Ok(Self::address_chips(self.chip_count))
    }

    /// The commands by which the chips get their addresses.
    fn address_chips(chip_count: usize) -> (r: Vec<ChainCommand>)
        ensures
            r@ == addressing(chip_count as int),
    {
        let mut commands: Vec<ChainCommand> = Vec::new();
        // make sure all chips receive the inactivation request
        commands.push(ChainCommand::InactivateFromChain);
        commands.push(ChainCommand::Delay(INACTIVATE_FROM_CHAIN_DELAY_MS));
        commands.push(ChainCommand::InactivateFromChain);
        commands.push(ChainCommand::Delay(INACTIVATE_FROM_CHAIN_DELAY_MS));
        commands.push(ChainCommand::InactivateFromChain);
        commands.push(ChainCommand::Delay(INACTIVATE_FROM_CHAIN_DELAY_MS));
        let mut i: usize = 0;
        assert(commands@ =~= addressing(0));
        while i < chip_count
            invariant
                i <= chip_count,
                commands@ == addressing(i as int),
            decreases chip_count - i,
        {
            commands.push(ChainCommand::SetChipAddress(i));
            i += 1;
            assert(commands@ =~= addressing(i as int));
        }
        commands
    }

    /// Contents of the configuration register of all chips, for a communication
    /// speed, and the actual baud rate that they give.
    ///
    /// * `baud_rate` - desired communication speed
    /// * `not_set_baud` - the baud clock divisor is calculated, however, each chip
    ///   will ignore its value
    /// * `gate_block` - allows gradual startup of the chips in the chain
    /// * `base_clock_div` - divisor of the chips' base clock
    pub fn configure_hash_chain(
        baud_rate: usize,
        not_set_baud: bool,
        gate_block: bool,
        base_clock_div: usize,
    ) -> (r: Result<(MiscCtrl, usize), ErrorKind>)
        requires
            0 < baud_rate,
            0 < base_clock_div,
        ensures
            match r {
                Ok((reg, actual)) => {
                    &&& is_baud_outcome(
                        Ok((reg.baud_clock_div, actual)),
                        baud_rate as int,
                        CHIP_OSC_CLK_HZ as int,
                        base_clock_div as int,
                    )
                    &&& reg == (MiscCtrl {
                        not_set_baud,
                        inv_clock: true,
                        baud_clock_div: reg.baud_clock_div,
                        gate_block,
                        mmen: true,
                    })
                },
                Err(e) => is_baud_outcome(
                    Err(e),
                    baud_rate as int,
                    CHIP_OSC_CLK_HZ as int,
                    base_clock_div as int,
                ),
            },
    {
        match calc_baud_clock_div(baud_rate, CHIP_OSC_CLK_HZ, base_clock_div) {
            Ok((baud_clock_div, actual)) => {
                // Each chip is always configured with inverted clock
                let reg = MiscCtrl {
                    not_set_baud,
                    inv_clock: true,
                    baud_clock_div,
                    gate_block,
                    mmen: true,
                };
                Ok((reg, actual))
            },
            Err(e) => Err(e),
        }
    }

    /// Divisor by which the FPGA IP core communicates with the chips at a speed.
    ///
    /// Note: to change the baud rate of the FPGA is only desirable as a step after
    /// all chips in the chain have been reconfigured for a different speed, too.
    pub fn set_ip_core_baud_rate(baud: usize) -> (r: Result<u32, ErrorKind>)
        requires
            0 < baud,
        ensures
            ({
                let c = FPGA_IPCORE_F_CLK_SPEED_HZ as int;
                let d = FPGA_IPCORE_F_CLK_BASE_BAUD_DIV as int;
                let div = baud_div(baud as int, c, d);
                let actual = actual_baud_rate(div, c, d);
                if reachable(baud as int, c, d) && baud_rate_acceptable(baud as int, actual) {
                    r matches Ok(x) && x == div
                } else {
                    r matches Err(ErrorKind::BaudRate(text)) && text@ == baud_error_text(
                        baud as int,
                        actual,
                    )
                }
            }),
    {
        match calc_baud_clock_div(
            baud,
            FPGA_IPCORE_F_CLK_SPEED_HZ,
            FPGA_IPCORE_F_CLK_BASE_BAUD_DIV,
        ) {
            Ok((baud_clock_div, _)) => {
                proof {
                    let m = FPGA_IPCORE_F_CLK_BASE_BAUD_DIV * baud;
                    let c = FPGA_IPCORE_F_CLK_SPEED_HZ as int;
                    assert((2 * c + m) / (2 * m) <= c + 1) by (nonlinear_arith)
                        requires
                            m >= 1,
                            c >= 0,
                    ;
                }
                Ok(baud_clock_div as u32)
            },
            Err(e) => Err(e),
        }
    }

    /// Sets the frequency of a chip and remembers it.
    ///
    /// `chip` is what became of loading the frequency into the chip. That is only
    /// done, and its outcome only counts, if the frequency changes.
    ///
    /// Returns whether the work time has to be set anew, for this frequency.
    pub fn set_pll<E>(&mut self, freq: usize, chip_id: usize, chip: Result<(), E>) -> (r: Result<
        bool,
        E,
    >)
        requires
            old(self).wf(),
            chip_id < old(self).chip_count,
            chip_id < MAX_CHIPS_ON_CHAIN,
        ensures
            *final(self) == (HashChain { pll: final(self).pll, ..*old(self) }),
            old(self).pll.set_to(final(self).pll, freq, chip_id as int, chip, r),
            final(self).wf(),
    {
        self.pll.set_pll(freq, chip_id, chip)
    }

    /// The task of giving all chips the frequencies of a table.
    pub fn set_pll_table(&self, freq_table: Vec<usize>) -> (r: PllTable)
        requires
            self.wf(),
            self.chip_count <= MAX_CHIPS_ON_CHAIN,
            self.chip_count <= freq_table@.len(),
        ensures
            r == (PllTable { table: freq_table, chip_count: self.chip_count, next: 0 }),
            r.holds_of(self.pll),
    {
        PllTable::new(freq_table, self.chip_count)
    }

    /// The difficulty as the ticket mask register of the chips takes it: its lower
    /// 32 bits.
    pub fn ticket_mask_difficulty(difficulty: usize) -> (r: u32)
        ensures
            r as int == difficulty as int % 0x1_0000_0000,
    {
        let wide: u64 = difficulty as u64;
        assert(wide as u32 == wide % 0x1_0000_0000u64) by (bit_vector);
        #[verifier::truncate]
        (wide as u32)
    }
}

/// The chips get consecutive addresses, each chip its own, and there is room for
/// all of them in an 8-bit address field that is used in steps of 4.
pub proof fn law_addresses_fit(chip_count: int)
    requires
        0 <= chip_count <= MAX_CHIPS_ON_CHAIN,
    ensures
        addressing(chip_count).len() == 6 + chip_count,
        forall|i: int|
            0 <= i < chip_count ==> #[trigger] addressing(chip_count)[6 + i]
                == ChainCommand::SetChipAddress(i as usize) && 4 * i < 256,
        forall|i: int|
            0 <= i < 6 ==> !(#[trigger] addressing(chip_count)[i] is SetChipAddress),
{
}

/// Before the first chip gets an address, all chips are taken offline three times, with
/// a tenth of a second after each: this holds for every number of chips.
pub proof fn law_chips_are_offline_before_addressing(chip_count: int)
    requires
        0 <= chip_count <= 64,
    ensures
        addressing(chip_count).len() == 6 + chip_count,
        forall|i: int|
            0 <= i < 6 && i % 2 == 0 ==> #[trigger] addressing(chip_count)[i]
                == ChainCommand::InactivateFromChain,
        forall|i: int|
            0 <= i < 6 && i % 2 == 1 ==> #[trigger] addressing(chip_count)[i]
                == ChainCommand::Delay(100),
        forall|i: int|
            6 <= i < 6 + chip_count ==> #[trigger] addressing(chip_count)[i]
                == ChainCommand::SetChipAddress((i - 6) as usize),
{
    let s = addressing(chip_count);
    assert forall|i: int| 0 <= i < 6 && i % 2 == 0 implies #[trigger] s[i]
        == ChainCommand::InactivateFromChain by {
        assert(i == 0 || i == 2 || i == 4);
    }
    assert forall|i: int| 0 <= i < 6 && i % 2 == 1 implies #[trigger] s[i] == ChainCommand::Delay(
        100,
    ) by {
        assert(i == 1 || i == 3 || i == 5);
    }
}

/// The chips before the first of another revision are the leading ones.
proof fn lemma_leading(revs: Seq<ChipRev>, k: int)
    requires
        0 <= k <= revs.len(),
        forall|i: int| 0 <= i < k ==> (#[trigger] revs[i]).is_bm1387,
        k < revs.len() ==> !revs[k].is_bm1387,
    ensures
        leading_bm1387(revs) == k,
    decreases k,
{
    if k > 0 {
        let rest = revs.drop_first();
        assert(revs[0].is_bm1387);
        assert forall|i: int| 0 <= i < k - 1 implies (#[trigger] rest[i]).is_bm1387 by {
            assert(rest[i] == revs[i + 1]);
        }
        lemma_leading(rest, k - 1);
    }
}

/// What the answers of the chips lead to, where `k` is how many of them come before the
/// first that is of another revision. Those `k` chips are counted, and nothing else of
/// the chain changes. A chip of another revision is an error, as are more than 64 chips
/// and none. Otherwise the chips are taken offline three times and then each gets an
/// address.
pub proof fn law_enumeration(
    pre: HashChain,
    post: HashChain,
    revs: Seq<ChipRev>,
    r: Result<Vec<ChainCommand>, ErrorKind>,
    k: int,
)
    requires
        pre.enumerated(post, revs, r),
        0 <= k <= revs.len(),
        forall|i: int| 0 <= i < k ==> (#[trigger] revs[i]).is_bm1387,
        k < revs.len() ==> !revs[k].is_bm1387,
    ensures
        post.chip_count == pre.chip_count + k,
        post.midstate_count == pre.midstate_count && post.asic_difficulty == pre.asic_difficulty,
        post.pll == pre.pll && post.power_station == pre.power_station,
        post.hashboard_idx == pre.hashboard_idx && post.disable_init_work
            == pre.disable_init_work,
        r is Ok <==> k == revs.len() && 1 <= pre.chip_count + k <= 64,
        k < revs.len() ==> (r matches Err(ErrorKind::Hashchip(text)) && text@
            == "unexpected revision of chip "@ + decimal(k as nat) + " (expected: "@
            + revs[k].name@ + " received: Bm1387)"@),
        k == revs.len() && pre.chip_count + k > 64 ==> (r matches Err(ErrorKind::Hashchip(text))
            && text@ == "detected "@ + decimal((pre.chip_count + k) as nat)
            + " chips, expected less than 256 chips on 1 chain. Possibly a hardware issue?"@),
        k == revs.len() && pre.chip_count + k == 0 ==> (r matches Err(ErrorKind::Hashchip(text))
            && text@ == "no chips detected on the current chain"@),
        r matches Ok(commands) ==> {
            &&& commands@.len() == 6 + pre.chip_count + k
            &&& forall|i: int|
                0 <= i < 6 && i % 2 == 0 ==> #[trigger] commands@[i]
                    == ChainCommand::InactivateFromChain
            &&& forall|i: int|
                0 <= i < 6 && i % 2 == 1 ==> #[trigger] commands@[i] == ChainCommand::Delay(100)
            &&& forall|i: int|
                6 <= i < commands@.len() ==> #[trigger] commands@[i]
                    == ChainCommand::SetChipAddress((i - 6) as usize)
        },
{
    lemma_leading(revs, k);
    if let Ok(commands) = r {
        law_chips_are_offline_before_addressing(post.chip_count as int);
    }
}

/// Pins that cannot be opened are an error of the board that says so. Other failures are
/// handed on.
pub proof fn law_failures_of_probing(i: int)
    requires
        0 <= i < probe_steps().len(),
    ensures
        probe_steps()[i].failure == match probe_steps()[i].action {
            ProbeStep::OpenPlugPin => Failure::Hashboard("failed to initialize plug pin"),
            ProbeStep::OpenResetPin => Failure::Hashboard("failed to initialize reset pin"),
            _ => Failure::Propagate,
        },
        probe_steps().len() == 5,
{
}

} // verus!
