//! Counters of valid nonces and of errors: per core, per chip and per hash chain.

use crate::bits::{
    bit, law_bit_is_binary_digit, lemma_bit_set, lemma_bit_smear, lemma_bit_zero,
};
use crate::count::{
    count, lemma_count_all, lemma_count_implies, lemma_count_none, lemma_count_same, lemma_count_split,
    law_count_is_size, law_sum_adds_up, lemma_sum_bounds_entry, lemma_sum_update, lemma_sum_zero,
    sum,
};
use std::time::Instant;
use vstd::arithmetic::power2::pow2;
use vstd::prelude::*;

verus! {

/// A point in time of the monotonic clock. Nothing is known of it here but that
/// it can be carried along.
#[verifier::external_type_specification]
#[verifier::external_body]
pub struct ExInstant(Instant);

/// `Instant::now` reads the clock: nothing is claimed of what it returns.
pub assume_specification[ Instant::now ]() -> (r: Instant)
;

/// Core address space size (a chip has 114 cores, but their addresses are
/// non-consecutive).
pub const CORE_ADR_SPACE_SIZE: usize = 128;

/// Number of cores on a chip.
pub const NUM_CORES_ON_CHIP: usize = 114;

/// The addresses that belong to a core: two runs of 57 addresses each.
pub const CORE_ADR_MASK: u128 = 0x1ffffffffffffff01ffffffffffffff;

/// Address of the core that computed a nonce.
#[derive(Clone, Copy, Debug, PartialEq, Eq, Structural)]
pub struct CoreAddress {
    pub chip: usize,
    pub core: usize,
}

/// Per-core counters for valid nonces and errors.
#[derive(Clone, Copy, Debug, PartialEq, Eq, Structural)]
pub struct CoreCounter {
    pub valid: usize,
    pub errors: usize,
}

impl CoreCounter {
    pub fn reset(&mut self)
        ensures
            *final(self) == (CoreCounter { valid: 0, errors: 0 }),
    {
        self.valid = 0;
        self.errors = 0;
    }

    pub fn new() -> (r: Self)
        ensures
            r == (CoreCounter { valid: 0, errors: 0 }),
    {
        CoreCounter { valid: 0, errors: 0 }
    }
}

/// Whether `a` is the address of a core.
pub open spec fn is_core_address(a: int) -> bool {
    0 <= a < 57 || 64 <= a < 121
}

/// The numbers of valid nonces of a sequence of cores.
pub open spec fn core_valid(s: Seq<CoreCounter>) -> Seq<int> {
    s.map_values(|c: CoreCounter| c.valid as int)
}

/// The numbers of errors of a sequence of cores.
pub open spec fn core_errors(s: Seq<CoreCounter>) -> Seq<int> {
    s.map_values(|c: CoreCounter| c.errors as int)
}

/// The numbers of valid nonces of a sequence of chips.
pub open spec fn chip_valid(s: Seq<ChipCounter>) -> Seq<int> {
    s.map_values(|c: ChipCounter| c.valid as int)
}

/// The numbers of errors of a sequence of chips.
pub open spec fn chip_errors(s: Seq<ChipCounter>) -> Seq<int> {
    s.map_values(|c: ChipCounter| c.errors as int)
}

/// Counters of one chip: of the chip as a whole and of each of its cores.
#[derive(Clone, Copy, Debug)]
pub struct ChipCounter {
    pub core: [CoreCounter; CORE_ADR_SPACE_SIZE],
    pub valid: usize,
    pub errors: usize,
    pub started: Instant,
}

impl ChipCounter {
    /// The chip's counts are the sums of the counts of its cores.
    pub open spec fn wf(self) -> bool {
        &&& self.valid == sum(core_valid(self.core@))
        &&& self.errors == sum(core_errors(self.core@))
    }

    /// Nothing was counted since `started`.
    pub open spec fn is_clear(self, started: Instant) -> bool {
        &&& self.valid == 0
        &&& self.errors == 0
        &&& self.started == started
        &&& forall|i: int|
            0 <= i < CORE_ADR_SPACE_SIZE ==> #[trigger] self.core@[i] == (CoreCounter {
                valid: 0,
                errors: 0,
            })
    }

    /// Whether the core at address `a` found a valid nonce.
    pub open spec fn found_nonce(self, a: int) -> bool {
        0 <= a < CORE_ADR_SPACE_SIZE && self.core@[a].valid > 0
    }

    /// Whether the core at address `a` counts as alive: it or one of the two
    /// cores next to it found a valid nonce.
    pub open spec fn is_alive(self, a: int) -> bool {
        self.found_nonce(a - 1) || self.found_nonce(a) || self.found_nonce(a + 1)
    }

    /// How many cores are not alive.
    pub open spec fn dead(self) -> nat {
        count(|a: int| is_core_address(a) && !self.is_alive(a), CORE_ADR_SPACE_SIZE as nat)
    }

    /// `post` is this chip with `valid` more valid nonces and `errors` more
    /// errors, all of them of the core at address `core`.
    pub open spec fn counted(self, post: Self, core: int, valid: int, errors: int) -> bool {
        &&& post.valid == self.valid + valid
        &&& post.errors == self.errors + errors
        &&& post.started == self.started
        &&& post.core@ == self.core@.update(
            core,
            CoreCounter {
                valid: (self.core@[core].valid + valid) as usize,
                errors: (self.core@[core].errors + errors) as usize,
            },
        )
    }

    /// Starts counting anew, now.
    pub fn reset(&mut self)
        ensures
            final(self).is_clear(final(self).started),
            final(self).wf(),
    {
        self.reset_at(Instant::now());
    }

    /// Starts counting anew, at the given time.
    pub fn reset_at(&mut self, started: Instant)
        ensures
            final(self).is_clear(started),
            final(self).wf(),
    {
        self.valid = 0;
        self.errors = 0;
        let mut i: usize = 0;
        while i < CORE_ADR_SPACE_SIZE
            invariant
                i <= CORE_ADR_SPACE_SIZE,
                self.valid == 0,
                self.errors == 0,
                forall|j: int|
                    0 <= j < i ==> #[trigger] self.core@[j] == (CoreCounter {
                        valid: 0,
                        errors: 0,
                    }),
            decreases CORE_ADR_SPACE_SIZE - i,
        {
            self.core[i].reset();
            i += 1;
        }
        self.started = started;
        proof {
            lemma_clear_chip(*self, started);
        }
    }

    /// A word in which bit `i` says whether the core at address `i` found a valid
    /// nonce.
    pub fn core_bitmask(&self) -> (mask: u128)
        ensures
            forall|i: int| 0 <= i < 128 ==> #[trigger] bit(mask, i) == self.found_nonce(i),
            forall|i: int| 0 <= i < 128 ==> #[trigger] bit(mask, i) == (self.core@[i].valid > 0),
    {
        let mut mask: u128 = 0;
        let mut id: usize = 0;
        proof {
            assert forall|i: int| 0 <= i < 128 implies !#[trigger] bit(mask, i) by {
                lemma_bit_zero(i);
            }
        }
        while id < CORE_ADR_SPACE_SIZE
            invariant
                id <= CORE_ADR_SPACE_SIZE,
                forall|i: int|
                    0 <= i < 128 ==> #[trigger] bit(mask, i) == (i < id && self.found_nonce(i)),
            decreases CORE_ADR_SPACE_SIZE - id,
        {
            if self.core[id].valid > 0 {
                let ghost before = mask;
                mask = mask | (1u128 << (id as u128));
                proof {
                    assert forall|i: int| 0 <= i < 128 implies #[trigger] bit(mask, i) == (i < id + 1
                        && self.found_nonce(i)) by {
                        lemma_bit_set(before, id as u128, i);
                        assert(bit(before, i) == (i < id && self.found_nonce(i)));
                    }
                }
            }
            id += 1;
        }
        mask
    }

    /// How many cores of the chip are not alive.
    pub fn dead_cores(&self) -> (r: usize)
        ensures
            r == self.dead(),
            r <= NUM_CORES_ON_CHIP,
    {
        let mask = self.core_bitmask();
        let alive: u128 = ((mask << 1) | (mask >> 1) | mask) & CORE_ADR_MASK;
        let ghost core_p = |a: int| is_core_address(a);
        let ghost alive_p = |a: int| is_core_address(a) && self.is_alive(a);
        let ghost dead_p = |a: int| is_core_address(a) && !self.is_alive(a);
        proof {
            let ones_p = |i: int| bit(alive, i);
            assert forall|i: int| 0 <= i < 128 implies #[trigger] ones_p(i) == alive_p(i) by {
                lemma_bit_smear(mask, CORE_ADR_MASK, i);
                lemma_core_mask(i);
                if i > 0 {
                    assert(bit(mask, i - 1) == self.found_nonce(i - 1));
                }
                assert(bit(mask, i) == self.found_nonce(i));
                if i < 127 {
                    assert(bit(mask, i + 1) == self.found_nonce(i + 1));
                }
            }
            lemma_count_same(ones_p, alive_p, 128);
            lemma_count_split(core_p, alive_p, dead_p, 128);
            lemma_core_addresses();
        }
        NUM_CORES_ON_CHIP - alive.count_ones() as usize
    }

    /// A chip of which nothing was counted yet, started now.
    pub fn new() -> (r: Self)
        ensures
            r.is_clear(r.started),
            r.wf(),
    {
        Self::new_at(Instant::now())
    }

    /// A chip of which nothing was counted yet, started at the given time.
    pub fn new_at(started: Instant) -> (r: Self)
        ensures
            r.is_clear(started),
            r.wf(),
    {
        let r = ChipCounter {
            core: [CoreCounter { valid: 0, errors: 0 };CORE_ADR_SPACE_SIZE],
            valid: 0,
            errors: 0,
            started,
        };
        proof {
            lemma_clear_chip(r, started);
        }
        r
    }
}

/// Bit `i` of the address mask is set for the addresses of cores only.
proof fn lemma_core_mask(i: int)
    requires
        0 <= i < 128,
    ensures
        bit(CORE_ADR_MASK, i) == is_core_address(i),
{
    let j = i as u128;
    assert((0x1ffffffffffffff01ffffffffffffffu128 >> j) & 1 == 1 <==> (j < 57 || (64 <= j < 121)))
        by (bit_vector)
        requires
            j < 128,
    ;
}

/// There are as many core addresses as there are cores.
proof fn lemma_core_addresses()
    ensures
        count(|a: int| is_core_address(a), 128) == NUM_CORES_ON_CHIP,
{
    let p = |a: int| is_core_address(a);
    lemma_count_all(p, 0, 57);
    lemma_count_none(p, 57, 64);
    lemma_count_all(p, 64, 121);
    lemma_count_none(p, 121, 128);
}

proof fn lemma_clear_chip(chip: ChipCounter, started: Instant)
    requires
        chip.is_clear(started),
    ensures
        chip.wf(),
{
    let v = core_valid(chip.core@);
    let e = core_errors(chip.core@);
    assert forall|j: int| 0 <= j < v.len() implies #[trigger] v[j] == 0 by {
        assert(chip.core@[j].valid == 0);
    }
    assert forall|j: int| 0 <= j < e.len() implies #[trigger] e[j] == 0 by {
        assert(chip.core@[j].errors == 0);
    }
    lemma_sum_zero(v);
    lemma_sum_zero(e);
}

/// Counters of a hash chain: of the chain as a whole and of each of its chips.
#[derive(Debug)]
pub struct HashChainCounter {
    pub chip: Vec<ChipCounter>,
    pub valid: usize,
    pub errors: usize,
    pub started: Instant,
}

impl Clone for HashChainCounter {
    fn clone(&self) -> (r: Self)
        ensures
            r.chip@ == self.chip@,
            r.valid == self.valid,
            r.errors == self.errors,
            r.started == self.started,
    {
        HashChainCounter {
            chip: self.chip.clone(),
            valid: self.valid,
            errors: self.errors,
            started: self.started,
        }
    }
}

impl HashChainCounter {
    /// The chain's counts are the sums of the counts of its chips, and each
    /// chip's are the sums of those of its cores.
    pub open spec fn wf(self) -> bool {
        &&& self.valid == sum(chip_valid(self.chip@))
        &&& self.errors == sum(chip_errors(self.chip@))
        &&& forall|i: int| 0 <= i < self.chip@.len() ==> #[trigger] self.chip@[i].wf()
    }

    /// Nothing was counted since `started`, and of no chip since `chip_started[i]`.
    pub open spec fn is_clear(self, started: Instant, chip_started: Seq<Instant>) -> bool {
        &&& self.valid == 0
        &&& self.errors == 0
        &&& self.started == started
        &&& self.chip@.len() == chip_started.len()
        &&& forall|i: int|
            0 <= i < self.chip@.len() ==> (#[trigger] self.chip@[i]).is_clear(chip_started[i])
    }

    /// The times at which the chips started to count.
    pub open spec fn chip_started(self) -> Seq<Instant> {
        self.chip@.map_values(|c: ChipCounter| c.started)
    }

    /// `post` is this chain with `valid` more valid nonces and `errors` more
    /// errors, all of them of the core at `addr`. Those of a chip that is not on
    /// the chain are not counted.
    pub open spec fn counted(self, post: Self, addr: CoreAddress, valid: int, errors: int) -> bool {
        if addr.chip < self.chip@.len() {
            &&& post.valid == self.valid + valid
            &&& post.errors == self.errors + errors
            &&& post.started == self.started
            &&& post.chip@.len() == self.chip@.len()
            &&& self.chip@[addr.chip as int].counted(
                post.chip@[addr.chip as int],
                addr.core as int,
                valid,
                errors,
            )
            &&& forall|i: int|
                0 <= i < self.chip@.len() && i != addr.chip ==> #[trigger] post.chip@[i]
                    == self.chip@[i]
        } else {
            post == self
        }
    }

    /// Starts counting anew, now.
    pub fn reset(&mut self)
        ensures
            final(self).is_clear(final(self).started, final(self).chip_started()),
            final(self).chip@.len() == old(self).chip@.len(),
            final(self).wf(),
    {
        let n: usize = self.chip.len();
        let mut chip_started: Vec<Instant> = Vec::new();
        while chip_started.len() < n
            invariant
                chip_started@.len() <= n,
            decreases n - chip_started@.len(),
        {
            chip_started.push(Instant::now());
        }
        self.reset_at(Instant::now(), &chip_started);
        assert(self.chip_started() =~= chip_started@);
    }

    /// Starts counting anew, at the given times of the chain and of each chip.
    pub fn reset_at(&mut self, started: Instant, chip_started: &Vec<Instant>)
        requires
            chip_started@.len() == old(self).chip@.len(),
        ensures
            final(self).is_clear(started, chip_started@),
            final(self).wf(),
    {
        self.valid = 0;
        self.errors = 0;
        let n: usize = self.chip.len();
        let mut i: usize = 0;
        while i < n
            invariant
                i <= n,
                n == self.chip@.len(),
                n == chip_started@.len(),
                self.valid == 0,
                self.errors == 0,
                forall|j: int|
                    0 <= j < i ==> (#[trigger] self.chip@[j]).is_clear(chip_started@[j]),
            decreases n - i,
        {
            self.chip[i].reset_at(chip_started[i]);
            i += 1;
        }
        self.started = started;
        proof {
            lemma_clear_chain(*self, started, chip_started@);
        }
    }

    /// Counts a valid nonce of a core. A nonce of a chip that is not on the chain
    /// is not counted.
    pub fn add_valid(&mut self, addr: CoreAddress)
        requires
            old(self).wf(),
            addr.chip < old(self).chip@.len() ==> addr.core < CORE_ADR_SPACE_SIZE
                && old(self).valid < usize::MAX,
        ensures
            old(self).counted(*final(self), addr, 1, 0),
            final(self).wf(),
            addr.chip < old(self).chip@.len() ==> final(self).valid == old(self).valid + 1
                && final(self).errors == old(self).errors,
            addr.chip >= old(self).chip@.len() ==> *final(self) == *old(self),
    {
        if addr.chip >= self.chip.len() {
            return;
        }
        proof {
            lemma_counts_fit(*self, addr);
        }
        self.valid += 1;
        self.chip[addr.chip].valid += 1;
        self.chip[addr.chip].core[addr.core].valid += 1;
        proof {
            assert(old(self).chip@[addr.chip as int].counted(
                self.chip@[addr.chip as int],
                addr.core as int,
                1,
                0,
            ));
            lemma_counted_wf(*old(self), *self, addr, 1, 0);
        }
    }

    /// Counts an error of a core. An error of a chip that is not on the chain is
    /// not counted.
    pub fn add_error(&mut self, addr: CoreAddress)
        requires
            old(self).wf(),
            addr.chip < old(self).chip@.len() ==> addr.core < CORE_ADR_SPACE_SIZE
                && old(self).errors < usize::MAX,
        ensures
            old(self).counted(*final(self), addr, 0, 1),
            final(self).wf(),
            addr.chip < old(self).chip@.len() ==> final(self).valid == old(self).valid
                && final(self).errors == old(self).errors + 1,
            addr.chip >= old(self).chip@.len() ==> *final(self) == *old(self),
    {
        if addr.chip >= self.chip.len() {
            return;
        }
        proof {
            lemma_counts_fit(*self, addr);
        }
        self.errors += 1;
        self.chip[addr.chip].errors += 1;
        self.chip[addr.chip].core[addr.core].errors += 1;
        proof {
            assert(old(self).chip@[addr.chip as int].counted(
                self.chip@[addr.chip as int],
                addr.core as int,
                0,
                1,
            ));
            lemma_counted_wf(*old(self), *self, addr, 0, 1);
        }
    }

    /// A chain of `chip_count` chips of which nothing was counted yet, started
    /// now. The chips all start at one time.
    pub fn new(chip_count: usize) -> (r: Self)
        ensures
            r.is_clear(r.started, r.chip_started()),
            r.chip@.len() == chip_count,
            forall|i: int, j: int|
                0 <= i < chip_count && 0 <= j < chip_count ==> r.chip@[i].started
                    == r.chip@[j].started,
            r.wf(),
    {
        let started = Instant::now();
        let chip_started = Instant::now();
        let r = Self::new_at(chip_count, started, chip_started);
        assert(r.chip_started() =~= Seq::new(chip_count as nat, |i: int| chip_started));
        r
    }

    /// A chain of `chip_count` chips of which nothing was counted yet, started at
    /// the given time, with chips that started at another.
    pub fn new_at(chip_count: usize, started: Instant, chip_started: Instant) -> (r: Self)
        ensures
            r.is_clear(started, Seq::new(chip_count as nat, |i: int| chip_started)),
            r.wf(),
    {
        let chip = ChipCounter::new_at(chip_started);
        let r = HashChainCounter { chip: vec![chip; chip_count], valid: 0, errors: 0, started };
        proof {
            lemma_clear_chain(r, started, Seq::new(chip_count as nat, |i: int| chip_started));
        }
        r
    }
}

proof fn lemma_clear_chain(chain: HashChainCounter, started: Instant, chip_started: Seq<Instant>)
    requires
        chain.is_clear(started, chip_started),
    ensures
        chain.wf(),
{
    let v = chip_valid(chain.chip@);
    let e = chip_errors(chain.chip@);
    assert forall|j: int| 0 <= j < chain.chip@.len() implies (#[trigger] chain.chip@[j]).wf()
        && v[j] == 0 && e[j] == 0 by {
        lemma_clear_chip(chain.chip@[j], chip_started[j]);
    }
    assert forall|j: int| 0 <= j < v.len() implies #[trigger] v[j] == 0 by {
        assert(chain.chip@[j].wf());
    }
    assert forall|j: int| 0 <= j < e.len() implies #[trigger] e[j] == 0 by {
        assert(chain.chip@[j].wf());
    }
    lemma_sum_zero(v);
    lemma_sum_zero(e);
}

/// No counter of a chip or of a core is above the chain's.
proof fn lemma_counts_fit(chain: HashChainCounter, addr: CoreAddress)
    requires
        chain.wf(),
        addr.chip < chain.chip@.len(),
        addr.core < CORE_ADR_SPACE_SIZE,
    ensures
        ({
            let chip = chain.chip@[addr.chip as int];
            let core = chip.core@[addr.core as int];
            core.valid <= chip.valid <= chain.valid && core.errors <= chip.errors <= chain.errors
        }),
{
    let chip = chain.chip@[addr.chip as int];
    assert(chip.wf());
    lemma_sum_bounds_entry(chip_valid(chain.chip@), addr.chip as int);
    lemma_sum_bounds_entry(chip_errors(chain.chip@), addr.chip as int);
    lemma_sum_bounds_entry(core_valid(chip.core@), addr.core as int);
    lemma_sum_bounds_entry(core_errors(chip.core@), addr.core as int);
}

/// Counting keeps the counts of a chain consistent.
pub proof fn lemma_counted_wf(
    pre: HashChainCounter,
    post: HashChainCounter,
    addr: CoreAddress,
    valid: int,
    errors: int,
)
    requires
        pre.wf(),
        addr.chip < pre.chip@.len() ==> addr.core < CORE_ADR_SPACE_SIZE,
        pre.counted(post, addr, valid, errors),
        0 <= valid,
        0 <= errors,
        pre.valid + valid <= usize::MAX,
        pre.errors + errors <= usize::MAX,
    ensures
        post.wf(),
{
    if addr.chip < pre.chip@.len() {
        let c = addr.chip as int;
        let k = addr.core as int;
        let old_chip = pre.chip@[c];
        let new_chip = post.chip@[c];
        lemma_counts_fit(pre, addr);
        assert(old_chip.wf());
        lemma_sum_update(core_valid(old_chip.core@), k, old_chip.core@[k].valid + valid);
        lemma_sum_update(core_errors(old_chip.core@), k, old_chip.core@[k].errors + errors);
        assert(core_valid(new_chip.core@) =~= core_valid(old_chip.core@).update(
            k,
            old_chip.core@[k].valid + valid,
        ));
        assert(core_errors(new_chip.core@) =~= core_errors(old_chip.core@).update(
            k,
            old_chip.core@[k].errors + errors,
        ));
        lemma_sum_update(chip_valid(pre.chip@), c, old_chip.valid + valid);
        lemma_sum_update(chip_errors(pre.chip@), c, old_chip.errors + errors);
        assert(chip_valid(post.chip@) =~= chip_valid(pre.chip@).update(c, old_chip.valid + valid));
        assert(chip_errors(post.chip@) =~= chip_errors(pre.chip@).update(
            c,
            old_chip.errors + errors,
        ));
        assert forall|i: int| 0 <= i < post.chip@.len() implies #[trigger] post.chip@[i].wf() by {
            if i != c {
                assert(pre.chip@[i].wf());
            }
        }
    }
}

/// Counting nothing changes nothing.
pub proof fn lemma_counted_nothing(chain: HashChainCounter, addr: CoreAddress)
    requires
        addr.chip < chain.chip@.len() ==> addr.core < CORE_ADR_SPACE_SIZE,
    ensures
        chain.counted(chain, addr, 0, 0),
{
    if addr.chip < chain.chip@.len() {
        let chip = chain.chip@[addr.chip as int];
        let core = addr.core as int;
        assert(chip.core@ =~= chip.core@.update(
            core,
            CoreCounter {
                valid: (chip.core@[core].valid + 0) as usize,
                errors: (chip.core@[core].errors + 0) as usize,
            },
        ));
    }
}

/// Counting for one core twice is counting once what both counted.
pub proof fn lemma_counted_twice(
    pre: HashChainCounter,
    mid: HashChainCounter,
    post: HashChainCounter,
    addr: CoreAddress,
    valid1: int,
    errors1: int,
    valid2: int,
    errors2: int,
)
    requires
        pre.wf(),
        addr.chip < pre.chip@.len() ==> addr.core < CORE_ADR_SPACE_SIZE,
        pre.counted(mid, addr, valid1, errors1),
        mid.counted(post, addr, valid2, errors2),
        0 <= valid1,
        0 <= errors1,
        0 <= valid2,
        0 <= errors2,
    ensures
        pre.counted(post, addr, valid1 + valid2, errors1 + errors2),
{
    if addr.chip < pre.chip@.len() {
        lemma_counts_fit(pre, addr);
        let core = addr.core as int;
        let a = pre.chip@[addr.chip as int];
        let b = mid.chip@[addr.chip as int];
        let c = post.chip@[addr.chip as int];
        assert(b.core@[core].valid == a.core@[core].valid + valid1);
        assert(b.core@[core].errors == a.core@[core].errors + errors1);
        assert(c.core@ =~= a.core@.update(
            core,
            CoreCounter {
                valid: (a.core@[core].valid + (valid1 + valid2)) as usize,
                errors: (a.core@[core].errors + (errors1 + errors2)) as usize,
            },
        ));
        assert forall|i: int| 0 <= i < pre.chip@.len() && i != addr.chip implies #[trigger] post.chip@[i]
            == pre.chip@[i] by {
            assert(mid.chip@[i] == pre.chip@[i]);
        }
    }
}

/// A chip of which nothing was counted has no core that is alive.
pub proof fn law_clear_chip_is_dead(chip: ChipCounter, started: Instant)
    requires
        chip.is_clear(started),
    ensures
        chip.dead() == NUM_CORES_ON_CHIP,
{
    let dead_p = |a: int| is_core_address(a) && !chip.is_alive(a);
    let core_p = |a: int| is_core_address(a);
    assert forall|a: int| 0 <= a < 128 implies #[trigger] dead_p(a) == core_p(a) by {
        assert(!chip.found_nonce(a - 1) && !chip.found_nonce(a) && !chip.found_nonce(a + 1));
    }
    lemma_count_same(dead_p, core_p, 128);
    lemma_core_addresses();
}

/// Counting never makes a core that was alive count as dead.
pub proof fn law_counting_revives(
    pre: ChipCounter,
    post: ChipCounter,
    core: int,
    valid: int,
    errors: int,
)
    requires
        0 <= core < CORE_ADR_SPACE_SIZE,
        0 <= valid,
        pre.core@[core].valid + valid <= usize::MAX,
        pre.counted(post, core, valid, errors),
    ensures
        forall|a: int| pre.is_alive(a) ==> #[trigger] post.is_alive(a),
        post.dead() <= pre.dead(),
        valid > 0 ==> post.is_alive(core - 1) && post.is_alive(core) && post.is_alive(core + 1),
        valid == 0 ==> post.dead() == pre.dead(),
{
    let pre_p = |a: int| is_core_address(a) && !pre.is_alive(a);
    let post_p = |a: int| is_core_address(a) && !post.is_alive(a);
    assert forall|a: int| pre.found_nonce(a) implies #[trigger] post.found_nonce(a) by {
        assert(post.core@[a].valid >= pre.core@[a].valid);
    }
    assert forall|a: int| pre.is_alive(a) implies #[trigger] post.is_alive(a) by {
        assert(pre.found_nonce(a - 1) ==> post.found_nonce(a - 1));
        assert(pre.found_nonce(a) ==> post.found_nonce(a));
        assert(pre.found_nonce(a + 1) ==> post.found_nonce(a + 1));
    }
    lemma_count_implies(post_p, pre_p, 128);
    if valid > 0 {
        assert(post.found_nonce(core));
    } else {
        assert forall|a: int| 0 <= a < 128 implies #[trigger] post_p(a) == pre_p(a) by {
            assert forall|b: int| post.found_nonce(b) implies #[trigger] pre.found_nonce(b) by {
                assert(post.core@[b].valid == pre.core@[b].valid);
            }
        }
        lemma_count_same(post_p, pre_p, 128);
    }
}

/// Bit `i` of a chip's mask is set exactly if the counter of core `i` itself is above
/// zero, whatever was counted of the chip as a whole and whatever errors there were.
pub proof fn law_mask_shows_core_counters(chip: ChipCounter, mask: u128, i: int)
    requires
        forall|j: int| 0 <= j < 128 ==> #[trigger] bit(mask, j) == chip.found_nonce(j),
        0 <= i < 128,
    ensures
        (mask as int / pow2(i as nat) as int) % 2 == 1 <==> chip.core@[i].valid > 0,
{
    law_bit_is_binary_digit(mask, i);
    assert(bit(mask, i) == chip.found_nonce(i));
}

/// The number of dead cores is that of the core addresses, of which there are two
/// runs of 57, at which neither the core itself nor a core at an adjacent address
/// has a counter above zero.
pub proof fn law_dead_cores_have_no_nonces_nearby(chip: ChipCounter)
    ensures
        chip.dead() == Set::new(
            |a: int|
                (0 <= a < 57 || 64 <= a < 121) && chip.core@[a].valid == 0 && chip.core@[a
                    + 1].valid == 0 && (a > 0 ==> chip.core@[a - 1].valid == 0),
        ).len(),
{
    let p = |a: int| is_core_address(a) && !chip.is_alive(a);
    law_count_is_size(p, 128);
    assert(Set::new(|i: int| 0 <= i < 128nat && p(i)) =~= Set::new(
        |a: int|
            (0 <= a < 57 || 64 <= a < 121) && chip.core@[a].valid == 0 && chip.core@[a + 1].valid
                == 0 && (a > 0 ==> chip.core@[a - 1].valid == 0),
    ));
}

/// How many cores are dead depends only on which cores found nonces: not on how many
/// they found, not on the counts of the chip, not on errors and not on time.
pub proof fn law_only_core_counters_tell_dead_cores(a: ChipCounter, b: ChipCounter)
    requires
        forall|i: int|
            0 <= i < 128 ==> (#[trigger] a.core@[i].valid > 0 <==> b.core@[i].valid > 0),
    ensures
        a.dead() == b.dead(),
{
    let p = |i: int| is_core_address(i) && !a.is_alive(i);
    let q = |i: int| is_core_address(i) && !b.is_alive(i);
    assert forall|i: int| a.found_nonce(i) <==> #[trigger] b.found_nonce(i) by {
        if 0 <= i < 128 {
            assert(a.core@[i].valid > 0 <==> b.core@[i].valid > 0);
        }
    }
    assert forall|i: int| 0 <= i < 128 implies #[trigger] p(i) == q(i) by {
        assert(a.found_nonce(i - 1) <==> b.found_nonce(i - 1));
        assert(a.found_nonce(i) <==> b.found_nonce(i));
        assert(a.found_nonce(i + 1) <==> b.found_nonce(i + 1));
    }
    lemma_count_same(p, q, 128);
}

/// From a clear chip, valid nonces of core `k` leave all cores dead but those at the
/// core addresses among `k - 1`, `k` and `k + 1`.
pub proof fn law_one_core_revives_three_addresses(
    pre: ChipCounter,
    post: ChipCounter,
    started: Instant,
    k: int,
    valid: int,
    errors: int,
)
    requires
        pre.is_clear(started),
        0 <= k < 128,
        0 < valid <= usize::MAX,
        pre.counted(post, k, valid, errors),
    ensures
        post.dead() == 114 - (if 0 <= k - 1 < 57 || 64 <= k - 1 < 121 {
            1int
        } else {
            0
        }) - (if 0 <= k < 57 || 64 <= k < 121 {
            1int
        } else {
            0
        }) - (if 0 <= k + 1 < 57 || 64 <= k + 1 < 121 {
            1int
        } else {
            0
        }),
{
    let core = |a: int| is_core_address(a);
    let dead = |a: int| is_core_address(a) && !post.is_alive(a);
    let near = |a: int| is_core_address(a) && k - 1 <= a <= k + 1;
    assert forall|a: int| post.found_nonce(a) <==> a == k by {
        if 0 <= a < 128 && a != k {
            assert(post.core@[a] == pre.core@[a]);
        }
    }
    assert forall|a: int| post.is_alive(a) <==> k - 1 <= a <= k + 1 by {
        assert(post.found_nonce(a - 1) <==> a - 1 == k);
        assert(post.found_nonce(a) <==> a == k);
        assert(post.found_nonce(a + 1) <==> a + 1 == k);
    }
    lemma_count_split(core, near, dead, 128);
    lemma_core_addresses();
    let lo: nat = if k > 0 {
        (k - 1) as nat
    } else {
        0
    };
    let hi: nat = if k < 126 {
        (k + 2) as nat
    } else {
        128
    };
    lemma_count_none(near, 0, lo);
    lemma_count_none(near, hi, 128);
    reveal_with_fuel(count, 4);
}

/// Counting for a core changes the counters of that core, of its chip and of the
/// chain by the same amounts, and nothing else. For a chip that is not on the chain
/// it changes nothing.
pub proof fn law_counting_changes_one_core(
    pre: HashChainCounter,
    post: HashChainCounter,
    addr: CoreAddress,
    valid: int,
    errors: int,
)
    requires
        pre.counted(post, addr, valid, errors),
        addr.chip < pre.chip@.len() ==> {
            let core = pre.chip@[addr.chip as int].core@[addr.core as int];
            &&& addr.core < 128
            &&& 0 <= core.valid + valid <= usize::MAX
            &&& 0 <= core.errors + errors <= usize::MAX
        },
    ensures
        addr.chip >= pre.chip@.len() ==> post == pre,
        addr.chip < pre.chip@.len() ==> {
            let old_chip = pre.chip@[addr.chip as int];
            let new_chip = post.chip@[addr.chip as int];
            &&& post.valid - pre.valid == valid
            &&& post.errors - pre.errors == errors
            &&& new_chip.valid - old_chip.valid == valid
            &&& new_chip.errors - old_chip.errors == errors
            &&& new_chip.core@[addr.core as int].valid - old_chip.core@[addr.core as int].valid
                == valid
            &&& new_chip.core@[addr.core as int].errors - old_chip.core@[addr.core as int].errors
                == errors
            &&& post.started == pre.started
            &&& new_chip.started == old_chip.started
            &&& post.chip@.len() == pre.chip@.len()
            &&& forall|k: int|
                0 <= k < 128 && k != addr.core ==> #[trigger] new_chip.core@[k]
                    == old_chip.core@[k]
            &&& forall|c: int|
                0 <= c < pre.chip@.len() && c != addr.chip ==> #[trigger] post.chip@[c]
                    == pre.chip@[c]
        },
{
}

/// The counts of a chain are those of its chips added up, and the counts of each
/// chip are those of its cores added up.
pub proof fn law_counts_add_up(chain: HashChainCounter, c: int)
    requires
        chain.wf(),
        0 <= c < chain.chip@.len(),
    ensures
        chain.valid as int == Seq::new(
            chain.chip@.len(),
            |i: int| chain.chip@[i].valid as int,
        ).fold_left(0int, |total: int, x: int| total + x),
        chain.errors as int == Seq::new(
            chain.chip@.len(),
            |i: int| chain.chip@[i].errors as int,
        ).fold_left(0int, |total: int, x: int| total + x),
        chain.chip@[c].valid as int == Seq::new(
            128,
            |i: int| chain.chip@[c].core@[i].valid as int,
        ).fold_left(0int, |total: int, x: int| total + x),
        chain.chip@[c].errors as int == Seq::new(
            128,
            |i: int| chain.chip@[c].core@[i].errors as int,
        ).fold_left(0int, |total: int, x: int| total + x),
{
    let chip = chain.chip@[c];
    assert(chip.wf());
    law_sum_adds_up(chip_valid(chain.chip@));
    law_sum_adds_up(chip_errors(chain.chip@));
    law_sum_adds_up(core_valid(chip.core@));
    law_sum_adds_up(core_errors(chip.core@));
    assert(chip_valid(chain.chip@) =~= Seq::new(
        chain.chip@.len(),
        |i: int| chain.chip@[i].valid as int,
    ));
    assert(chip_errors(chain.chip@) =~= Seq::new(
        chain.chip@.len(),
        |i: int| chain.chip@[i].errors as int,
    ));
    assert(core_valid(chip.core@) =~= Seq::new(128, |i: int| chip.core@[i].valid as int));
    assert(core_errors(chip.core@) =~= Seq::new(128, |i: int| chip.core@[i].errors as int));
}

/// In a clear chain every counter of every core, of every chip and of the chain is
/// zero, and the times are those that counting started at.
pub proof fn law_clear_chain_counts_nothing(
    chain: HashChainCounter,
    started: Instant,
    chip_started: Seq<Instant>,
    c: int,
    k: int,
)
    requires
        chain.is_clear(started, chip_started),
        0 <= c < chain.chip@.len(),
        0 <= k < 128,
    ensures
        chain.valid == 0 && chain.errors == 0 && chain.started == started,
        chain.chip@.len() == chip_started.len(),
        chain.chip@[c].valid == 0 && chain.chip@[c].errors == 0,
        chain.chip@[c].started == chip_started[c],
        chain.chip@[c].core@[k].valid == 0 && chain.chip@[c].core@[k].errors == 0,
{
    assert(chain.chip@[c].is_clear(chip_started[c]));
    assert(chain.chip@[c].core@[k] == (CoreCounter { valid: 0, errors: 0 }));
}

} // verus!
