//! Clock frequencies of the chips of a hash chain.

use vstd::prelude::*;

verus! {

/// The maximum number of chips is limited by the fact that there is only an 8-bit
/// address field and addresses to the chips need to be assigned with a step of 4
/// (0, 4, 8, and so on).
pub const MAX_CHIPS_ON_CHAIN: usize = 64;

/// The frequencies that were set.
#[derive(Debug)]
pub struct HashChainPll {
    /// The frequency of each chip, once it was set.
    pub chip_freq: Vec<Option<usize>>,
    /// The frequency that the work time was last set for.
    pub max_freq: Option<usize>,
}

impl HashChainPll {
    /// The frequency that the work time suffices for.
    pub open spec fn covered(self) -> int {
        match self.max_freq {
            Some(freq) => freq as int,
            None => 0,
        }
    }

    /// There is a place for each chip, and the work time is short enough for the
    /// fastest of them.
    pub open spec fn wf(self) -> bool {
        &&& self.chip_freq@.len() == MAX_CHIPS_ON_CHAIN
        &&& forall|i: int|
            0 <= i < self.chip_freq@.len() ==> (#[trigger] self.chip_freq@[i] matches Some(freq)
                ==> freq <= self.covered())
    }

    /// Whether the chips below `n` run at the frequencies of a table.
    pub open spec fn follows(self, table: Seq<usize>, n: int) -> bool {
        forall|i: int| 0 <= i < n ==> #[trigger] self.chip_freq@[i] == Some(table[i])
    }

    /// `post` and `r` are what comes of setting the frequency of a chip, if
    /// loading it into the chip has the outcome `chip`: the frequency that a chip
    /// has already is not loaded, one that could not be loaded is not remembered,
    /// and `r` says whether the work time is now too slow.
    pub open spec fn set_to<E>(
        self,
        post: Self,
        freq: usize,
        chip_id: int,
        chip: Result<(), E>,
        r: Result<bool, E>,
    ) -> bool {
        if self.chip_freq@[chip_id] == Some(freq) {
            post == self && r == Ok::<bool, E>(false)
        } else {
            match chip {
                Ok(_) => {
                    let too_slow = freq > self.covered();
                    &&& post.chip_freq@ == self.chip_freq@.update(chip_id, Some(freq))
                    &&& post.max_freq == if too_slow {
                        Some(freq)
                    } else {
                        self.max_freq
                    }
                    &&& r == Ok::<bool, E>(too_slow)
                },
                Err(e) => post == self && r == Err::<bool, E>(e),
            }
        }
    }

    /// No frequency was set yet.
    pub fn new() -> (r: Self)
        ensures
            r.max_freq is None,
            forall|i: int| 0 <= i < MAX_CHIPS_ON_CHAIN ==> #[trigger] r.chip_freq@[i] is None,
            r.wf(),
    {
        let chip_freq: Vec<Option<usize>> = vec![None; MAX_CHIPS_ON_CHAIN];
        HashChainPll { chip_freq, max_freq: None }
    }

    /// Takes note of a frequency that the work time has to suffice for.
    ///
    /// Returns whether the work time is too slow for it and has to be set anew,
    /// for this frequency.
    pub fn set_work_time(&mut self, new_freq: usize) -> (r: bool)
        ensures
            r == (new_freq > old(self).covered()),
            r == (match old(self).max_freq {
                Some(max_freq) => new_freq > max_freq,
                None => new_freq > 0,
            }),
            final(self).max_freq == if r {
                Some(new_freq)
            } else {
                old(self).max_freq
            },
            final(self).chip_freq == old(self).chip_freq,
            final(self).covered() >= new_freq,
            final(self).covered() >= old(self).covered(),
            old(self).wf() ==> final(self).wf(),
    {
        let current_max_freq: usize = match self.max_freq {
            Some(freq) => freq,
            None => 0,
        };
        if new_freq > current_max_freq {
            self.max_freq = Some(new_freq);
            true
        } else {
            false
        }
    }

    /// Whether a chip does not run at this frequency already.
    pub fn needs_pll(&self, freq: usize, chip_id: usize) -> (r: bool)
        requires
            chip_id < self.chip_freq@.len(),
        ensures
            r == (self.chip_freq@[chip_id as int] != Some(freq)),
    {
        match self.chip_freq[chip_id] {
            Some(current) => current != freq,
            None => true,
        }
    }

    /// Sets the frequency of a chip and remembers it.
    ///
    /// `chip` is what became of loading the frequency into the chip. That is only
    /// done, and its outcome only counts, if the frequency changes.
    ///
    /// Returns whether the work time has to be set anew, for this frequency.
    pub fn set_pll<E>(&mut self, freq: usize, chip_id: usize, chip: Result<(), E>) -> (r: Result<
        bool,
        E,
    >)
        requires
            old(self).wf(),
            chip_id < MAX_CHIPS_ON_CHAIN,
        ensures
            final(self).wf(),
            old(self).set_to(*final(self), freq, chip_id as int, chip, r),
    {
        if !self.needs_pll(freq, chip_id) {
            return Ok(false);
        }
        match chip {
            Ok(_) => {
                self.chip_freq[chip_id] = Some(freq);
                let work_time_changes = self.set_work_time(freq);
                assert forall|i: int| 0 <= i < self.chip_freq@.len() implies (
                #[trigger] self.chip_freq@[i] matches Some(f) ==> f <= self.covered()) by {
                    if i != chip_id {
                        assert(self.chip_freq@[i] == old(self).chip_freq@[i]);
                    }
                }
                Ok(work_time_changes)
            },
            Err(e) => Err(e),
        }
    }
}

/// The task of giving each chip the frequency that a table holds for it.
#[derive(Debug)]
pub struct PllTable {
    pub table: Vec<usize>,
    pub chip_count: usize,
    /// The chips below this one follow the table.
    pub next: usize,
}

impl PllTable {
    /// The table holds a frequency for each chip, and the chips that the task is
    /// done with follow it.
    pub open spec fn holds_of(self, pll: HashChainPll) -> bool {
        &&& self.next <= self.chip_count <= MAX_CHIPS_ON_CHAIN
        &&& self.chip_count <= self.table@.len()
        &&& pll.wf()
        &&& pll.follows(self.table@, self.next as int)
    }

    pub fn new(table: Vec<usize>, chip_count: usize) -> (r: Self)
        requires
            chip_count <= MAX_CHIPS_ON_CHAIN,
            chip_count <= table@.len(),
        ensures
            r == (PllTable { table, chip_count, next: 0 }),
            forall|pll: HashChainPll| pll.wf() ==> #[trigger] r.holds_of(pll),
    {
        PllTable { table, chip_count, next: 0 }
    }

    /// The next chip whose frequency has to be changed, with that frequency. When
    /// there is none left, all chips follow the table.
    ///
    /// The chip comes again until its frequency was set.
    pub fn next_chip(&mut self, pll: &HashChainPll) -> (r: Option<(usize, usize)>)
        requires
            old(self).holds_of(*pll),
        ensures
            final(self).holds_of(*pll),
            final(self).table == old(self).table,
            final(self).chip_count == old(self).chip_count,
            final(self).next >= old(self).next,
            match r {
                Some((chip_id, freq)) => {
                    &&& chip_id == final(self).next
                    &&& chip_id < old(self).chip_count
                    &&& freq == old(self).table@[chip_id as int]
                    &&& pll.chip_freq@[chip_id as int] != Some(freq)
                    &&& forall|i: int|
                        0 <= i < chip_id ==> #[trigger] pll.chip_freq@[i] == Some(
                            old(self).table@[i],
                        )
                },
                None => true,
            },
            r is None <==> pll.follows(old(self).table@, old(self).chip_count as int),
            r is None <==> forall|i: int|
                0 <= i < old(self).chip_count ==> #[trigger] pll.chip_freq@[i] == Some(
                    old(self).table@[i],
                ),
    {
        while self.next < self.chip_count
            invariant
                self.holds_of(*pll),
                self.table == old(self).table,
                self.chip_count == old(self).chip_count,
                self.next >= old(self).next,
            decreases self.chip_count - self.next,
        {
            let freq: usize = self.table[self.next];
            if pll.needs_pll(freq, self.next) {
                return Some((self.next, freq));
            }
            self.next = self.next + 1;
        }
        None
    }
}

/// Setting the frequency of the next chip of a table leaves the chips before it as
/// they are, and if it succeeds, this chip follows the table too.
pub proof fn law_table_is_set_chip_by_chip<E>(
    task: PllTable,
    pre: HashChainPll,
    post: HashChainPll,
    chip: Result<(), E>,
    r: Result<bool, E>,
)
    requires
        task.holds_of(pre),
        task.next < task.chip_count,
        pre.set_to(post, task.table@[task.next as int], task.next as int, chip, r),
        post.wf(),
    ensures
        task.holds_of(post),
        r is Ok ==> post.follows(task.table@, task.next + 1),
{
    assert forall|i: int| 0 <= i < task.next implies #[trigger] post.chip_freq@[i] == Some(
        task.table@[i],
    ) by {
        assert(pre.chip_freq@[i] == Some(task.table@[i]));
    }
}

/// How many nonces there are in one piece of work for each core: some nonces are
/// never computed, since the nonce space is divided by chip and core addresses.
pub fn work_space_size(n_midstates: usize) -> (r: u64)
    requires
        n_midstates * 0x8_0000 <= u64::MAX,
    ensures
        r == n_midstates * 0x8_0000,
{
    let space_size_per_core: u64 = 0x8_0000;
    n_midstates as u64 * space_size_per_core
}

/// The work time is fast enough for every chip: the frequency that it was last set for
/// is at least the one that is remembered for the chip.
pub proof fn law_work_time_is_fast_enough(pll: HashChainPll, i: int)
    requires
        pll.wf(),
        0 <= i < 64,
    ensures
        pll.chip_freq@.len() == 64,
        pll.chip_freq@[i] matches Some(freq) ==> freq == 0 || (pll.max_freq matches Some(max_freq)
            && freq <= max_freq),
{
    assert(pll.chip_freq@[i] matches Some(freq) ==> freq <= pll.covered());
}

/// What setting the frequency of a chip does. A chip that runs at it already is left
/// alone. A failure to load it leaves everything as it was and is handed on. Otherwise
/// it is remembered for that chip and for no other, and the work time is set anew, for
/// it, exactly if it is above the frequency that the work time was last set for.
pub proof fn law_setting_a_frequency<E>(
    pre: HashChainPll,
    post: HashChainPll,
    freq: usize,
    chip_id: int,
    chip: Result<(), E>,
    r: Result<bool, E>,
)
    requires
        pre.set_to(post, freq, chip_id, chip, r),
        0 <= chip_id < pre.chip_freq@.len(),
    ensures
        pre.chip_freq@[chip_id] == Some(freq) ==> post == pre && r == Ok::<bool, E>(false),
        pre.chip_freq@[chip_id] != Some(freq) ==> {
            &&& chip matches Err(e) ==> post == pre && r == Err::<bool, E>(e)
            &&& chip is Ok ==> {
                let changes = match pre.max_freq {
                    Some(max_freq) => freq > max_freq,
                    None => freq > 0,
                };
                &&& r == Ok::<bool, E>(changes)
                &&& changes ==> post.max_freq == Some(freq)
                &&& !changes ==> post.max_freq == pre.max_freq
            }
        },
        post.chip_freq@.len() == pre.chip_freq@.len(),
        r is Ok ==> post.chip_freq@[chip_id] == Some(freq),
        forall|i: int|
            0 <= i < pre.chip_freq@.len() && i != chip_id ==> #[trigger] post.chip_freq@[i]
                == pre.chip_freq@[i],
{
}

/// Setting the same frequency of a chip again changes nothing and needs no new work
/// time, whatever would become of loading it.
pub proof fn law_frequency_is_set_once<E>(
    pre: HashChainPll,
    mid: HashChainPll,
    post: HashChainPll,
    freq: usize,
    chip_id: int,
    first: Result<(), E>,
    second: Result<(), E>,
    work_time_changes: bool,
    r: Result<bool, E>,
)
    requires
        0 <= chip_id < pre.chip_freq@.len(),
        pre.set_to(mid, freq, chip_id, first, Ok::<bool, E>(work_time_changes)),
        mid.set_to(post, freq, chip_id, second, r),
    ensures
        post == mid,
        r == Ok::<bool, E>(false),
{
}

/// However frequencies were set, one after the other, since none was: the frequency
/// that the work time was last set for is at least every one that is remembered for a
/// chip, and it is itself one that was asked for.
pub proof fn law_work_time_follows_any_history(
    states: Seq<HashChainPll>,
    freqs: Seq<usize>,
    chip_ids: Seq<int>,
    chips: Seq<Result<(), ()>>,
    rs: Seq<Result<bool, ()>>,
    n: int,
)
    requires
        0 <= n < states.len(),
        states[0].max_freq is None,
        states[0].chip_freq@.len() == 64,
        forall|i: int| 0 <= i < 64 ==> #[trigger] states[0].chip_freq@[i] is None,
        forall|t: int| 0 <= t < n ==> 0 <= #[trigger] chip_ids[t] < 64,
        forall|t: int|
            0 <= t < n ==> (#[trigger] states[t]).set_to(
                states[t + 1],
                freqs[t],
                chip_ids[t],
                chips[t],
                rs[t],
            ),
    ensures
        states[n].chip_freq@.len() == 64,
        forall|i: int|
            0 <= i < 64 ==> (#[trigger] states[n].chip_freq@[i] matches Some(freq) ==> freq == 0
                || (states[n].max_freq matches Some(max_freq) && freq <= max_freq)),
        states[n].max_freq matches Some(max_freq) ==> exists|t: int|
            0 <= t < n && #[trigger] freqs[t] == max_freq,
    decreases n,
{
    if n > 0 {
        let t = n - 1;
        law_work_time_follows_any_history(states, freqs, chip_ids, chips, rs, t);
        assert(0 <= chip_ids[t] < 64);
        assert(states[t].set_to(states[t + 1], freqs[t], chip_ids[t], chips[t], rs[t]));
        law_setting_a_frequency(
            states[t],
            states[n],
            freqs[t],
            chip_ids[t],
            chips[t],
            rs[t],
        );
        assert forall|i: int| 0 <= i < 64 implies (#[trigger] states[n].chip_freq@[i] matches Some(
            freq,
        ) ==> freq == 0 || (states[n].max_freq matches Some(max_freq) && freq <= max_freq)) by {
            assert(states[t].chip_freq@[i] matches Some(freq) ==> freq == 0 || (
            states[t].max_freq matches Some(max_freq) && freq <= max_freq));
        }
        if let Some(max_freq) = states[n].max_freq {
            if states[t].max_freq == Some(max_freq) {
                let u = choose|u: int| 0 <= u < t && #[trigger] freqs[u] == max_freq;
                assert(freqs[u] == max_freq);
            } else {
                assert(freqs[t] == max_freq);
            }
        }
    }
}

/// Chips that follow a table run each at the frequency that the table holds for it.
pub proof fn law_following_a_table(pll: HashChainPll, table: Seq<usize>, n: int, i: int)
    requires
        pll.follows(table, n),
        0 <= i < n,
    ensures
        pll.chip_freq@[i] == Some(table[i]),
{
}

/// The task of setting a table is about at most 64 chips, for each of which the table
/// holds a frequency, and every chip that it is done with runs at its frequency.
pub proof fn law_progress_of_a_table(task: PllTable, pll: HashChainPll, i: int)
    requires
        task.holds_of(pll),
    ensures
        task.next <= task.chip_count <= 64,
        task.chip_count <= task.table@.len(),
        0 <= i < task.next ==> pll.chip_freq@[i] == Some(task.table@[i]),
{
}

} // verus!
