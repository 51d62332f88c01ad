//! The fan-curve controller: an ordered list of temperature bands and the
//! per-poll decision that keeps the hardware duty consistent with it.
//!
//! The controller never performs hardware work itself. Each poll cycle the
//! embedding program reads the temperature (through the driver machine of
//! `fan_control`), asks [`Controller::plan`] whether a duty write is due,
//! performs it if so, and records a successful write with
//! [`Controller::commit`]. A failed write is simply not committed, so the
//! same transition is planned again on the next cycle.

use vstd::prelude::*;
use vstd::seq_lib::group_to_multiset_ensures;

verus! {

/// Poll interval used when the configuration names none.
pub const DEFAULT_POLL_INTERVAL_MS: u64 = 3000;

/// One step of the fan curve: while the measured temperature lies strictly
/// between `begin_temp` and `end_temp`, the fan duty should be `fan` percent.
#[derive(Clone, Copy, Debug, PartialEq, Eq, Structural)]
pub struct FanState {
    pub fan: u8,
    pub end_temp: u8,
    pub begin_temp: u8,
}

/// Whether a temperature reading falls inside a band (strict at both ends).
pub open spec fn band_matches(band: FanState, temp: u8) -> bool {
    band.begin_temp < temp < band.end_temp
}

/// The band list is ordered by ascending duty.
pub open spec fn sorted_by_duty(bands: Seq<FanState>) -> bool {
    forall|k1: int, k2: int|
        0 <= k1 < k2 < bands.len() ==> bands[k1].fan <= bands[k2].fan
}

/// The band the controller targets for a reading: the last band in stored
/// order whose range contains it, or none. With the list sorted by ascending
/// duty, the last match is the highest-duty match.
pub open spec fn last_match(bands: Seq<FanState>, temp: u8) -> Option<int>
    decreases bands.len(),
{
    if bands.len() == 0 {
        None
    } else if band_matches(bands.last(), temp) {
        Some(bands.len() - 1)
    } else {
        last_match(bands.drop_last(), temp)
    }
}

/// `last_match` names a band exactly when some band contains the reading, it
/// names a band that contains it, and no later band does.
pub proof fn lemma_last_match_characterizes(bands: Seq<FanState>, temp: u8)
    ensures
        match last_match(bands, temp) {
            Some(i) => 0 <= i < bands.len() && band_matches(bands[i], temp) && (forall|j: int|
                i < j < bands.len() ==> !band_matches(bands[j], temp)),
            None => forall|j: int| 0 <= j < bands.len() ==> !band_matches(bands[j], temp),
        },
    decreases bands.len(),
{
    if bands.len() == 0 {
    } else if band_matches(bands.last(), temp) {
    } else {
        lemma_last_match_characterizes(bands.drop_last(), temp);
        assert(forall|j: int|
            0 <= j < bands.len() - 1 ==> bands.drop_last()[j] == #[trigger] bands[j]);
    }
}

/// Exchanging two positions of a sequence leaves its contents, as a
/// multiset, unchanged.
proof fn lemma_swap_preserves_multiset(s: Seq<FanState>, i: int, j: int)
    requires
        0 <= i < s.len(),
        0 <= j < s.len(),
        i != j,
    ensures
        s.update(i, s[j]).update(j, s[i]).to_multiset() == s.to_multiset(),
{
    broadcast use group_to_multiset_ensures;

    let s1 = s.update(i, s[j]);
    assert(s1[j] == s[j]);
    assert(s.contains(s[i]));
    assert(s1.contains(s1[j]));
    assert(s1.update(j, s[i]).to_multiset() =~= s.to_multiset());
}

/// Sorts the band list by ascending duty, keeping exactly the given bands.
/// The controller sorts once, before the first poll.
pub fn sort_bands(bands: &mut Vec<FanState>)
    ensures
        sorted_by_duty(final(bands)@),
        final(bands)@.to_multiset() == old(bands)@.to_multiset(),
        final(bands)@.len() == old(bands)@.len(),
{
    let n = bands.len();
    let mut i: usize = 1;
    while i < n
        invariant
            1 <= i,
            n == bands@.len(),
            bands@.len() == old(bands)@.len(),
            bands@.to_multiset() == old(bands)@.to_multiset(),
            forall|k1: int, k2: int|
                0 <= k1 < k2 < i && k2 < bands@.len() ==> bands@[k1].fan <= bands@[k2].fan,
        decreases n - i,
    {
        let mut j: usize = i;
        while j > 0 && bands[j - 1].fan > bands[j].fan
            invariant
                j <= i < n,
                n == bands@.len(),
                bands@.len() == old(bands)@.len(),
                bands@.to_multiset() == old(bands)@.to_multiset(),
                forall|k1: int, k2: int|
                    0 <= k1 < k2 <= i && k2 < bands@.len() && k2 != j ==> bands@[k1].fan
                        <= bands@[k2].fan,
            decreases j,
        {
            let ghost s0 = bands@;
            let lower = bands[j - 1];
            let upper = bands[j];
            bands.set(j - 1, upper);
            bands.set(j, lower);
            proof {
                lemma_swap_preserves_multiset(s0, j - 1, j as int);
            }
            j = j - 1;
        }
        i = i + 1;
    }
}

/// Finds the band the controller targets for `temp`: the last band in stored
/// order containing the reading, scanning the list in order and letting later
/// matches overwrite earlier ones.
pub fn select_band(bands: &Vec<FanState>, temp: u8) -> (r: Option<usize>)
    ensures
        match r {
            Some(i) => last_match(bands@, temp) == Some(i as int),
            None => last_match(bands@, temp) is None,
        },
{
    let mut best: Option<usize> = None;
    let n = bands.len();
    let mut idx: usize = 0;
    while idx < n
        invariant
            n == bands@.len(),
            idx <= n,
            match best {
                Some(b) => last_match(bands@.take(idx as int), temp) == Some(b as int),
                None => last_match(bands@.take(idx as int), temp) is None,
            },
        decreases n - idx,
    {
        let band = bands[idx];
        if band.begin_temp < temp && temp < band.end_temp {
            best = Some(idx);
        }
        proof {
            let grown = bands@.take(idx + 1);
            assert(grown.drop_last() =~= bands@.take(idx as int));
            assert(grown.last() == bands@[idx as int]);
        }
        idx = idx + 1;
    }
    proof {
        assert(bands@.take(n as int) =~= bands@);
    }
    best
}

/// The controller's state: the band list (sorted by ascending duty before the
/// first poll), the index of the band whose duty was last written to the
/// hardware, and the poll interval the embedding loop sleeps between cycles.
///
/// `active_band_index` exists purely to suppress redundant hardware writes;
/// it starts at the sentinel `bands.len()` — no band active — and moves only
/// when a duty write succeeds.
pub struct Controller {
    pub bands: Vec<FanState>,
    pub active_band_index: usize,
    pub poll_interval_ms: u64,
}

/// The duty write a poll cycle performs for reading `temp`, if any: the
/// target band's index and duty percentage when some band contains the
/// reading and that band is not already active; nothing when no band contains
/// the reading — the hardware keeps its last duty — or the target is already
/// active.
pub open spec fn plan_spec(c: Controller, temp: u8) -> Option<(usize, u8)> {
    match last_match(c.bands@, temp) {
        Some(i) => {
            if i != c.active_band_index as int {
                Some((i as usize, c.bands@[i].fan))
            } else {
                None
            }
        },
        None => None,
    }
}

impl Controller {
    /// Some band's duty has been written since the loop started.
    pub open spec fn has_active(self) -> bool {
        self.active_band_index < self.bands@.len()
    }

    /// Builds a controller: sorts the bands by ascending duty, takes the
    /// configured poll interval or the default, and marks no band active.
    pub fn new(bands: Vec<FanState>, poll_interval_ms: Option<u64>) -> (c: Controller)
        ensures
            sorted_by_duty(c.bands@),
            c.bands@.to_multiset() == bands@.to_multiset(),
            c.bands@.len() == bands@.len(),
            c.active_band_index == c.bands@.len(),
            !c.has_active(),
            c.poll_interval_ms == (match poll_interval_ms {
                Some(ms) => ms,
                None => DEFAULT_POLL_INTERVAL_MS,
            }),
    {
        let mut sorted = bands;
        sort_bands(&mut sorted);
        let interval = match poll_interval_ms {
            Some(ms) => ms,
            None => DEFAULT_POLL_INTERVAL_MS,
        };
        let sentinel = sorted.len();
        Controller { bands: sorted, active_band_index: sentinel, poll_interval_ms: interval }
    }

    /// Decides the duty write for one poll cycle, without performing it: the
    /// target band and duty when a transition is due, nothing when the
    /// reading lies outside every band or the target band is already active.
    pub fn plan(&self, temp: u8) -> (r: Option<(usize, u8)>)
        ensures
            r == plan_spec(*self, temp),
            r matches Some(t) ==> t.0 < self.bands@.len() && t.1 == self.bands@[t.0 as int].fan,
    {
        match select_band(&self.bands, temp) {
            Some(i) => {
                proof {
                    lemma_last_match_characterizes(self.bands@, temp);
                }
                if i != self.active_band_index {
                    Some((i, self.bands[i].fan))
                } else {
                    None
                }
            },
            None => None,
        }
    }

    /// Records that the duty of band `idx` was successfully written. Called
    /// only after the hardware reported success; on failure the state is left
    /// alone so the same transition is retried next cycle.
    pub fn commit(&mut self, idx: usize)
        requires
            idx < old(self).bands@.len(),
        ensures
            final(self).bands == old(self).bands,
            final(self).poll_interval_ms == old(self).poll_interval_ms,
            final(self).active_band_index == idx,
            final(self).has_active(),
    {
        self.active_band_index = idx;
    }
}

/// A reading inside exactly one band makes the controller plan exactly one
/// duty write — to that band's duty — whenever that band is not already
/// active; committing the write then records that band as active.
pub proof fn lemma_single_match_written(c: Controller, temp: u8, i: int)
    requires
        0 <= i < c.bands@.len(),
        band_matches(c.bands@[i], temp),
        forall|j: int| 0 <= j < c.bands@.len() && j != i ==> !band_matches(c.bands@[j], temp),
        c.active_band_index != i,
    ensures
        plan_spec(c, temp) == Some((i as usize, c.bands@[i].fan)),
{
    lemma_last_match_characterizes(c.bands@, temp);
}

/// Of two overlapping bands both containing the reading, the one later in
/// the stored order is targeted; with the list sorted by ascending duty that
/// is the higher-duty band.
pub proof fn lemma_overlap_picks_higher_duty(c: Controller, temp: u8, i1: int, i2: int)
    requires
        sorted_by_duty(c.bands@),
        0 <= i1 < i2 < c.bands@.len(),
        band_matches(c.bands@[i1], temp),
        band_matches(c.bands@[i2], temp),
        forall|j: int| i2 < j < c.bands@.len() ==> !band_matches(c.bands@[j], temp),
    ensures
        last_match(c.bands@, temp) == Some(i2),
        c.bands@[i1].fan <= c.bands@[i2].fan,
        c.active_band_index != i2 ==> plan_spec(c, temp) == Some((i2 as usize, c.bands@[i2].fan)),
{
    lemma_last_match_characterizes(c.bands@, temp);
}

/// Two consecutive readings that map to the same band cause one transition
/// only: for a controller whose first poll's write has been committed — its
/// active band is that reading's band — a second reading mapping to the same
/// band plans no write at all.
pub proof fn lemma_second_poll_suppressed(c: Controller, temp1: u8, temp2: u8)
    requires
        last_match(c.bands@, temp1) == Some(c.active_band_index as int),
        last_match(c.bands@, temp2) == Some(c.active_band_index as int),
    ensures
        plan_spec(c, temp2) is None,
{
}

/// A reading outside every band plans no duty write, so the hardware keeps
/// whatever duty was last set and the active band is left unchanged.
pub proof fn lemma_outside_bands_no_write(c: Controller, temp: u8)
    requires
        forall|j: int| 0 <= j < c.bands@.len() ==> !band_matches(c.bands@[j], temp),
    ensures
        plan_spec(c, temp) is None,
{
    lemma_last_match_characterizes(c.bands@, temp);
}

} // verus!
