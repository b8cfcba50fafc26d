use vstd::prelude::*;

use crate::palette::{kind_palette, section_palette_index, PALETTE_LEN};

verus! {

/// Beat timing as it arrives on the wire.
pub struct RawTiming {
    pub first_beat_ms: u32,
    pub beat_deltas_ms: Vec<u16>,
    /// Bit `i % 8` of byte `i / 8` is set when beat `i` starts a bar.
    pub downbeat_bits: Vec<u8>,
}

/// A song section as it arrives on the wire.
pub struct RawSection {
    pub start_beat: u16,
    pub kind: String,
    pub energy: u8,
}

/// The subset of the beatmap wire format that the LEDs follow.
pub struct RawBeatmap {
    pub timing: RawTiming,
    pub calibration_ms: i32,
    pub sections: Vec<RawSection>,
}

/// Sum of the first `k` beat deltas.
pub open spec fn delta_sum(deltas: Seq<u16>, k: int) -> int
    decreases k,
{
    if k <= 0 {
        0
    } else {
        delta_sum(deltas, k - 1) + deltas[k - 1]
    }
}

/// Number of beats a timing describes: the first beat and one per delta.
pub open spec fn beat_count(t: RawTiming) -> int {
    t.beat_deltas_ms@.len() as int + 1
}

/// Absolute time of beat `k` (ms from track start).
pub open spec fn beat_time(t: RawTiming, k: int) -> int {
    t.first_beat_ms + delta_sum(t.beat_deltas_ms@, k)
}

/// The last beat, and therefore every beat, lies within `u32` milliseconds.
pub open spec fn timeline_fits(t: RawTiming) -> bool {
    beat_time(t, t.beat_deltas_ms@.len() as int) <= u32::MAX
}

/// Whether beat `i` is a downbeat according to the packed bit array;
/// beats past the end of the array are not.
pub open spec fn downbeat_flag(bits: Seq<u8>, i: int) -> bool {
    if 0 <= i && i / 8 < bits.len() {
        (bits[i / 8] >> ((i % 8) as u8)) & 1u8 == 1u8
    } else {
        false
    }
}

/// Bar number of beat `i`: the downbeats among beats `1..=i`.
pub open spec fn bar_number(bits: Seq<u8>, i: int) -> int
    decreases i,
{
    if i <= 0 {
        0
    } else {
        bar_number(bits, i - 1) + if downbeat_flag(bits, i) {
            1int
        } else {
            0int
        }
    }
}

/// The section, among the first `k`, that governs `beat`: the last one met
/// whose start is at or before `beat` and not below the start of the one
/// chosen so far.
pub open spec fn active_section(secs: Seq<RawSection>, beat: int, k: int) -> Option<int>
    decreases k,
{
    if k <= 0 {
        None
    } else {
        let prev = active_section(secs, beat, k - 1);
        if secs[k - 1].start_beat <= beat && (match prev {
            Some(p) => secs[p].start_beat <= secs[k - 1].start_beat,
            None => true,
        }) {
            Some(k - 1)
        } else {
            prev
        }
    }
}

/// Palette entry of beat `i`: the colour of the governing section's kind,
/// or the bar number taken round the palette when there is no governing
/// section or its kind has no colour.
pub open spec fn beat_palette(raw: RawBeatmap, i: int) -> int {
    let fallback = bar_number(raw.timing.downbeat_bits@, i) % (PALETTE_LEN as int);
    match active_section(raw.sections@, i, raw.sections@.len() as int) {
        Some(j) => match kind_palette(raw.sections@[j].kind@) {
            Some(p) => p as int,
            None => fallback,
        },
        None => fallback,
    }
}

impl RawTiming {
    /// Whether the timing can be decoded: every beat time fits in `u32`
    /// and the beat count in `usize`.
    pub fn fits(&self) -> (r: bool)
        ensures
            r == (timeline_fits(*self) && self.beat_deltas_ms@.len() < usize::MAX),
    {
        let nd = self.beat_deltas_ms.len();
        let mut acc: u64 = self.first_beat_ms as u64;
        let mut k: usize = 0;
        while k < nd
            invariant
                k <= nd,
                nd == self.beat_deltas_ms@.len(),
                acc == beat_time(*self, k as int),
                acc <= u32::MAX,
            decreases nd - k,
        {
            acc = acc + self.beat_deltas_ms[k] as u64;
            if acc > u32::MAX as u64 {
                proof {
                    lemma_beat_time_monotone(*self, (k + 1) as int, nd as int);
                }
                return false;
            }
            k = k + 1;
        }
        nd < usize::MAX
    }
}

pub open spec fn as_index(o: Option<usize>) -> Option<int> {
    match o {
        Some(b) => Some(b as int),
        None => None,
    }
}

/// Beat times never decrease.
pub proof fn lemma_beat_time_monotone(t: RawTiming, a: int, b: int)
    requires
        0 <= a <= b,
    ensures
        beat_time(t, a) <= beat_time(t, b),
    decreases b - a,
{
    if a < b {
        lemma_beat_time_monotone(t, a, b - 1);
    }
}

/// Bar numbers start at zero and grow by at most one per beat.
pub proof fn lemma_bar_number_bounds(bits: Seq<u8>, i: int)
    requires
        0 <= i,
    ensures
        0 <= bar_number(bits, i) <= i,
    decreases i,
{
    if i > 0 {
        lemma_bar_number_bounds(bits, i - 1);
    }
}

/// The section governing a beat is the one with the greatest start at or
/// before the beat, the later-listed one winning among equal starts; there
/// is none exactly when every section starts after the beat.
pub proof fn lemma_active_section_latest(secs: Seq<RawSection>, beat: int, k: int)
    requires
        0 <= k <= secs.len(),
    ensures
        active_section(secs, beat, k) is None <==> (forall|q: int|
            0 <= q < k ==> secs[q].start_beat > beat),
        active_section(secs, beat, k) matches Some(j) ==> {
            &&& 0 <= j < k
            &&& secs[j].start_beat <= beat
            &&& forall|q: int|
                0 <= q < k && secs[q].start_beat <= beat ==> (secs[q].start_beat
                    < secs[j].start_beat || (secs[q].start_beat == secs[j].start_beat && q <= j))
        },
    decreases k,
{
    if k > 0 {
        lemma_active_section_latest(secs, beat, k - 1);
    }
}

/// Every beat is given an entry of the palette.
pub proof fn lemma_beat_palette_in_range(raw: RawBeatmap, i: int)
    requires
        0 <= i,
    ensures
        0 <= beat_palette(raw, i) < PALETTE_LEN,
{
    lemma_bar_number_bounds(raw.timing.downbeat_bits@, i);
    let secs = raw.sections@;
    lemma_active_section_latest(secs, i, secs.len() as int);
}

/// The predicate picking downbeats out of decoded flags.
pub open spec fn is_downbeat_flag() -> spec_fn(bool) -> bool {
    |b: bool| b
}

/// Number of downbeats among beats `1..=k` of decoded downbeat flags.
pub open spec fn downbeats_through(flags: Seq<bool>, k: int) -> int {
    flags.subrange(1, k + 1).filter(is_downbeat_flag()).len() as int
}

/// Section `j` governs `beat`: it has started by then, and every other
/// section that has started by then started earlier or, starting on the
/// same beat, is listed before it.
pub open spec fn governs(secs: Seq<RawSection>, beat: int, j: int) -> bool {
    &&& 0 <= j < secs.len()
    &&& secs[j].start_beat <= beat
    &&& forall|q: int|
        0 <= q < secs.len() && secs[q].start_beat <= beat ==> (secs[q].start_beat
            < secs[j].start_beat || (secs[q].start_beat == secs[j].start_beat && q <= j))
}

/// The bar number of a beat is the number of downbeats among the beats
/// after the first, up to and including it.
pub proof fn lemma_bar_number_counts_downbeats(bits: Seq<u8>, flags: Seq<bool>, k: int)
    requires
        0 <= k < flags.len(),
        forall|j: int| 0 <= j < flags.len() ==> flags[j] == downbeat_flag(bits, j),
    ensures
        bar_number(bits, k) == downbeats_through(flags, k),
    decreases k,
{
    let p = is_downbeat_flag();
    if k == 0 {
        assert(flags.subrange(1, 1) =~= Seq::<bool>::empty());
        flags.subrange(1, 1).lemma_filter_len(p);
    } else {
        lemma_bar_number_counts_downbeats(bits, flags, k - 1);
        assert(flags.subrange(1, k + 1) =~= flags.subrange(1, k).push(flags[k]));
        flags.subrange(1, k).lemma_filter_len_push(p, flags[k]);
    }
}

/// At most one section governs a beat, and when any section has started by
/// then, the one `active_section` picks governs it.
pub proof fn lemma_governing_section(secs: Seq<RawSection>, beat: int, j: int)
    requires
        governs(secs, beat, j),
    ensures
        active_section(secs, beat, secs.len() as int) == Some(j),
{
    lemma_active_section_latest(secs, beat, secs.len() as int);
    let a = active_section(secs, beat, secs.len() as int);
    assert(a is Some);
    let i = a.unwrap();
    assert(secs[j].start_beat <= secs[i].start_beat);
    assert(secs[i].start_beat <= secs[j].start_beat);
}

/// A beat that no section has reached takes the colour of its bar: the
/// number of downbeats after the first beat, up to it, round the palette.
pub proof fn lemma_palette_before_sections(raw: RawBeatmap, k: int)
    requires
        0 <= k,
        forall|q: int| 0 <= q < raw.sections@.len() ==> raw.sections@[q].start_beat > k,
    ensures
        beat_palette(raw, k) == bar_number(raw.timing.downbeat_bits@, k) % (PALETTE_LEN as int),
{
    lemma_active_section_latest(raw.sections@, k, raw.sections@.len() as int);
}

/// A beat governed by a section of a coloured kind takes that colour; one
/// governed by a section of another kind takes the colour of its bar.
pub proof fn lemma_palette_of_governing_section(raw: RawBeatmap, k: int, j: int)
    requires
        0 <= k,
        governs(raw.sections@, k, j),
    ensures
        beat_palette(raw, k) == (match kind_palette(raw.sections@[j].kind@) {
            Some(p) => p as int,
            None => bar_number(raw.timing.downbeat_bits@, k) % (PALETTE_LEN as int),
        }),
{
    lemma_governing_section(raw.sections@, k, j);
}

/// A decoded beatmap: one entry per beat.
pub struct BeatmapData {
    beat_times_ms: Vec<u32>,
    is_downbeat: Vec<bool>,
    beat_palette_index: Vec<usize>,
    calibration_ms: i32,
}

impl BeatmapData {
    #[verifier::type_invariant]
    spec fn well_formed(self) -> bool {
        &&& self.beat_times_ms@.len() >= 1
        &&& self.is_downbeat@.len() == self.beat_times_ms@.len()
        &&& self.beat_palette_index@.len() == self.beat_times_ms@.len()
        &&& forall|a: int, b: int|
            0 <= a <= b < self.beat_times_ms@.len() ==> self.beat_times_ms@[a]
                <= self.beat_times_ms@[b]
        &&& forall|a: int|
            0 <= a < self.beat_palette_index@.len() ==> self.beat_palette_index@[a] < PALETTE_LEN
    }

    /// Absolute beat timestamps (ms from track start).
    pub closed spec fn beat_times(&self) -> Seq<u32> {
        self.beat_times_ms@
    }

    /// Whether each beat is a downbeat (bar start).
    pub closed spec fn downbeats(&self) -> Seq<bool> {
        self.is_downbeat@
    }

    /// Palette entry of each beat.
    pub closed spec fn palette_indices(&self) -> Seq<usize> {
        self.beat_palette_index@
    }

    /// Signed timing correction applied to all beat positions.
    pub closed spec fn calibration(&self) -> i32 {
        self.calibration_ms
    }

    /// Absolute beat timestamps (ms from track start).
    pub fn beat_times_ms(&self) -> (r: &Vec<u32>)
        ensures
            r@ == self.beat_times(),
    {
        &self.beat_times_ms
    }

    /// Whether each beat is a downbeat (bar start).
    pub fn is_downbeat(&self) -> (r: &Vec<bool>)
        ensures
            r@ == self.downbeats(),
    {
        &self.is_downbeat
    }

    /// Palette entry of each beat.
    pub fn beat_palette_index(&self) -> (r: &Vec<usize>)
        ensures
            r@ == self.palette_indices(),
    {
        &self.beat_palette_index
    }

    /// Signed timing correction applied to all beat positions.
    pub fn calibration_ms(&self) -> (r: i32)
        ensures
            r == self.calibration(),
    {
        self.calibration_ms
    }

    /// Decodes a wire beatmap: absolute beat times from the deltas, the
    /// downbeat flags from the packed bits, and each beat's palette entry
    /// from the section governing it (falling back to its bar number).
    pub fn from_raw(raw: RawBeatmap) -> (bm: Self)
        requires
            timeline_fits(raw.timing),
            raw.timing.beat_deltas_ms@.len() < usize::MAX,
        ensures
            bm.beat_times().len() == beat_count(raw.timing),
            forall|k: int|
                0 <= k < beat_count(raw.timing) ==> bm.beat_times()[k] == beat_time(raw.timing, k),
            forall|a: int, b: int|
                0 <= a <= b < bm.beat_times().len() ==> bm.beat_times()[a] <= bm.beat_times()[b],
            bm.beat_times()[0] == raw.timing.first_beat_ms,
            forall|k: int|
                #![trigger bm.beat_times()[k + 1]]
                0 <= k < raw.timing.beat_deltas_ms@.len() ==> bm.beat_times()[k + 1] as int
                    == bm.beat_times()[k] + raw.timing.beat_deltas_ms@[k],
            bm.downbeats().len() == beat_count(raw.timing),
            forall|k: int|
                0 <= k < beat_count(raw.timing) ==> bm.downbeats()[k] == downbeat_flag(
                    raw.timing.downbeat_bits@,
                    k,
                ),
            bm.palette_indices().len() == beat_count(raw.timing),
            forall|k: int|
                0 <= k < beat_count(raw.timing) ==> bm.palette_indices()[k] == beat_palette(raw, k),
            forall|k: int| 0 <= k < bm.palette_indices().len() ==> bm.palette_indices()[k] < PALETTE_LEN,
            forall|k: int|
                #![trigger bm.palette_indices()[k]]
                0 <= k < beat_count(raw.timing) && (forall|q: int|
                    0 <= q < raw.sections@.len() ==> raw.sections@[q].start_beat > k)
                    ==> bm.palette_indices()[k] == downbeats_through(bm.downbeats(), k) % (
                PALETTE_LEN as int),
            forall|k: int, j: int|
                #![trigger bm.palette_indices()[k], governs(raw.sections@, k, j)]
                0 <= k < beat_count(raw.timing) && governs(raw.sections@, k, j)
                    ==> bm.palette_indices()[k] == (match kind_palette(raw.sections@[j].kind@) {
                    Some(p) => p as int,
                    None => downbeats_through(bm.downbeats(), k) % (PALETTE_LEN as int),
                }),
            bm.calibration() == raw.calibration_ms,
    {
        let nd = raw.timing.beat_deltas_ms.len();
        let n = nd + 1;

        // Absolute beat times.
        let mut times: Vec<u32> = Vec::new();
        let mut cur: u32 = raw.timing.first_beat_ms;
        times.push(cur);
        let mut k: usize = 0;
        while k < nd
            invariant
                k <= nd,
                nd == raw.timing.beat_deltas_ms@.len(),
                timeline_fits(raw.timing),
                times@.len() == k + 1,
                cur == beat_time(raw.timing, k as int),
                forall|j: int| 0 <= j <= k ==> times@[j] == beat_time(raw.timing, j),
            decreases nd - k,
        {
            proof {
                lemma_beat_time_monotone(raw.timing, (k + 1) as int, nd as int);
            }
            cur = cur + raw.timing.beat_deltas_ms[k] as u32;
            times.push(cur);
            k = k + 1;
        }

        // Downbeat flags.
        let mut flags: Vec<bool> = Vec::new();
        let mut i: usize = 0;
        while i < n
            invariant
                i <= n,
                flags@.len() == i,
                forall|j: int|
                    0 <= j < i ==> flags@[j] == downbeat_flag(raw.timing.downbeat_bits@, j),
            decreases n - i,
        {
            let byte = i / 8;
            let f = if byte < raw.timing.downbeat_bits.len() {
                (raw.timing.downbeat_bits[byte] >> ((i % 8) as u8)) & 1u8 == 1u8
            } else {
                false
            };
            flags.push(f);
            i = i + 1;
        }

        // Bar numbers, the fallback colouring.
        let mut bars: Vec<usize> = Vec::new();
        let mut bar: usize = 0;
        let mut i: usize = 0;
        while i < n
            invariant
                i <= n,
                flags@.len() == n,
                forall|j: int|
                    0 <= j < n ==> flags@[j] == downbeat_flag(raw.timing.downbeat_bits@, j),
                bars@.len() == i,
                bar <= i,
                bar == if i == 0 {
                    0
                } else {
                    bar_number(raw.timing.downbeat_bits@, i - 1)
                },
                forall|j: int| 0 <= j < i ==> bars@[j] == bar_number(raw.timing.downbeat_bits@, j),
            decreases n - i,
        {
            if i > 0 && flags[i] {
                bar = bar + 1;
            }
            bars.push(bar);
            i = i + 1;
        }

        // Palette entry of each section's kind.
        let m = raw.sections.len();
        let mut kinds: Vec<Option<usize>> = Vec::new();
        let mut j: usize = 0;
        while j < m
            invariant
                j <= m,
                m == raw.sections@.len(),
                kinds@.len() == j,
                forall|q: int| 0 <= q < j ==> kinds@[q] == kind_palette(raw.sections@[q].kind@),
            decreases m - j,
        {
            kinds.push(section_palette_index(raw.sections[j].kind.as_str()));
            j = j + 1;
        }

        // Palette entry of each beat.
        let mut pal: Vec<usize> = Vec::new();
        let mut i: usize = 0;
        while i < n
            invariant
                i <= n,
                m == raw.sections@.len(),
                kinds@.len() == m,
                forall|q: int| 0 <= q < m ==> kinds@[q] == kind_palette(raw.sections@[q].kind@),
                bars@.len() == n,
                forall|q: int| 0 <= q < n ==> bars@[q] == bar_number(raw.timing.downbeat_bits@, q),
                pal@.len() == i,
                forall|q: int| 0 <= q < i ==> pal@[q] == beat_palette(raw, q),
            decreases n - i,
        {
            let mut best: Option<usize> = None;
            let mut j: usize = 0;
            while j < m
                invariant
                    j <= m,
                    m == raw.sections@.len(),
                    as_index(best) == active_section(raw.sections@, i as int, j as int),
                    best matches Some(b) ==> b < j,
                decreases m - j,
            {
                if raw.sections[j].start_beat as usize <= i {
                    let take = match best {
                        Some(b) => raw.sections[b].start_beat <= raw.sections[j].start_beat,
                        None => true,
                    };
                    if take {
                        best = Some(j);
                    }
                }
                j = j + 1;
            }
            let fallback = bars[i] % PALETTE_LEN;
            let p = match best {
                Some(b) => match kinds[b] {
                    Some(pi) => pi,
                    None => fallback,
                },
                None => fallback,
            };
            pal.push(p);
            i = i + 1;
        }

        proof {
            assert forall|a: int, b: int| 0 <= a <= b < times@.len() implies times@[a] <= times@[b] by {
                lemma_beat_time_monotone(raw.timing, a, b);
            }
            assert forall|a: int| 0 <= a < pal@.len() implies pal@[a] < PALETTE_LEN by {
                lemma_beat_palette_in_range(raw, a);
            }
            assert forall|k: int|
                0 <= k < n && (forall|q: int|
                    0 <= q < raw.sections@.len() ==> raw.sections@[q].start_beat > k) implies pal@[k]
                == downbeats_through(flags@, k) % (PALETTE_LEN as int) by {
                lemma_palette_before_sections(raw, k);
                lemma_bar_number_counts_downbeats(raw.timing.downbeat_bits@, flags@, k);
            }
            assert forall|k: int, j: int|
                0 <= k < n && governs(raw.sections@, k, j) implies pal@[k] == (match kind_palette(
                raw.sections@[j].kind@,
            ) {
                Some(p) => p as int,
                None => downbeats_through(flags@, k) % (PALETTE_LEN as int),
            }) by {
                lemma_palette_of_governing_section(raw, k, j);
                lemma_bar_number_counts_downbeats(raw.timing.downbeat_bits@, flags@, k);
            }
        }
        BeatmapData {
            beat_times_ms: times,
            is_downbeat: flags,
            beat_palette_index: pal,
            calibration_ms: raw.calibration_ms,
        }
    }
}

/// Track position after the calibration correction: the position minus the
/// calibration, held within the `u32` range.
pub open spec fn calibrated_position(position_ms: u32, calibration_ms: i32) -> int {
    let p = position_ms - calibration_ms;
    if p < 0 {
        0
    } else if p > u32::MAX {
        u32::MAX as int
    } else {
        p
    }
}

/// `idx` is the beat in progress at `pos`: the last beat starting at or
/// before `pos`, or the first beat when `pos` precedes them all.
pub open spec fn is_beat_index(times: Seq<u32>, pos: int, idx: int) -> bool {
    &&& 0 <= idx < times.len()
    &&& ((times[idx] <= pos && (idx + 1 == times.len() || pos < times[idx + 1])) || (idx == 0
        && pos < times[0]))
}

/// Applies a calibration correction to a playback position.
pub fn calibrate_position(position_ms: u32, calibration_ms: i32) -> (pos: u32)
    ensures
        pos == calibrated_position(position_ms, calibration_ms),
        calibration_ms >= 0 ==> pos <= position_ms,
        calibration_ms <= 0 ==> pos >= position_ms,
        0 <= position_ms - calibration_ms <= u32::MAX ==> pos + calibration_ms == position_ms,
{
    if calibration_ms >= 0 {
        position_ms.saturating_sub(calibration_ms as u32)
    } else {
        let shift = (0i64 - calibration_ms as i64) as u32;
        position_ms.saturating_add(shift)
    }
}

/// Binary search for the beat in progress at `pos` in sorted beat times.
fn beat_index_at(times: &Vec<u32>, pos: u32) -> (idx: usize)
    requires
        times@.len() >= 1,
        forall|a: int, b: int| 0 <= a <= b < times@.len() ==> times@[a] <= times@[b],
    ensures
        is_beat_index(times@, pos as int, idx as int),
{
    let mut lo: usize = 0;
    let mut hi: usize = times.len();
    while lo < hi
        invariant
            0 <= lo <= hi <= times@.len(),
            forall|a: int, b: int| 0 <= a <= b < times@.len() ==> times@[a] <= times@[b],
            forall|k: int| 0 <= k < lo ==> times@[k] <= pos,
            forall|k: int| hi <= k < times@.len() ==> times@[k] > pos,
        decreases hi - lo,
    {
        let mid = lo + (hi - lo) / 2;
        if times[mid] <= pos {
            lo = mid + 1;
        } else {
            hi = mid;
        }
    }
    if lo == 0 {
        0
    } else {
        lo - 1
    }
}

/// Where playback stands within the beat grid.
pub struct BeatState {
    /// Index of the beat in progress.
    pub beat_index: usize,
    /// Milliseconds since that beat started (0 before the first beat).
    pub offset_ms: u32,
    /// Length of that beat: the gap to the next beat, or 500 ms for the last.
    pub length_ms: u32,
    pub is_downbeat: bool,
    pub palette_index: usize,
}

/// `bs` describes playback at `position_ms` in `bm`: the beat in progress at
/// the calibrated position, the time into it, its length (the gap to the
/// next beat, 500 ms for the last), its downbeat flag and palette entry.
pub open spec fn beat_state_matches(bm: &BeatmapData, position_ms: u32, bs: BeatState) -> bool {
    let pos = calibrated_position(position_ms, bm.calibration());
    let times = bm.beat_times();
    let i = bs.beat_index as int;
    &&& is_beat_index(times, pos, i)
    &&& bs.offset_ms == (if pos >= times[i] {
        pos - times[i]
    } else {
        0
    })
    &&& bs.length_ms == (if i + 1 < times.len() {
        times[i + 1] - times[i]
    } else {
        500
    })
    &&& bs.is_downbeat == bm.downbeats()[i]
    &&& bs.palette_index == bm.palette_indices()[i]
    &&& bs.palette_index < PALETTE_LEN
}

/// Within a beat that has a successor, the time into the beat stays below
/// the beat's length (and is zero when that length is zero): the flash
/// phase never reaches the next beat.
pub proof fn lemma_offset_within_beat(bm: &BeatmapData, position_ms: u32, bs: BeatState)
    requires
        beat_state_matches(bm, position_ms, bs),
        bs.beat_index + 1 < bm.beat_times().len(),
    ensures
        bs.length_ms > 0 ==> bs.offset_ms < bs.length_ms,
        bs.length_ms == 0 ==> bs.offset_ms == 0,
{
}

/// Beat state at a playback position, after the beatmap's calibration.
pub fn beat_state_at(bm: &BeatmapData, position_ms: u32) -> (bs: BeatState)
    ensures
        beat_state_matches(bm, position_ms, bs),
{
    proof {
        use_type_invariant(bm);
    }
    let pos = calibrate_position(position_ms, bm.calibration_ms);
    let times = &bm.beat_times_ms;
    let idx = beat_index_at(times, pos);
    let beat_start = times[idx];
    let length_ms = if idx < times.len() - 1 {
        times[idx + 1] - beat_start
    } else {
        500
    };
    BeatState {
        beat_index: idx,
        offset_ms: pos.saturating_sub(beat_start),
        length_ms,
        is_downbeat: bm.is_downbeat[idx],
        palette_index: bm.beat_palette_index[idx],
    }
}

} // verus!
