use vstd::prelude::*;

verus! {

/// Target sample rate for whisper transcription.
pub const TARGET_SAMPLE_RATE: u32 = 16_000;

/// Sample format of a supported input configuration range, as far as the
/// recorder cares: 32-bit float samples or anything else.
#[derive(Debug, Clone, Copy, PartialEq, Eq, Structural)]
pub enum SampleKind {
    F32,
    Other,
}

/// One range of configurations that the input device supports.
#[derive(Debug, Clone, Copy, PartialEq, Eq, Structural)]
pub struct ConfigRange {
    pub channels: u16,
    pub min_sample_rate: u32,
    pub max_sample_rate: u32,
    pub sample_kind: SampleKind,
}

/// The range is mono, f32, and its rates run from at most 16 kHz to at
/// least 16 kHz.
pub open spec fn covers_16khz_mono_f32(range: ConfigRange) -> bool {
    range.channels == 1 && range.min_sample_rate <= 16000 && 16000 <= range.max_sample_rate
        && range.sample_kind == SampleKind::F32
}

/// A range supports recording 16 kHz mono f32 directly.
pub open spec fn supports_target(range: ConfigRange) -> bool {
    &&& range.channels == 1
    &&& range.min_sample_rate <= TARGET_SAMPLE_RATE
    &&& range.max_sample_rate >= TARGET_SAMPLE_RATE
    &&& range.sample_kind == SampleKind::F32
}

/// Returns the index of the first range that supports 16 kHz mono f32, or
/// `None` where no range does.
pub fn find_16khz_config(ranges: &Vec<ConfigRange>) -> (res: Option<usize>)
    ensures
        match res {
            Some(i) => i < ranges@.len() && supports_target(ranges@[i as int]) && forall|j: int|
                0 <= j < i ==> !supports_target(#[trigger] ranges@[j]),
            None => forall|j: int| 0 <= j < ranges@.len() ==> !supports_target(#[trigger] ranges@[j]),
        },
        res matches Some(i) ==> i < ranges@.len() && covers_16khz_mono_f32(ranges@[i as int]),
        res matches Some(i) ==> (ranges@[i as int].min_sample_rate <= 16000
            && 16000 <= ranges@[i as int].max_sample_rate),
        res matches Some(i) ==> (ranges@[i as int].channels == 1
            && ranges@[i as int].sample_kind == SampleKind::F32),
        forall|j: int|
            #![trigger ranges@[j]]
            0 <= j < ranges@.len() && covers_16khz_mono_f32(ranges@[j]) ==> (res matches Some(i)
                && i <= j),
{
    let mut i: usize = 0;
    while i < ranges.len()
        invariant
            i <= ranges@.len(),
            forall|j: int| 0 <= j < i ==> !supports_target(#[trigger] ranges@[j]),
        decreases ranges@.len() - i,
    {
        let r = ranges[i];
        if r.channels == 1 && r.min_sample_rate <= TARGET_SAMPLE_RATE && r.max_sample_rate
            >= TARGET_SAMPLE_RATE && r.sample_kind == SampleKind::F32 {
            return Some(i);
        }
        i = i + 1;
    }
    None
}

/// How the recorder opens the input device.
#[derive(Debug, Clone, Copy, PartialEq, Eq, Structural)]
pub enum InputChoice {
    /// Record 16 kHz mono f32 in the supported range at this index.
    Target { range_index: usize },
    /// Record mono at the device's default sample rate, and resample to
    /// 16 kHz when stopping.
    DeviceDefault { sample_rate: u32 },
}

impl InputChoice {
    /// The sample rate at which the samples arrive.
    pub open spec fn rate(self) -> u32 {
        match self {
            InputChoice::Target { .. } => TARGET_SAMPLE_RATE,
            InputChoice::DeviceDefault { sample_rate } => sample_rate,
        }
    }

    /// The sample rate at which the samples arrive.
    pub fn native_sample_rate(&self) -> (res: u32)
        ensures
            res == self.rate(),
            match *self {
                InputChoice::Target { .. } => res == 16000,
                InputChoice::DeviceDefault { sample_rate } => res == sample_rate,
            },
    {
        match self {
            InputChoice::Target { .. } => TARGET_SAMPLE_RATE,
            InputChoice::DeviceDefault { sample_rate } => *sample_rate,
        }
    }
}

/// Chooses how to open the input device: the first range that supports
/// 16 kHz mono f32 if there is one, else the device's default configuration
/// (forced to one channel) at its default sample rate.
pub fn choose_input(ranges: &Vec<ConfigRange>, default_sample_rate: u32) -> (res: InputChoice)
    ensures
        match res {
            InputChoice::Target { range_index } => range_index < ranges@.len() && supports_target(
                ranges@[range_index as int],
            ) && forall|j: int| 0 <= j < range_index ==> !supports_target(#[trigger] ranges@[j]),
            InputChoice::DeviceDefault { sample_rate } => sample_rate == default_sample_rate
                && forall|j: int| 0 <= j < ranges@.len() ==> !supports_target(#[trigger] ranges@[j]),
        },
        (exists|j: int|
            #![trigger ranges@[j]]
            0 <= j < ranges@.len() && covers_16khz_mono_f32(ranges@[j])) ==> res.rate() == 16000,
        (forall|j: int|
            #![trigger ranges@[j]]
            0 <= j < ranges@.len() ==> !covers_16khz_mono_f32(ranges@[j])) ==> (res
            == InputChoice::DeviceDefault { sample_rate: default_sample_rate }),
        (forall|j: int|
            #![trigger ranges@[j]]
            0 <= j < ranges@.len() ==> !covers_16khz_mono_f32(ranges@[j])) ==> res.rate()
            == default_sample_rate,
{
    match find_16khz_config(ranges) {
        Some(i) => InputChoice::Target { range_index: i },
        None => InputChoice::DeviceDefault { sample_rate: default_sample_rate },
    }
}

/// A range supports the target exactly when it is mono, f32, and its rates
/// reach from at most 16 kHz to at least 16 kHz; in particular a range that
/// stops below 16 kHz or starts above it is never chosen.
pub proof fn lemma_supports_target_covers_16khz(range: ConfigRange)
    ensures
        supports_target(range) <==> covers_16khz_mono_f32(range),
        supports_target(range) ==> range.min_sample_rate <= 16000 <= range.max_sample_rate,
        supports_target(range) ==> range.channels == 1 && range.sample_kind == SampleKind::F32,
        range.max_sample_rate < 16000 ==> !supports_target(range),
        range.min_sample_rate > 16000 ==> !supports_target(range),
{
}

/// Samples arrive at 16 kHz from a range chosen for the target, and at the
/// device's default rate, whatever it is, otherwise.
pub proof fn lemma_input_rate(range_index: usize, default_rate: u32)
    ensures
        (InputChoice::Target { range_index }).rate() == 16000,
        (InputChoice::DeviceDefault { sample_rate: default_rate }).rate() == default_rate,
{
}

/// A recording is resampled exactly when it holds samples and was not taken
/// at 16 kHz, whatever its rate: 8, 22.05, 44.1 or 48 kHz alike.
pub proof fn lemma_resampling_exactly_off_target(len: nat, native_rate: nat)
    ensures
        needs_resampling_spec(len, native_rate) <==> (len > 0 && native_rate != 16000),
        needs_resampling_spec(len, native_rate) ==> resampled_len_spec(len, native_rate, 16000) != len
            || native_rate != 16000,
{
}

/// `ceil(a / b)` for `b > 0`.
pub open spec fn ceil_div(a: nat, b: nat) -> nat
    recommends
        b > 0,
{
    ((a + b - 1) as nat) / b
}

/// Length of a buffer of `len` samples after resampling from `from_rate` to
/// `to_rate`: unchanged when the rates agree or the buffer is empty, else
/// `ceil(len * to_rate / from_rate)`.
pub open spec fn resampled_len_spec(len: nat, from_rate: nat, to_rate: nat) -> nat {
    if from_rate == to_rate || len == 0 {
        len
    } else {
        ceil_div(len * to_rate, from_rate)
    }
}

/// The recording needs resampling when stopping: it holds samples and was
/// taken at another rate than 16 kHz.
pub open spec fn needs_resampling_spec(len: nat, native_rate: nat) -> bool {
    len > 0 && native_rate != TARGET_SAMPLE_RATE
}

/// Whether `stop()` resamples the recording of `len` samples taken at
/// `native_rate`, or hands it back as it is.
pub fn needs_resampling(len: usize, native_rate: u32) -> (res: bool)
    ensures
        res == needs_resampling_spec(len as nat, native_rate as nat),
        res == (len > 0 && native_rate != 16000),
{
    len > 0 && native_rate != TARGET_SAMPLE_RATE
}

/// Resampling hands the input back unchanged when the rates agree or the
/// input is empty.
pub fn resampling_is_copy(len: usize, from_rate: u32, to_rate: u32) -> (res: bool)
    ensures
        res == (from_rate == to_rate || len == 0),
        res ==> resampled_len_spec(len as nat, from_rate as nat, to_rate as nat) == len,
{
    from_rate == to_rate || len == 0
}

/// The number of samples that resampling `len` samples from `from_rate` to
/// `to_rate` produces.
pub fn resampled_len(len: usize, from_rate: u32, to_rate: u32) -> (res: usize)
    requires
        from_rate == to_rate || len == 0 || from_rate > 0,
        resampled_len_spec(len as nat, from_rate as nat, to_rate as nat) <= usize::MAX,
    ensures
        res == resampled_len_spec(len as nat, from_rate as nat, to_rate as nat),
{
    if from_rate == to_rate || len == 0 {
        return len;
    }
    assert((len as int) * (to_rate as int) <= 0xFFFF_FFFF_FFFF_FFFFu128 * 0xFFFF_FFFFu128) by (nonlinear_arith)
        requires
            len <= 0xFFFF_FFFF_FFFF_FFFFu64,
            to_rate <= 0xFFFF_FFFFu32,
    ;
    let num: u128 = (len as u128) * (to_rate as u128);
    let den: u128 = from_rate as u128;
    let out: u128 = (num + den - 1) / den;
    out as usize
}

/// Where output sample `i` comes from: position `i * from_rate / to_rate`
/// of the input, split into its integral part and the fraction
/// `frac_num / to_rate`.
pub open spec fn source_index(i: nat, from_rate: nat, to_rate: nat) -> nat {
    (i * from_rate) / to_rate
}

/// Numerator, over `to_rate`, of the fractional part of output sample `i`'s
/// source position.
pub open spec fn source_frac(i: nat, from_rate: nat, to_rate: nat) -> nat {
    (i * from_rate) % to_rate
}

/// How to compute one output sample by linear interpolation.
#[derive(Debug, Clone, Copy, PartialEq, Eq, Structural)]
pub enum Tap {
    /// `input[index] * (1 - w) + input[index + 1] * w`, with
    /// `w = frac_num / frac_den`.
    Blend { index: usize, frac_num: u32, frac_den: u32 },
    /// `input[index]`: the last input sample, with nothing after it.
    Hold { index: usize },
}

/// The tap for output sample `i`.
pub open spec fn tap_spec(i: nat, len: nat, from_rate: nat, to_rate: nat) -> Tap {
    let idx = source_index(i, from_rate, to_rate);
    if idx + 1 < len {
        Tap::Blend {
            index: idx as usize,
            frac_num: source_frac(i, from_rate, to_rate) as u32,
            frac_den: to_rate as u32,
        }
    } else {
        Tap::Hold { index: idx as usize }
    }
}

/// The input samples that output sample `i` of a resampling from
/// `from_rate` to `to_rate` is interpolated from. Every output sample is
/// read from the input: the index is in bounds.
pub fn tap_at(i: usize, len: usize, from_rate: u32, to_rate: u32) -> (res: Tap)
    requires
        from_rate != to_rate,
        from_rate > 0,
        len > 0,
        i < resampled_len_spec(len as nat, from_rate as nat, to_rate as nat),
    ensures
        res == tap_spec(i as nat, len as nat, from_rate as nat, to_rate as nat),
        source_index(i as nat, from_rate as nat, to_rate as nat) < len,
        match res {
            Tap::Blend { index, frac_num, frac_den } => index + 1 < len && frac_num < frac_den,
            Tap::Hold { index } => index + 1 == len,
        },
        match res {
            Tap::Blend { index, frac_num, frac_den } => frac_den == to_rate && index * to_rate
                + frac_num == i * from_rate,
            Tap::Hold { index } => index * to_rate <= i * from_rate < (index + 1) * to_rate,
        },
{
    proof {
        lemma_source_in_bounds(i as nat, len as nat, from_rate as nat, to_rate as nat);
        let p = i as nat * from_rate as nat;
        let t = to_rate as nat;
        let q = p / t;
        let r = p % t;
        assert(q * t + r == p && r < t) by (nonlinear_arith)
            requires
                t > 0,
                q == p / t,
                r == p % t,
        ;
        assert(q * t <= p < (q + 1) * t) by (nonlinear_arith)
            requires
                q * t + r == p,
                r < t,
        ;
    }
    assert((i as int) * (from_rate as int) <= 0xFFFF_FFFF_FFFF_FFFFu128 * 0xFFFF_FFFFu128) by (nonlinear_arith)
        requires
            i <= 0xFFFF_FFFF_FFFF_FFFFu64,
            from_rate <= 0xFFFF_FFFFu32,
    ;
    let prod: u128 = (i as u128) * (from_rate as u128);
    let idx128: u128 = prod / (to_rate as u128);
    let frac: u128 = prod % (to_rate as u128);
    let idx: usize = idx128 as usize;
    if idx < len - 1 {
        Tap::Blend { index: idx, frac_num: frac as u32, frac_den: to_rate }
    } else {
        Tap::Hold { index: idx }
    }
}

/// For every output position of a resampling, the source position lies
/// inside the input: `i < ceil(len * to / from)` implies
/// `floor(i * from / to) < len`.
pub proof fn lemma_source_in_bounds(i: nat, len: nat, from_rate: nat, to_rate: nat)
    requires
        from_rate != to_rate,
        from_rate > 0,
        len > 0,
        i < resampled_len_spec(len, from_rate, to_rate),
    ensures
        to_rate > 0,
        source_index(i, from_rate, to_rate) < len,
{
    if to_rate == 0 {
        assert(len * to_rate == 0) by (nonlinear_arith)
            requires
                to_rate == 0,
        ;
        assert(((from_rate - 1) as nat) / from_rate == 0) by (nonlinear_arith)
            requires
                from_rate > 0,
        ;
    } else {
        let n = len * to_rate;
        let out = ceil_div(n, from_rate);
        // i < ceil(n / from) gives i * from < n.
        assert(i * from_rate < n) by (nonlinear_arith)
            requires
                i < out,
                out == ((n + from_rate - 1) as nat) / from_rate,
                from_rate > 0,
        ;
        assert((i * from_rate) / to_rate < len) by (nonlinear_arith)
            requires
                i * from_rate < n,
                n == len * to_rate,
                to_rate > 0,
        ;
    }
}

/// Resampling keeps a buffer as it is when the rates agree, keeps an empty
/// buffer empty, and otherwise produces the fewest samples that cover the
/// input's duration: `out * from >= len * to > (out - 1) * from`.
/// Downsampling never lengthens the buffer and upsampling never shortens it.
pub proof fn lemma_resampled_len(len: nat, from_rate: nat, to_rate: nat)
    requires
        from_rate > 0,
    ensures
        resampled_len_spec(len, from_rate, from_rate) == len,
        resampled_len_spec(0, from_rate, to_rate) == 0,
        from_rate != to_rate ==> ({
            let out = resampled_len_spec(len, from_rate, to_rate);
            &&& out == ceil_div(len * to_rate, from_rate)
            &&& out * from_rate >= len * to_rate
            &&& out * from_rate < len * to_rate + from_rate
            &&& to_rate < from_rate ==> out <= len
            &&& to_rate > from_rate ==> out >= len
        }),
{
    if from_rate != to_rate && len > 0 {
        let n = len * to_rate;
        let out = ceil_div(n, from_rate);
        assert(out * from_rate >= n && out * from_rate < n + from_rate) by (nonlinear_arith)
            requires
                out == ((n + from_rate - 1) as nat) / from_rate,
                from_rate > 0,
        ;
        assert(to_rate < from_rate ==> out <= len) by (nonlinear_arith)
            requires
                out * from_rate < n + from_rate,
                n == len * to_rate,
                from_rate > 0,
        ;
        assert(to_rate > from_rate ==> out >= len) by (nonlinear_arith)
            requires
                out * from_rate >= n,
                n == len * to_rate,
                from_rate > 0,
        ;
    } else if len == 0 {
        assert(len * to_rate == 0);
        assert(((from_rate - 1) as nat) / from_rate == 0) by (nonlinear_arith)
            requires
                from_rate > 0,
        ;
    }
}

/// When the source rate is a whole multiple `k` of the target rate (as for
/// 48 kHz to 16 kHz), resampling keeps every `k`-th position and yields
/// `ceil(len / k)` samples.
pub proof fn lemma_resampled_len_whole_ratio(len: nat, from_rate: nat, to_rate: nat)
    requires
        to_rate > 0,
        from_rate > to_rate,
        from_rate % to_rate == 0,
    ensures
        resampled_len_spec(len, from_rate, to_rate) == ceil_div(len, from_rate / to_rate),
{
    let k = from_rate / to_rate;
    assert(from_rate == k * to_rate && k > 0) by (nonlinear_arith)
        requires
            to_rate > 0,
            from_rate > to_rate,
            from_rate % to_rate == 0,
            k == from_rate / to_rate,
    ;
    if len > 0 {
        let n = len * to_rate;
        let out = ceil_div(n, from_rate);
        let c = ceil_div(len, k);
        assert(out * from_rate >= n && out * from_rate < n + from_rate) by (nonlinear_arith)
            requires
                out == ((n + from_rate - 1) as nat) / from_rate,
                from_rate > 0,
        ;
        assert(out * k >= len && out * k < len + k) by (nonlinear_arith)
            requires
                out * from_rate >= n,
                out * from_rate < n + from_rate,
                n == len * to_rate,
                from_rate == k * to_rate,
                to_rate > 0,
        ;
        assert(c * k >= len && c * k < len + k) by (nonlinear_arith)
            requires
                c == ((len + k - 1) as nat) / k,
                k > 0,
        ;
        assert(out == c) by (nonlinear_arith)
            requires
                out * k >= len,
                out * k < len + k,
                c * k >= len,
                c * k < len + k,
                k > 0,
        ;
     } else {
        assert(((k - 1) as nat) / k == 0) by (nonlinear_arith)
            requires
                k > 0,
        ;
    }
}

/// Later output samples never read earlier input: the source index grows
/// with the output index.
pub proof fn lemma_source_index_monotone(i: nat, j: nat, from_rate: nat, to_rate: nat)
    requires
        i <= j,
        to_rate > 0,
    ensures
        source_index(i, from_rate, to_rate) <= source_index(j, from_rate, to_rate),
{
    assert((i * from_rate) / to_rate <= (j * from_rate) / to_rate) by (nonlinear_arith)
        requires
            i <= j,
            to_rate > 0,
    ;
}

} // verus!
