//! Configuration model: sound-pack entries, global settings, the built-in
//! defaults, and resolution of the effective playback parameters.
//!
//! Fractional quantities are fixed-point integers in thousandths: a volume
//! of `1000` is full gain, a pitch of `500` is half speed. `fast_threshold`
//! is in milliseconds.

use vstd::prelude::*;

verus! {

/// Full gain / the unit value, in thousandths.
pub const DEFAULT_VOLUME: u32 = 1000;

/// Default base pitch, in thousandths.
pub const DEFAULT_PITCH_START: u32 = 500;

/// Default pitch range above the base, in thousandths.
pub const DEFAULT_PITCH_RANGE: u32 = 500;

/// Default pitch increment per fast press, in thousandths.
pub const DEFAULT_PITCH_STEPS: u32 = 5;

/// Default cadence threshold, in milliseconds.
pub const DEFAULT_FAST_THRESHOLD: u32 = 1000;

/// Upper bound admitted for every configured fixed-point quantity.
pub const QUANTITY_BOUND: u32 = 1_000_000_000;

/// One configured sound pack: either a bare directory path, or a record
/// with per-pack overrides of the playback parameters.
pub enum SoundPackSettings {
    Basic(String),
    Advanced {
        name: String,
        volume: Option<u32>,
        pitch_start: Option<u32>,
        pitch_range: Option<u32>,
        pitch_steps: Option<u32>,
        fast_threshold: Option<u32>,
    },
}

/// The whole configuration: the sound packs, the four optional key
/// bindings, and the optional global playback parameters.
pub struct Settings {
    pub sound_packs: Vec<SoundPackSettings>,
    pub previous_sound_pack: Option<Vec<String>>,
    pub next_sound_pack: Option<Vec<String>>,
    pub terminate: Option<Vec<String>>,
    pub toggle: Option<Vec<String>>,
    pub volume: Option<u32>,
    pub pitch_start: Option<u32>,
    pub pitch_range: Option<u32>,
    pub pitch_steps: Option<u32>,
    pub fast_threshold: Option<u32>,
}

/// The resolved playback parameters for one pack: pack-level override if
/// present, else the global setting, else the built-in default.
pub struct EffectiveParams {
    pub volume: u32,
    pub pitch_start: u32,
    pub pitch_range: u32,
    pub pitch_steps: u32,
    pub fast_threshold: u32,
}

/// The value of an optional quantity, or its default.
pub open spec fn opt_or(o: Option<u32>, d: u32) -> u32 {
    match o {
        Some(v) => v,
        None => d,
    }
}

/// An optional quantity within the admitted bound.
pub open spec fn opt_bounded(o: Option<u32>) -> bool {
    match o {
        Some(v) => v <= QUANTITY_BOUND,
        None => true,
    }
}

/// The directory path of a pack entry (the `name` field of the record form).
pub open spec fn spec_path(pack: SoundPackSettings) -> Seq<char> {
    match pack {
        SoundPackSettings::Basic(path) => path@,
        SoundPackSettings::Advanced { name, .. } => name@,
    }
}

/// The pack-level volume override, if any.
pub open spec fn spec_pack_volume(pack: SoundPackSettings) -> Option<u32> {
    match pack {
        SoundPackSettings::Basic(_) => None,
        SoundPackSettings::Advanced { volume, .. } => volume,
    }
}

/// The pack-level pitch_start override, if any.
pub open spec fn spec_pack_pitch_start(pack: SoundPackSettings) -> Option<u32> {
    match pack {
        SoundPackSettings::Basic(_) => None,
        SoundPackSettings::Advanced { pitch_start, .. } => pitch_start,
    }
}

/// The pack-level pitch_range override, if any.
pub open spec fn spec_pack_pitch_range(pack: SoundPackSettings) -> Option<u32> {
    match pack {
        SoundPackSettings::Basic(_) => None,
        SoundPackSettings::Advanced { pitch_range, .. } => pitch_range,
    }
}

/// The pack-level pitch_steps override, if any.
pub open spec fn spec_pack_pitch_steps(pack: SoundPackSettings) -> Option<u32> {
    match pack {
        SoundPackSettings::Basic(_) => None,
        SoundPackSettings::Advanced { pitch_steps, .. } => pitch_steps,
    }
}

/// The pack-level fast_threshold override, if any.
pub open spec fn spec_pack_fast_threshold(pack: SoundPackSettings) -> Option<u32> {
    match pack {
        SoundPackSettings::Basic(_) => None,
        SoundPackSettings::Advanced { fast_threshold, .. } => fast_threshold,
    }
}

/// Every quantity of a pack entry lies within the admitted bound.
pub open spec fn pack_wf(pack: SoundPackSettings) -> bool {
    &&& opt_bounded(spec_pack_volume(pack))
    &&& opt_bounded(spec_pack_pitch_start(pack))
    &&& opt_bounded(spec_pack_pitch_range(pack))
    &&& opt_bounded(spec_pack_pitch_steps(pack))
    &&& opt_bounded(spec_pack_fast_threshold(pack))
}

/// Well-formed configuration: at least one pack, and every configured
/// quantity within the admitted bound.
pub open spec fn settings_wf(s: Settings) -> bool {
    &&& s.sound_packs@.len() >= 1
    &&& forall|i: int| 0 <= i < s.sound_packs@.len() ==> pack_wf(#[trigger] s.sound_packs@[i])
    &&& opt_bounded(s.volume)
    &&& opt_bounded(s.pitch_start)
    &&& opt_bounded(s.pitch_range)
    &&& opt_bounded(s.pitch_steps)
    &&& opt_bounded(s.fast_threshold)
}

/// The effective volume for a pack under the given global settings.
pub open spec fn spec_effective_volume(s: Settings, pack: SoundPackSettings) -> u32 {
    opt_or(spec_pack_volume(pack), opt_or(s.volume, DEFAULT_VOLUME))
}

/// The effective base pitch for a pack under the given global settings.
pub open spec fn spec_effective_pitch_start(s: Settings, pack: SoundPackSettings) -> u32 {
    opt_or(spec_pack_pitch_start(pack), opt_or(s.pitch_start, DEFAULT_PITCH_START))
}

/// The effective pitch range for a pack under the given global settings.
pub open spec fn spec_effective_pitch_range(s: Settings, pack: SoundPackSettings) -> u32 {
    opt_or(spec_pack_pitch_range(pack), opt_or(s.pitch_range, DEFAULT_PITCH_RANGE))
}

/// The effective pitch increment for a pack under the given global settings.
pub open spec fn spec_effective_pitch_steps(s: Settings, pack: SoundPackSettings) -> u32 {
    opt_or(spec_pack_pitch_steps(pack), opt_or(s.pitch_steps, DEFAULT_PITCH_STEPS))
}

/// The effective cadence threshold for a pack under the given global settings.
pub open spec fn spec_effective_fast_threshold(s: Settings, pack: SoundPackSettings) -> u32 {
    opt_or(spec_pack_fast_threshold(pack), opt_or(s.fast_threshold, DEFAULT_FAST_THRESHOLD))
}

/// The five effective parameters of the pack at `idx`, bundled.
pub open spec fn spec_effective(s: Settings, idx: int) -> EffectiveParams
    recommends
        0 <= idx < s.sound_packs@.len(),
{
    EffectiveParams {
        volume: spec_effective_volume(s, s.sound_packs@[idx]),
        pitch_start: spec_effective_pitch_start(s, s.sound_packs@[idx]),
        pitch_range: spec_effective_pitch_range(s, s.sound_packs@[idx]),
        pitch_steps: spec_effective_pitch_steps(s, s.sound_packs@[idx]),
        fast_threshold: spec_effective_fast_threshold(s, s.sound_packs@[idx]),
    }
}

/// Every resolved parameter lies within the admitted bound.
pub open spec fn effective_wf(p: EffectiveParams) -> bool {
    &&& p.volume <= QUANTITY_BOUND
    &&& p.pitch_start <= QUANTITY_BOUND
    &&& p.pitch_range <= QUANTITY_BOUND
    &&& p.pitch_steps <= QUANTITY_BOUND
    &&& p.fast_threshold <= QUANTITY_BOUND
}

/// The display name of a path: the text after the last `/` or `\`, or the
/// whole path when it holds neither.
pub open spec fn spec_display_name(path: Seq<char>) -> Seq<char>
    decreases path.len(),
{
    if path.len() == 0 {
        Seq::empty()
    } else if is_separator(path.last()) {
        Seq::empty()
    } else {
        spec_display_name(path.drop_last()).push(path.last())
    }
}

/// Whether a character separates path segments.
pub open spec fn is_separator(c: char) -> bool {
    c == '/' || c == '\\'
}

/// The directory path of a pack entry.
pub fn get_path(settings: &SoundPackSettings) -> (r: &String)
    ensures
        r@ == spec_path(*settings),
{
    match settings {
        SoundPackSettings::Basic(path) => path,
        SoundPackSettings::Advanced { name, .. } => name,
    }
}

/// When no separator stands at or after `start` and a separator stands
/// just before it (or it is the start of the path), the display name is
/// the suffix of the path from `start`.
proof fn lemma_display_name_after_last_sep(path: Seq<char>, start: int)
    requires
        0 <= start <= path.len(),
        forall|j: int| start <= j < path.len() ==> !is_separator(#[trigger] path[j]),
        start > 0 ==> is_separator(path[start - 1]),
    ensures
        spec_display_name(path) == path.subrange(start, path.len() as int),
    decreases path.len(),
{
    if start == path.len() {
        if path.len() == 0 {
            assert(path.subrange(start, path.len() as int) =~= Seq::<char>::empty());
        } else {
            assert(is_separator(path.last()));
            assert(path.subrange(start, path.len() as int) =~= Seq::<char>::empty());
        }
    } else {
        assert(!is_separator(path.last()));
        lemma_display_name_after_last_sep(path.drop_last(), start);
        assert(spec_display_name(path.drop_last()) == path.drop_last().subrange(
            start,
            path.len() - 1,
        ));
        assert(path.drop_last().subrange(start, path.len() - 1) =~= path.subrange(
            start,
            path.len() - 1,
        ));
        assert(path.subrange(start, path.len() - 1).push(path.last()) =~= path.subrange(
            start,
            path.len() as int,
        ));
    }
}

/// The display name of a pack entry: the final segment of its path.
pub fn get_name(settings: &SoundPackSettings) -> (r: String)
    ensures
        r@ == spec_display_name(spec_path(*settings)),
{
    let path: &String = get_path(settings);
    let s: &str = path.as_str();
    let len: usize = s.unicode_len();
    let mut start: usize = 0;
    let mut i: usize = 0;
    while i < len
        invariant
            start <= i <= len,
            len == s@.len(),
            forall|j: int| start <= j < i ==> !is_separator(#[trigger] s@[j]),
            start > 0 ==> is_separator(s@[start as int - 1]),
        decreases len - i,
    {
        let c = s.get_char(i);
        if c == '/' || c == '\\' {
            start = i + 1;
        }
        i += 1;
    }
    proof {
        lemma_display_name_after_last_sep(s@, start as int);
    }
    let sub = s.substring_char(start, len);
    sub.to_owned()
}

/// The resolved playback parameters of the pack at `pack_index`.
pub fn effective_params(settings: &Settings, pack_index: usize) -> (r: EffectiveParams)
    requires
        pack_index < settings.sound_packs@.len(),
    ensures
        r == spec_effective(*settings, pack_index as int),
        settings_wf(*settings) ==> effective_wf(r),
{
    let pack = &settings.sound_packs[pack_index];
    let (volume, pitch_start, pitch_range, pitch_steps, fast_threshold): (
        Option<u32>,
        Option<u32>,
        Option<u32>,
        Option<u32>,
        Option<u32>,
    ) = match pack {
        SoundPackSettings::Basic(_) => (None, None, None, None, None),
        SoundPackSettings::Advanced {
            name: _,
            volume,
            pitch_start,
            pitch_range,
            pitch_steps,
            fast_threshold,
        } => (*volume, *pitch_start, *pitch_range, *pitch_steps, *fast_threshold),
    };
    EffectiveParams {
        volume: resolve(volume, settings.volume, DEFAULT_VOLUME),
        pitch_start: resolve(pitch_start, settings.pitch_start, DEFAULT_PITCH_START),
        pitch_range: resolve(pitch_range, settings.pitch_range, DEFAULT_PITCH_RANGE),
        pitch_steps: resolve(pitch_steps, settings.pitch_steps, DEFAULT_PITCH_STEPS),
        fast_threshold: resolve(fast_threshold, settings.fast_threshold, DEFAULT_FAST_THRESHOLD),
    }
}

/// The pack-level override if present, else the global setting, else the
/// built-in default.
fn resolve(pack_value: Option<u32>, global: Option<u32>, default: u32) -> (r: u32)
    ensures
        r == opt_or(pack_value, opt_or(global, default)),
{
    match pack_value {
        Some(v) => v,
        None => match global {
            Some(v) => v,
            None => default,
        },
    }
}

/// The configuration synthesized when no config file exists: the single
/// pack directory `assets`, bindings F2/F3/F4/F5, and the built-in
/// numeric defaults, all written out explicitly.
pub fn default_settings() -> (r: Settings)
    ensures
        r.sound_packs@.len() == 1,
        r.sound_packs@[0] is Basic,
        spec_path(r.sound_packs@[0]) == "assets"@,
        r.previous_sound_pack matches Some(b) && b@.len() == 1 && b@[0]@ == "F4"@,
        r.next_sound_pack matches Some(b) && b@.len() == 1 && b@[0]@ == "F5"@,
        r.terminate matches Some(b) && b@.len() == 1 && b@[0]@ == "F2"@,
        r.toggle matches Some(b) && b@.len() == 1 && b@[0]@ == "F3"@,
        r.volume == Some(DEFAULT_VOLUME),
        r.pitch_start == Some(DEFAULT_PITCH_START),
        r.pitch_range == Some(DEFAULT_PITCH_RANGE),
        r.pitch_steps == Some(DEFAULT_PITCH_STEPS),
        r.fast_threshold == Some(DEFAULT_FAST_THRESHOLD),
        settings_wf(r),
{
    let mut sound_packs: Vec<SoundPackSettings> = Vec::new();
    sound_packs.push(SoundPackSettings::Basic(String::from_str("assets")));
    Settings {
        sound_packs,
        previous_sound_pack: Some(single_key("F4")),
        next_sound_pack: Some(single_key("F5")),
        terminate: Some(single_key("F2")),
        toggle: Some(single_key("F3")),
        volume: Some(DEFAULT_VOLUME),
        pitch_start: Some(DEFAULT_PITCH_START),
        pitch_range: Some(DEFAULT_PITCH_RANGE),
        pitch_steps: Some(DEFAULT_PITCH_STEPS),
        fast_threshold: Some(DEFAULT_FAST_THRESHOLD),
    }
}

/// A one-key binding.
fn single_key(key: &str) -> (r: Vec<String>)
    ensures
        r@.len() == 1,
        r@[0]@ == key@,
{
    let mut binding: Vec<String> = Vec::new();
    binding.push(key.to_owned());
    binding
}

} // verus!
