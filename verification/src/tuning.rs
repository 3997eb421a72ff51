//! Speech tuning: the limits of rate, pitch and volume for each engine, the
//! values shown in the dialog's fields, reading typed values back, and the
//! choice of the nearest entry of a value list.

use vstd::prelude::*;

use crate::i18n::Catalog;
use crate::model::{Language, TtsEngine, TtsTuning};
use crate::text::{all_whitespace, i32_to_string, lemma_parse_signed_decimal, lemma_trim_padded, parse_i32_spec, parse_trimmed_i32, signed_decimal_spec, trim_spec};

verus! {

/// The three lists of preset tuning values.
#[derive(Clone, Copy, Debug, PartialEq, Eq, Structural)]
pub enum TuningList {
    Speed,
    Pitch,
    Volume,
}

/// The translation keys of a list's presets, in the list's order.
pub open spec fn preset_keys(list: TuningList) -> Seq<Seq<char>> {
    match list {
        TuningList::Speed => seq![
            "tts_tuning.speed.extremely_slow"@,
            "tts_tuning.speed.very_slow"@,
            "tts_tuning.speed.slow"@,
            "tts_tuning.speed.a_bit_slow"@,
            "tts_tuning.speed.slightly_slow"@,
            "tts_tuning.speed.normal"@,
            "tts_tuning.speed.slightly_fast"@,
            "tts_tuning.speed.a_bit_fast"@,
            "tts_tuning.speed.fast"@,
            "tts_tuning.speed.very_fast"@,
            "tts_tuning.speed.super_fast"@,
        ],
        TuningList::Pitch => seq![
            "tts_tuning.pitch.very_low"@,
            "tts_tuning.pitch.low"@,
            "tts_tuning.pitch.a_bit_low"@,
            "tts_tuning.pitch.slightly_low"@,
            "tts_tuning.pitch.a_little_lower"@,
            "tts_tuning.pitch.normal"@,
            "tts_tuning.pitch.a_little_higher"@,
            "tts_tuning.pitch.slightly_high"@,
            "tts_tuning.pitch.a_bit_high"@,
            "tts_tuning.pitch.high"@,
            "tts_tuning.pitch.very_high"@,
        ],
        TuningList::Volume => seq![
            "tts_tuning.volume.very_low"@,
            "tts_tuning.volume.low"@,
            "tts_tuning.volume.a_bit_low"@,
            "tts_tuning.volume.medium_low"@,
            "tts_tuning.volume.slightly_low"@,
            "tts_tuning.volume.normal"@,
            "tts_tuning.volume.slightly_high"@,
            "tts_tuning.volume.medium_high"@,
            "tts_tuning.volume.a_bit_high"@,
            "tts_tuning.volume.high"@,
            "tts_tuning.volume.very_high"@,
            "tts_tuning.volume.maximum"@,
        ],
    }
}

/// The values of a list's presets, in the list's order: user rates, pitches
/// in semitones, volumes in percent.
pub open spec fn preset_values(list: TuningList) -> Seq<i32> {
    match list {
        TuningList::Speed => seq![-100i32, -60i32, -35i32, -20i32, -10i32, 0i32, 10i32, 20i32, 35i32, 50i32, 100i32],
        TuningList::Pitch => seq![-12i32, -10i32, -7i32, -5i32, -2i32, 0i32, 2i32, 5i32, 7i32, 9i32, 12i32],
        TuningList::Volume => seq![25i32, 40i32, 55i32, 70i32, 85i32, 100i32, 115i32, 130i32, 145i32, 160i32, 180i32, 200i32],
    }
}

/// Each preset list runs from its lowest to its highest value without
/// repeating one, and has as many labels as values; its "normal" entry is
/// the neutral value (0 for speed and pitch, 100 for volume).
pub proof fn lemma_presets_ordered(list: TuningList)
    ensures
        preset_keys(list).len() == preset_values(list).len(),
        forall|i: int, j: int|
            0 <= i < j < preset_values(list).len() ==> preset_values(list)[i] < preset_values(list)[j],
        preset_keys(list)[5] == (match list {
            TuningList::Speed => "tts_tuning.speed.normal"@,
            TuningList::Pitch => "tts_tuning.pitch.normal"@,
            TuningList::Volume => "tts_tuning.volume.normal"@,
        }),
        preset_values(list)[5] == (if list == TuningList::Volume { 100i32 } else { 0i32 }),
{
}

/// The keys and values of a list's presets.
fn preset_table(list: TuningList) -> (r: (Vec<&'static str>, Vec<i32>))
    ensures
        r.0@.map_values(|k: &str| k@) == preset_keys(list),
        r.1@ == preset_values(list),
{
    let r = match list {
        TuningList::Speed => (
            vec![
                "tts_tuning.speed.extremely_slow",
                "tts_tuning.speed.very_slow",
                "tts_tuning.speed.slow",
                "tts_tuning.speed.a_bit_slow",
                "tts_tuning.speed.slightly_slow",
                "tts_tuning.speed.normal",
                "tts_tuning.speed.slightly_fast",
                "tts_tuning.speed.a_bit_fast",
                "tts_tuning.speed.fast",
                "tts_tuning.speed.very_fast",
                "tts_tuning.speed.super_fast",
            ],
            vec![-100, -60, -35, -20, -10, 0, 10, 20, 35, 50, 100],
        ),
        TuningList::Pitch => (
            vec![
                "tts_tuning.pitch.very_low",
                "tts_tuning.pitch.low",
                "tts_tuning.pitch.a_bit_low",
                "tts_tuning.pitch.slightly_low",
                "tts_tuning.pitch.a_little_lower",
                "tts_tuning.pitch.normal",
                "tts_tuning.pitch.a_little_higher",
                "tts_tuning.pitch.slightly_high",
                "tts_tuning.pitch.a_bit_high",
                "tts_tuning.pitch.high",
                "tts_tuning.pitch.very_high",
            ],
            vec![-12, -10, -7, -5, -2, 0, 2, 5, 7, 9, 12],
        ),
        TuningList::Volume => (
            vec![
                "tts_tuning.volume.very_low",
                "tts_tuning.volume.low",
                "tts_tuning.volume.a_bit_low",
                "tts_tuning.volume.medium_low",
                "tts_tuning.volume.slightly_low",
                "tts_tuning.volume.normal",
                "tts_tuning.volume.slightly_high",
                "tts_tuning.volume.medium_high",
                "tts_tuning.volume.a_bit_high",
                "tts_tuning.volume.high",
                "tts_tuning.volume.very_high",
                "tts_tuning.volume.maximum",
            ],
            vec![25, 40, 55, 70, 85, 100, 115, 130, 145, 160, 180, 200],
        ),
    };
    proof {
        assert(r.0@.map_values(|k: &str| k@) =~= preset_keys(list));
        assert(r.1@ =~= preset_values(list));
    }
    r
}

/// The entries of a preset list as the dialog fills it: each preset's label
/// in `language` and its value.
pub fn tuning_presets(catalog: &Catalog, language: Language, list: TuningList) -> (items: Vec<(String, i32)>)
    ensures
        items@.len() == preset_values(list).len(),
        forall|i: int|
            0 <= i < items@.len() ==> (#[trigger] items@[i]).0@ == catalog.translate(language, preset_keys(list)[i])
                && items@[i].1 == preset_values(list)[i],
{
    let (keys, values) = preset_table(list);
    proof {
        assert(keys@.map_values(|k: &str| k@).len() == keys@.len());
        assert(preset_keys(list).len() == preset_values(list).len());
    }
    let mut items: Vec<(String, i32)> = Vec::new();
    let mut i: usize = 0;
    while i < keys.len()
        invariant
            i <= keys@.len(),
            keys@.map_values(|k: &str| k@) == preset_keys(list),
            values@ == preset_values(list),
            keys@.len() == values@.len(),
            items@.len() == i,
            forall|j: int|
                0 <= j < i ==> (#[trigger] items@[j]).0@ == catalog.translate(language, preset_keys(list)[j])
                    && items@[j].1 == preset_values(list)[j],
        decreases keys@.len() - i,
    {
        proof {
            assert(keys@.map_values(|k: &str| k@)[i as int] == keys@[i as int]@);
        }
        let label = catalog.tr(language, keys[i]);
        items.push((label, values[i]));
        i += 1;
    }
    items
}

/// Lowest and highest rate, pitch and volume that an engine accepts.
#[derive(Clone, Copy, Debug, PartialEq, Eq, Structural)]
pub struct TtsTuningLimits {
    pub rate_min: i32,
    pub rate_max: i32,
    pub pitch_min: i32,
    pub pitch_max: i32,
    pub volume_min: i32,
    pub volume_max: i32,
}

/// Offset between the internal rate or pitch and the value shown to the user.
pub const TTS_UI_OFFSET: i32 = 100;

/// The limits of `engine`. Google pitches are encoded from
/// `google_pitch_encode_base` up to 100 above it.
pub open spec fn limits_spec(engine: TtsEngine, google_pitch_encode_base: i32) -> TtsTuningLimits {
    match engine {
        TtsEngine::Edge => TtsTuningLimits {
            rate_min: -100i32,
            rate_max: 100,
            pitch_min: -12i32,
            pitch_max: 12,
            volume_min: 25,
            volume_max: 200,
        },
        TtsEngine::Google => TtsTuningLimits {
            rate_min: -100i32,
            rate_max: 100,
            pitch_min: google_pitch_encode_base,
            pitch_max: (google_pitch_encode_base + 100) as i32,
            volume_min: 0,
            volume_max: 100,
        },
        TtsEngine::Sapi5 | TtsEngine::Sapi4 => TtsTuningLimits {
            rate_min: -100i32,
            rate_max: 100,
            pitch_min: -12i32,
            pitch_max: 12,
            volume_min: 0,
            volume_max: 100,
        },
    }
}

/// Every limit pair is ordered.
pub open spec fn limits_ordered(l: TtsTuningLimits) -> bool {
    l.rate_min <= l.rate_max && l.pitch_min <= l.pitch_max && l.volume_min <= l.volume_max
}

/// The limits of `engine`.
pub fn tts_tuning_limits_for_engine(engine: TtsEngine, google_pitch_encode_base: i32) -> (l: TtsTuningLimits)
    requires
        google_pitch_encode_base <= i32::MAX - 100,
    ensures
        l == limits_spec(engine, google_pitch_encode_base),
        limits_ordered(l),
{
    match engine {
        TtsEngine::Edge => TtsTuningLimits {
            rate_min: -100,
            rate_max: 100,
            pitch_min: -12,
            pitch_max: 12,
            volume_min: 25,
            volume_max: 200,
        },
        TtsEngine::Google => TtsTuningLimits {
            rate_min: -100,
            rate_max: 100,
            pitch_min: google_pitch_encode_base,
            pitch_max: google_pitch_encode_base + 100,
            volume_min: 0,
            volume_max: 100,
        },
        TtsEngine::Sapi5 | TtsEngine::Sapi4 => TtsTuningLimits {
            rate_min: -100,
            rate_max: 100,
            pitch_min: -12,
            pitch_max: 12,
            volume_min: 0,
            volume_max: 100,
        },
    }
}

/// `value.clamp(min, max)`.
pub open spec fn clamp_spec(value: int, min: int, max: int) -> int {
    if value < min {
        min
    } else if value > max {
        max
    } else {
        value
    }
}

/// `value.clamp(min, max)` (which panics when `min > max`).
pub fn clamp_i32(value: i32, min: i32, max: i32) -> (r: i32)
    requires
        min <= max,
    ensures
        r == clamp_spec(value as int, min as int, max as int),
        min <= r <= max,
{
    if value < min {
        min
    } else if value > max {
        max
    } else {
        value
    }
}

/// A tuning brought within the limits of `engine`. A Google pitch is
/// normalised by the Google engine (`normalized_google_pitch` is that
/// normalisation of `tuning.pitch`); other pitches are clamped.
pub open spec fn clamped_tuning_spec(
    engine: TtsEngine,
    tuning: TtsTuning,
    google_pitch_encode_base: i32,
    normalized_google_pitch: i32,
) -> TtsTuning {
    let l = limits_spec(engine, google_pitch_encode_base);
    TtsTuning {
        rate: clamp_spec(tuning.rate as int, l.rate_min as int, l.rate_max as int) as i32,
        pitch: if engine == TtsEngine::Google {
            normalized_google_pitch
        } else {
            clamp_spec(tuning.pitch as int, l.pitch_min as int, l.pitch_max as int) as i32
        },
        volume: clamp_spec(tuning.volume as int, l.volume_min as int, l.volume_max as int) as i32,
    }
}

/// `tuning` brought within the limits of `engine`.
pub fn clamp_tts_tuning_for_engine(
    engine: TtsEngine,
    tuning: TtsTuning,
    google_pitch_encode_base: i32,
    normalized_google_pitch: i32,
) -> (t: TtsTuning)
    requires
        google_pitch_encode_base <= i32::MAX - 100,
    ensures
        t == clamped_tuning_spec(engine, tuning, google_pitch_encode_base, normalized_google_pitch),
{
    let limits = tts_tuning_limits_for_engine(engine, google_pitch_encode_base);
    let pitch = if engine == TtsEngine::Google {
        normalized_google_pitch
    } else {
        clamp_i32(tuning.pitch, limits.pitch_min, limits.pitch_max)
    };
    TtsTuning::new(
        clamp_i32(tuning.rate, limits.rate_min, limits.rate_max),
        pitch,
        clamp_i32(tuning.volume, limits.volume_min, limits.volume_max),
    )
}

/// The limits of each engine: every engine takes rates from -100 to 100;
/// Edge takes volumes from 25 to 200 and the others from 0 to 100; pitches
/// run from -12 to 12 semitones, except Google's encoded pitch, which runs
/// over the 100 steps above its base.
pub proof fn lemma_engine_limits(engine: TtsEngine, base: i32)
    requires
        base <= i32::MAX - 100,
    ensures
        limits_spec(engine, base).rate_min == -100,
        limits_spec(engine, base).rate_max == 100,
        engine == TtsEngine::Edge ==> limits_spec(engine, base).volume_min == 25
            && limits_spec(engine, base).volume_max == 200,
        engine != TtsEngine::Edge ==> limits_spec(engine, base).volume_min == 0
            && limits_spec(engine, base).volume_max == 100,
        engine != TtsEngine::Google ==> limits_spec(engine, base).pitch_min == -12
            && limits_spec(engine, base).pitch_max == 12,
        engine == TtsEngine::Google ==> limits_spec(engine, base).pitch_min == base
            && limits_spec(engine, base).pitch_max == base + 100,
{
}

/// What clamping a tuning does, engine by engine: a rate from -100 to 100 is
/// kept and one outside goes to the nearer end; a volume is kept within 25 to
/// 200 for Edge and 0 to 100 for the others; a pitch other than Google's is
/// kept within -12 to 12; Google's pitch is the engine's own normalisation.
pub proof fn lemma_clamp_by_engine(engine: TtsEngine, tuning: TtsTuning, base: i32, normalized: i32)
    requires
        base <= i32::MAX - 100,
    ensures
        ({
            let c = clamped_tuning_spec(engine, tuning, base, normalized);
            let (vmin, vmax) = if engine == TtsEngine::Edge {
                (25int, 200int)
            } else {
                (0int, 100int)
            };
            &&& -100 <= tuning.rate <= 100 ==> c.rate == tuning.rate
            &&& tuning.rate < -100 ==> c.rate == -100
            &&& tuning.rate > 100 ==> c.rate == 100
            &&& vmin <= tuning.volume <= vmax ==> c.volume == tuning.volume
            &&& tuning.volume < vmin ==> c.volume == vmin
            &&& tuning.volume > vmax ==> c.volume == vmax
            &&& engine == TtsEngine::Google ==> c.pitch == normalized
            &&& engine != TtsEngine::Google && -12 <= tuning.pitch <= 12 ==> c.pitch == tuning.pitch
            &&& engine != TtsEngine::Google && tuning.pitch < -12 ==> c.pitch == -12
            &&& engine != TtsEngine::Google && tuning.pitch > 12 ==> c.pitch == 12
        }),
{
}

/// Clamping twice is clamping once.
pub proof fn lemma_clamp_idempotent(engine: TtsEngine, tuning: TtsTuning, base: i32, normalized: i32)
    requires
        base <= i32::MAX - 100,
    ensures
        clamped_tuning_spec(engine, clamped_tuning_spec(engine, tuning, base, normalized), base, normalized)
            == clamped_tuning_spec(engine, tuning, base, normalized),
{
}

/// A clamped tuning lies within the limits.
pub proof fn lemma_clamped_within_limits(engine: TtsEngine, tuning: TtsTuning, base: i32, normalized: i32)
    requires
        base <= i32::MAX - 100,
    ensures
        ({
            let t = clamped_tuning_spec(engine, tuning, base, normalized);
            let l = limits_spec(engine, base);
            &&& l.rate_min <= t.rate <= l.rate_max
            &&& l.volume_min <= t.volume <= l.volume_max
            &&& engine != TtsEngine::Google ==> l.pitch_min <= t.pitch <= l.pitch_max
        }),
{
}

/// The value shown to the user for an internal rate or pitch.
pub fn tts_ui_value_from_internal(value: i32) -> (r: i32)
    requires
        value <= i32::MAX - TTS_UI_OFFSET,
    ensures
        r == value + TTS_UI_OFFSET,
{
    value + TTS_UI_OFFSET
}

/// The value shown to the user for a pitch: the Google percentage
/// (`google_pitch_percent`, that engine's reading of `value`) for Google,
/// the offset value otherwise.
pub fn tts_pitch_ui_value(engine: TtsEngine, value: i32, google_pitch_percent: i32) -> (r: i32)
    requires
        engine != TtsEngine::Google ==> value <= i32::MAX - TTS_UI_OFFSET,
    ensures
        r == (if engine == TtsEngine::Google {
            google_pitch_percent as int
        } else {
            value + TTS_UI_OFFSET
        }),
{
    if engine == TtsEngine::Google {
        google_pitch_percent
    } else {
        tts_ui_value_from_internal(value)
    }
}

/// The value typed in a field: the trimmed text read as a number and clamped,
/// or `fallback` when it is not a number.
pub open spec fn edit_value_spec(text: Seq<char>, fallback: int, min: int, max: int) -> int {
    match parse_i32_spec(trim_spec(text)) {
        Some(v) => clamp_spec(v as int, min, max),
        None => fallback,
    }
}

/// The value typed in a field, clamped into `min..=max`.
pub fn read_tts_edit_value(text: &str, fallback: i32, min: i32, max: i32) -> (r: i32)
    requires
        min <= max,
    ensures
        r == edit_value_spec(text@, fallback as int, min as int, max as int),
{
    match parse_trimmed_i32(text) {
        Some(v) => clamp_i32(v, min, max),
        None => fallback,
    }
}

/// The value typed in a field, clamped, together with the clamped value when
/// clamping changed what was typed.
pub fn read_tts_edit_value_with_clamp(text: &str, fallback: i32, min: i32, max: i32) -> (r: (i32, Option<i32>))
    requires
        min <= max,
    ensures
        r.0 == edit_value_spec(text@, fallback as int, min as int, max as int),
        r.1 == (match parse_i32_spec(trim_spec(text@)) {
            Some(v) => if clamp_spec(v as int, min as int, max as int) != v {
                Some(r.0)
            } else {
                None
            },
            None => None,
        }),
{
    match parse_trimmed_i32(text) {
        Some(v) => {
            let c = clamp_i32(v, min, max);
            if c != v {
                (c, Some(c))
            } else {
                (c, None)
            }
        },
        None => (fallback, None),
    }
}

/// A rate or pitch typed in a field as a user value (offset by 100), read
/// back as an internal value within `min..=max`.
pub open spec fn tuning_edit_value_spec(text: Seq<char>, fallback_internal: int, min: int, max: int) -> int {
    let ui_min = min + 100;
    let ui_max = max + 100;
    let ui_fallback = clamp_spec(fallback_internal + 100, ui_min, ui_max);
    clamp_spec(edit_value_spec(text, ui_fallback, ui_min, ui_max) - 100, min, max)
}

/// The internal value of a rate or pitch typed as a user value.
pub fn read_tts_tuning_edit_value(text: &str, fallback_internal: i32, min: i32, max: i32) -> (r: i32)
    requires
        min <= max <= i32::MAX - TTS_UI_OFFSET,
        fallback_internal <= i32::MAX - TTS_UI_OFFSET,
    ensures
        r == tuning_edit_value_spec(text@, fallback_internal as int, min as int, max as int),
{
    let ui_min = min + TTS_UI_OFFSET;
    let ui_max = max + TTS_UI_OFFSET;
    let ui_fallback = clamp_i32(tts_ui_value_from_internal(fallback_internal), ui_min, ui_max);
    let ui_value = read_tts_edit_value(text, ui_fallback, ui_min, ui_max);
    clamp_i32(ui_value - TTS_UI_OFFSET, min, max)
}

/// The internal value of a rate or pitch typed as a user value, with the
/// clamped user value when clamping changed what was typed.
pub fn read_tts_tuning_edit_value_with_clamp(
    text: &str,
    fallback_internal: i32,
    min: i32,
    max: i32,
) -> (r: (i32, Option<i32>))
    requires
        min <= max <= i32::MAX - TTS_UI_OFFSET,
        fallback_internal <= i32::MAX - TTS_UI_OFFSET,
    ensures
        r.0 == tuning_edit_value_spec(text@, fallback_internal as int, min as int, max as int),
        r.1 == (match parse_i32_spec(trim_spec(text@)) {
            Some(v) => {
                let c = clamp_spec(v as int, min + 100, max + 100);
                if c != v {
                    Some(c as i32)
                } else {
                    None
                }
            },
            None => None,
        }),
{
    let ui_min = min + TTS_UI_OFFSET;
    let ui_max = max + TTS_UI_OFFSET;
    let ui_fallback = clamp_i32(tts_ui_value_from_internal(fallback_internal), ui_min, ui_max);
    let (ui_value, adjusted) = read_tts_edit_value_with_clamp(text, ui_fallback, ui_min, ui_max);
    (clamp_i32(ui_value - TTS_UI_OFFSET, min, max), adjusted)
}

/// The pitch typed in a field. For Google it is a percentage in `0..=100`
/// (with `google_fallback_percent` as fallback), which the Google engine
/// turns into its internal value; for the other engines it is the internal
/// pitch read as a user value.
pub fn read_tts_pitch_edit_value_with_clamp(
    text: &str,
    engine: TtsEngine,
    fallback_internal: i32,
    google_fallback_percent: i32,
) -> (r: (i32, Option<i32>))
    requires
        engine != TtsEngine::Google ==> fallback_internal <= i32::MAX - TTS_UI_OFFSET,
    ensures
        engine == TtsEngine::Google ==> r.0 == edit_value_spec(text@, google_fallback_percent as int, 0, 100),
        engine == TtsEngine::Google ==> r.1 == read_adjusted_spec(text@, 0, 100),
        engine != TtsEngine::Google ==> r.0 == tuning_edit_value_spec(text@, fallback_internal as int, -12, 12),
        engine != TtsEngine::Google ==> r.1 == read_adjusted_spec(text@, 88, 112),
{
    if engine == TtsEngine::Google {
        read_tts_edit_value_with_clamp(text, google_fallback_percent, 0, 100)
    } else {
        let limits = tts_tuning_limits_for_engine(engine, 0);
        read_tts_tuning_edit_value_with_clamp(text, fallback_internal, limits.pitch_min, limits.pitch_max)
    }
}

/// The distance between two values.
pub open spec fn distance_spec(a: int, b: int) -> int {
    if a >= b {
        a - b
    } else {
        b - a
    }
}

/// The first entry of `items` nearest to `value`, if `items` has any.
pub fn select_combo_nearest_value(items: &[i32], value: i32) -> (r: Option<usize>)
    requires
        forall|i: int| 0 <= i < items@.len() ==> i32::MIN < #[trigger] items@[i] - value <= i32::MAX,
    ensures
        items@.len() == 0 <==> r is None,
        r matches Some(k) ==> {
            &&& k < items@.len()
            &&& forall|j: int| 0 <= j < items@.len() ==> distance_spec(items@[k as int] as int, value as int)
                <= distance_spec(#[trigger] items@[j] as int, value as int)
            &&& forall|j: int| 0 <= j < k ==> distance_spec(items@[k as int] as int, value as int)
                < distance_spec(#[trigger] items@[j] as int, value as int)
        },
{
    if items.len() == 0 {
        return None;
    }
    let mut best_idx: usize = 0;
    let mut best_diff: i32 = i32::MAX;
    let mut i: usize = 0;
    while i < items.len()
        invariant
            0 < items@.len(),
            i <= items@.len(),
            best_idx < items@.len(),
            forall|i: int| 0 <= i < items@.len() ==> i32::MIN < #[trigger] items@[i] - value <= i32::MAX,
            i == 0 ==> best_idx == 0 && best_diff == i32::MAX,
            i > 0 ==> best_idx < i && best_diff == distance_spec(items@[best_idx as int] as int, value as int),
            forall|j: int| 0 <= j < i ==> best_diff <= distance_spec(#[trigger] items@[j] as int, value as int),
            forall|j: int| 0 <= j < best_idx ==> best_diff < distance_spec(#[trigger] items@[j] as int, value as int),
        decreases items@.len() - i,
    {
        let d = items[i] - value;
        let diff = if d < 0 {
            -d
        } else {
            d
        };
        if i == 0 || diff < best_diff {
            best_diff = diff;
            best_idx = i;
        }
        i += 1;
    }
    Some(best_idx)
}

/// The first entry of `items` equal to `value`, if any.
pub fn select_combo_value(items: &[i32], value: i32) -> (r: Option<usize>)
    ensures
        match r {
            Some(k) => k < items@.len() && items@[k as int] == value && forall|j: int|
                0 <= j < k ==> items@[j] != value,
            None => !items@.contains(value),
        },
{
    let mut i: usize = 0;
    while i < items.len()
        invariant
            i <= items@.len(),
            forall|j: int| 0 <= j < i ==> items@[j] != value,
        decreases items@.len() - i,
    {
        if items[i] == value {
            return Some(i);
        }
        i += 1;
    }
    None
}

/// The value of the selected entry of a value list: 0 when nothing is
/// selected, -1 (`CB_ERR`) when the selection is past the end.
pub fn combo_value(items: &[i32], selection: isize) -> (r: i32)
    ensures
        r == (if selection < 0 {
            0
        } else if selection < items@.len() {
            items@[selection as int] as int
        } else {
            -1
        }),
{
    if selection < 0 {
        return 0;
    }
    let idx = selection as usize;
    if idx < items.len() {
        items[idx]
    } else {
        -1
    }
}

/// The per-engine tunings that the dialog edits before they are saved.
#[derive(Clone, Copy, Debug, PartialEq, Eq, Structural)]
pub struct TuningDrafts {
    pub edge: TtsTuning,
    pub google: TtsTuning,
    pub sapi5: TtsTuning,
    pub sapi4: TtsTuning,
}

/// The draft tuning of `engine`.
pub open spec fn draft_spec(drafts: TuningDrafts, engine: TtsEngine) -> TtsTuning {
    match engine {
        TtsEngine::Edge => drafts.edge,
        TtsEngine::Google => drafts.google,
        TtsEngine::Sapi5 => drafts.sapi5,
        TtsEngine::Sapi4 => drafts.sapi4,
    }
}

/// `drafts` with the draft of `engine` replaced by `tuning`.
pub open spec fn with_draft(drafts: TuningDrafts, engine: TtsEngine, tuning: TtsTuning) -> TuningDrafts {
    match engine {
        TtsEngine::Edge => TuningDrafts { edge: tuning, ..drafts },
        TtsEngine::Google => TuningDrafts { google: tuning, ..drafts },
        TtsEngine::Sapi5 => TuningDrafts { sapi5: tuning, ..drafts },
        TtsEngine::Sapi4 => TuningDrafts { sapi4: tuning, ..drafts },
    }
}

impl TuningDrafts {
    /// The draft tuning of `engine`.
    pub fn get(&self, engine: TtsEngine) -> (t: TtsTuning)
        ensures
            t == draft_spec(*self, engine),
    {
        match engine {
            TtsEngine::Edge => self.edge,
            TtsEngine::Google => self.google,
            TtsEngine::Sapi5 => self.sapi5,
            TtsEngine::Sapi4 => self.sapi4,
        }
    }

    /// Stores the draft tuning of `engine`; the other engines keep theirs.
    pub fn set(&mut self, engine: TtsEngine, tuning: TtsTuning)
        ensures
            *final(self) == with_draft(*old(self), engine, tuning),
            draft_spec(*final(self), engine) == tuning,
            forall|e: TtsEngine| e != engine ==> draft_spec(*final(self), e) == draft_spec(*old(self), e),
    {
        match engine {
            TtsEngine::Edge => self.edge = tuning,
            TtsEngine::Google => self.google = tuning,
            TtsEngine::Sapi5 => self.sapi5 = tuning,
            TtsEngine::Sapi4 => self.sapi4 = tuning,
        }
    }

    /// Switching the main engine from `from` to `to`: the tuning `shown` in
    /// the dialog becomes the draft of `from`, and the draft of `to` is
    /// returned to be shown.
    pub fn switch_engine(&mut self, from: TtsEngine, shown: TtsTuning, to: TtsEngine) -> (next: TtsTuning)
        ensures
            *final(self) == with_draft(*old(self), from, shown),
            next == draft_spec(*final(self), to),
    {
        self.set(from, shown);
        self.get(to)
    }
}

/// Switching the main engine away and straight back shows again the tuning
/// that was shown when it was left: from `a` to another engine `b` with `t`
/// shown, then back from `b` with any `u` shown, gives `t`.
pub proof fn lemma_switch_back_restores_tuning(
    drafts: TuningDrafts,
    a: TtsEngine,
    b: TtsEngine,
    t: TtsTuning,
    u: TtsTuning,
)
    requires
        a != b,
    ensures
        draft_spec(with_draft(with_draft(drafts, a, t), b, u), a) == t,
{
}

/// The draft of an engine is the field named after that engine, and
/// replacing it changes that field alone.
pub proof fn lemma_draft_is_own_field(drafts: TuningDrafts, t: TtsTuning)
    ensures
        draft_spec(drafts, TtsEngine::Edge) == drafts.edge,
        draft_spec(drafts, TtsEngine::Google) == drafts.google,
        draft_spec(drafts, TtsEngine::Sapi5) == drafts.sapi5,
        draft_spec(drafts, TtsEngine::Sapi4) == drafts.sapi4,
        with_draft(drafts, TtsEngine::Edge, t) == (TuningDrafts { edge: t, ..drafts }),
        with_draft(drafts, TtsEngine::Google, t) == (TuningDrafts { google: t, ..drafts }),
        with_draft(drafts, TtsEngine::Sapi5, t) == (TuningDrafts { sapi5: t, ..drafts }),
        with_draft(drafts, TtsEngine::Sapi4, t) == (TuningDrafts { sapi4: t, ..drafts }),
{
}

/// Drafts that agree on every engine are the same drafts.
pub proof fn lemma_drafts_determined(a: TuningDrafts, b: TuningDrafts)
    requires
        forall|e: TtsEngine| draft_spec(a, e) == draft_spec(b, e),
    ensures
        a == b,
{
    assert(draft_spec(a, TtsEngine::Edge) == draft_spec(b, TtsEngine::Edge));
    assert(draft_spec(a, TtsEngine::Google) == draft_spec(b, TtsEngine::Google));
    assert(draft_spec(a, TtsEngine::Sapi5) == draft_spec(b, TtsEngine::Sapi5));
    assert(draft_spec(a, TtsEngine::Sapi4) == draft_spec(b, TtsEngine::Sapi4));
}

/// The rate and volume of the main voice as the dialog reads them, and the
/// first value that clamping changed. With manual tuning they come from the
/// typed fields (rate as a user value with fallback 0, volume with fallback
/// 100); otherwise from the selected list entries, clamped. The pitch is read
/// separately (`read_tts_pitch_edit_value_with_clamp`) and passed in.
pub fn main_tts_tuning_from_inputs(
    limits: TtsTuningLimits,
    manual: bool,
    speed_text: &str,
    volume_text: &str,
    pitch: (i32, Option<i32>),
    combo_speed: i32,
    combo_volume: i32,
) -> (r: (TtsTuning, Option<i32>))
    requires
        limits_ordered(limits),
        limits.rate_max <= i32::MAX - TTS_UI_OFFSET,
    ensures
        manual ==> r.0 == (TtsTuning {
            rate: tuning_edit_value_spec(speed_text@, 0, limits.rate_min as int, limits.rate_max as int) as i32,
            pitch: pitch.0,
            volume: edit_value_spec(volume_text@, 100, limits.volume_min as int, limits.volume_max as int) as i32,
        }),
        !manual ==> r.0 == (TtsTuning {
            rate: clamp_spec(combo_speed as int, limits.rate_min as int, limits.rate_max as int) as i32,
            pitch: pitch.0,
            volume: clamp_spec(combo_volume as int, limits.volume_min as int, limits.volume_max as int) as i32,
        }) && r.1 is None,
        manual ==> r.1 == (match read_adjusted_spec(speed_text@, limits.rate_min as int + 100, limits.rate_max as int + 100) {
            Some(v) => Some(v),
            None => match pitch.1 {
                Some(p) => Some(p),
                None => read_adjusted_spec(volume_text@, limits.volume_min as int, limits.volume_max as int),
            },
        }),
{
    if manual {
        let (rate, adjusted_rate) = read_tts_tuning_edit_value_with_clamp(
            speed_text,
            0,
            limits.rate_min,
            limits.rate_max,
        );
        let (volume, adjusted_volume) = read_tts_edit_value_with_clamp(
            volume_text,
            100,
            limits.volume_min,
            limits.volume_max,
        );
        let adjusted = match adjusted_rate {
            Some(v) => Some(v),
            None => match pitch.1 {
                Some(p) => Some(p),
                None => adjusted_volume,
            },
        };
        (TtsTuning::new(rate, pitch.0, volume), adjusted)
    } else {
        (
            TtsTuning::new(
                clamp_i32(combo_speed, limits.rate_min, limits.rate_max),
                pitch.0,
                clamp_i32(combo_volume, limits.volume_min, limits.volume_max),
            ),
            None,
        )
    }
}

/// The clamped value of a typed number when clamping into `min..=max`
/// changed it.
pub open spec fn read_adjusted_spec(text: Seq<char>, min: int, max: int) -> Option<i32> {
    match parse_i32_spec(trim_spec(text)) {
        Some(v) => {
            let c = clamp_spec(v as int, min, max);
            if c != v {
                Some(c as i32)
            } else {
                None
            }
        },
        None => None,
    }
}

/// The texts of the rate, pitch and volume fields for a (clamped) tuning:
/// rate and non-Google pitch as user values, a Google pitch as its
/// percentage (`google_pitch_percent`), the volume as is.
pub fn tuning_field_texts(engine: TtsEngine, tuning: TtsTuning, google_pitch_percent: i32) -> (r: (
    String,
    String,
    String,
))
    requires
        tuning.rate <= i32::MAX - TTS_UI_OFFSET,
        engine != TtsEngine::Google ==> tuning.pitch <= i32::MAX - TTS_UI_OFFSET,
    ensures
        r.0@ == signed_decimal_spec(tuning.rate + 100),
        r.1@ == signed_decimal_spec(
            if engine == TtsEngine::Google {
                google_pitch_percent as int
            } else {
                tuning.pitch + 100
            },
        ),
        r.2@ == signed_decimal_spec(tuning.volume as int),
{
    let rate = i32_to_string(tts_ui_value_from_internal(tuning.rate));
    let pitch = i32_to_string(tts_pitch_ui_value(engine, tuning.pitch, google_pitch_percent));
    let volume = i32_to_string(tuning.volume);
    (rate, pitch, volume)
}

/// Reading back the fields written for a tuning gives the tuning: the rate
/// and a non-Google pitch (written as user values) and the volume, whenever
/// they lie within the limits the fields are read with, and whatever white
/// space surrounds each written number (`*_pad`: before and after it).
pub proof fn lemma_tuning_fields_round_trip(
    rate: i32,
    pitch: i32,
    volume: i32,
    limits: TtsTuningLimits,
    fallback_rate: int,
    fallback_pitch: int,
    fallback_volume: int,
    rate_pad: (Seq<char>, Seq<char>),
    pitch_pad: (Seq<char>, Seq<char>),
    volume_pad: (Seq<char>, Seq<char>),
)
    requires
        limits.rate_min <= rate <= limits.rate_max <= i32::MAX - TTS_UI_OFFSET,
        limits.pitch_min <= pitch <= limits.pitch_max <= i32::MAX - TTS_UI_OFFSET,
        limits.volume_min <= volume <= limits.volume_max,
        all_whitespace(rate_pad.0) && all_whitespace(rate_pad.1),
        all_whitespace(pitch_pad.0) && all_whitespace(pitch_pad.1),
        all_whitespace(volume_pad.0) && all_whitespace(volume_pad.1),
    ensures
        tuning_edit_value_spec(
            rate_pad.0 + signed_decimal_spec(rate + 100) + rate_pad.1,
            fallback_rate,
            limits.rate_min as int,
            limits.rate_max as int,
        ) == rate,
        tuning_edit_value_spec(
            pitch_pad.0 + signed_decimal_spec(pitch + 100) + pitch_pad.1,
            fallback_pitch,
            limits.pitch_min as int,
            limits.pitch_max as int,
        ) == pitch,
        edit_value_spec(
            volume_pad.0 + signed_decimal_spec(volume as int) + volume_pad.1,
            fallback_volume,
            limits.volume_min as int,
            limits.volume_max as int,
        ) == volume,
{
    lemma_parse_signed_decimal(rate + 100);
    lemma_parse_signed_decimal(pitch + 100);
    lemma_parse_signed_decimal(volume as int);
    lemma_trim_padded(rate_pad.0, signed_decimal_spec(rate + 100), rate_pad.1);
    lemma_trim_padded(pitch_pad.0, signed_decimal_spec(pitch + 100), pitch_pad.1);
    lemma_trim_padded(volume_pad.0, signed_decimal_spec(volume as int), volume_pad.1);
}

} // verus!
