//! The online voice list: reading it from the service's JSON document, keeping
//! it sorted by short name, and choosing what the voice lists show.

use vstd::prelude::*;

use crate::json::{parse_voice_list_document, voice_entry_view, voice_list_json};
use crate::model::{Language, TtsEngine, VoiceInfo};
use crate::order::{chars_less, lemma_lt_asymmetric, lemma_lt_transitive, seq_lt};
use crate::i18n::Catalog;
use crate::labels::{localized_voice_language_name, voice_language_name_spec, OptionsLabels};
use crate::languages::{collect_voice_language_codes, voice_codes_contain, voice_locale_code_spec, voice_locale_language_code};
use crate::order::{string_views, strictly_sorted};
use crate::text::{parse_i32_chars, parse_i32_spec, chars_of, concat_str, contains_spec, contains_str, is_blank, str_equals, string_from_chars, trim_chars, trim_spec};

verus! {

broadcast use vstd::seq_lib::group_to_multiset_ensures;

/// A voice as plain values: short name, locale, and whether it is multilingual.
pub type VoiceView = (Seq<char>, Seq<char>, bool);

/// A voice as plain values.
pub open spec fn voice_view(v: VoiceInfo) -> VoiceView {
    (v.short_name@, v.locale@, v.is_multilingual)
}

/// The voices of a list as plain values.
pub open spec fn voices_view(v: Seq<VoiceInfo>) -> Seq<VoiceView> {
    v.map_values(|x: VoiceInfo| voice_view(x))
}

/// The voice that an entry of the document describes: none when its short
/// name is missing or empty; the locale is empty when missing; a voice is
/// multilingual when its short name contains `Multilingual`.
pub open spec fn voice_of_entry(e: (Option<Seq<char>>, Option<Seq<char>>)) -> Option<VoiceView> {
    let name = match e.0 {
        Some(n) => n,
        None => Seq::empty(),
    };
    let locale = match e.1 {
        Some(l) => l,
        None => Seq::empty(),
    };
    if name.len() == 0 {
        None
    } else {
        Some((name, locale, contains_spec(name, "Multilingual"@)))
    }
}

/// The voices that the entries describe, in document order.
pub open spec fn voices_of_entries(entries: Seq<(Option<Seq<char>>, Option<Seq<char>>)>) -> Seq<VoiceView>
    decreases entries.len(),
{
    if entries.len() == 0 {
        Seq::empty()
    } else {
        let rest = voices_of_entries(entries.drop_last());
        match voice_of_entry(entries.last()) {
            Some(v) => rest.push(v),
            None => rest,
        }
    }
}

/// `v` put into `s` after every voice whose short name is not greater.
pub open spec fn insert_by_name(s: Seq<VoiceView>, v: VoiceView) -> Seq<VoiceView>
    decreases s.len(),
{
    if s.len() == 0 {
        seq![v]
    } else if seq_lt(v.0, s[0].0) {
        seq![v] + s
    } else {
        seq![s[0]] + insert_by_name(s.drop_first(), v)
    }
}

/// `s` sorted by short name, voices with equal names in their order in `s`
/// (a stable sort).
pub open spec fn sort_by_name(s: Seq<VoiceView>) -> Seq<VoiceView>
    decreases s.len(),
{
    if s.len() == 0 {
        Seq::empty()
    } else {
        insert_by_name(sort_by_name(s.drop_last()), s.last())
    }
}

/// Short names never decrease along `s`.
pub open spec fn names_sorted(s: Seq<VoiceView>) -> bool {
    forall|i: int, j: int| 0 <= i < j < s.len() ==> !seq_lt(#[trigger] s[j].0, #[trigger] s[i].0)
}

/// Inserting by name is inserting at the first position whose name is
/// greater than the new voice's.
proof fn lemma_insert_position(s: Seq<VoiceView>, v: VoiceView) -> (k: int)
    ensures
        0 <= k <= s.len(),
        insert_by_name(s, v) == s.insert(k, v),
        forall|j: int| 0 <= j < k ==> !seq_lt(v.0, #[trigger] s[j].0),
        k < s.len() ==> seq_lt(v.0, s[k].0),
    decreases s.len(),
{
    if s.len() == 0 {
        assert(insert_by_name(s, v) =~= s.insert(0, v));
        0
    } else if seq_lt(v.0, s[0].0) {
        assert(insert_by_name(s, v) =~= s.insert(0, v));
        0
    } else {
        let rest = s.drop_first();
        let k0 = lemma_insert_position(rest, v);
        assert(insert_by_name(s, v) =~= s.insert(k0 + 1, v)) by {
            assert(insert_by_name(s, v) == seq![s[0]] + rest.insert(k0, v));
        }
        assert forall|j: int| 0 <= j < k0 + 1 implies !seq_lt(v.0, #[trigger] s[j].0) by {
            if j > 0 {
                assert(s[j] == rest[j - 1]);
            }
        }
        if k0 + 1 < s.len() {
            assert(s[k0 + 1] == rest[k0]);
        }
        k0 + 1
    }
}

/// Inserting by name into a sorted list keeps it sorted.
proof fn lemma_insert_keeps_sorted(s: Seq<VoiceView>, v: VoiceView)
    requires
        names_sorted(s),
    ensures
        names_sorted(insert_by_name(s, v)),
{
    let k = lemma_insert_position(s, v);
    let r = s.insert(k, v);
    assert forall|i: int, j: int| 0 <= i < j < r.len() implies !seq_lt(#[trigger] r[j].0, #[trigger] r[i].0) by {
        if i < k && j < k {
            assert(r[i] == s[i] && r[j] == s[j]);
        } else if i < k && j == k {
            assert(r[i] == s[i]);
        } else if i < k {
            assert(r[i] == s[i] && r[j] == s[j - 1]);
        } else if i == k {
            assert(r[j] == s[j - 1]);
            if seq_lt(s[j - 1].0, v.0) {
                if j - 1 > k {
                    lemma_lt_transitive(s[j - 1].0, v.0, s[k].0);
                } else {
                    lemma_lt_asymmetric(v.0, s[k].0);
                }
            }
        } else {
            assert(r[i] == s[i - 1] && r[j] == s[j - 1]);
        }
    }
}

/// The stable sort by name gives a list whose names never decrease.
pub proof fn lemma_sort_by_name_sorted(s: Seq<VoiceView>)
    ensures
        names_sorted(sort_by_name(s)),
    decreases s.len(),
{
    if s.len() > 0 {
        lemma_sort_by_name_sorted(s.drop_last());
        lemma_insert_keeps_sorted(sort_by_name(s.drop_last()), s.last());
    }
}

/// The stable sort by name keeps every voice, as often as it occurs.
pub proof fn lemma_sort_by_name_permutes(s: Seq<VoiceView>)
    ensures
        sort_by_name(s).to_multiset() == s.to_multiset(),
    decreases s.len(),
{
    if s.len() == 0 {
        assert(sort_by_name(s) =~= s);
    } else {
        lemma_sort_by_name_permutes(s.drop_last());
        let sorted = sort_by_name(s.drop_last());
        let k = lemma_insert_position(sorted, s.last());
        vstd::seq_lib::to_multiset_insert(sorted, k, s.last());
        vstd::seq_lib::to_multiset_build(s.drop_last(), s.last());
        assert(s.drop_last().push(s.last()) =~= s);
    }
}

/// The entries of a voice-list document as plain values.
pub open spec fn entries_view(entries: Seq<(Option<String>, Option<String>)>) -> Seq<(Option<Seq<char>>, Option<Seq<char>>)> {
    entries.map_values(|e: (Option<String>, Option<String>)| voice_entry_view(e))
}

/// The position at which `v` goes into `list`: the first voice whose short
/// name is greater than `v`'s, or the end.
fn insert_position(list: &Vec<VoiceInfo>, name: &Vec<char>) -> (k: usize)
    ensures
        k <= list@.len(),
        forall|j: int| 0 <= j < k ==> !seq_lt(name@, #[trigger] list@[j].short_name@),
        k < list@.len() ==> seq_lt(name@, list@[k as int].short_name@),
{
    let mut k: usize = 0;
    while k < list.len()
        invariant
            k <= list@.len(),
            forall|j: int| 0 <= j < k ==> !seq_lt(name@, #[trigger] list@[j].short_name@),
        decreases list@.len() - k,
    {
        let other = chars_of(list[k].short_name.as_str());
        if chars_less(name.as_slice(), other.as_slice()) {
            return k;
        }
        k += 1;
    }
    k
}

/// The voices that the entries of a voice-list document describe, sorted by
/// short name (stably): entries without a short name are left out, a missing
/// locale is empty, and a voice is multilingual when its short name contains
/// `Multilingual`.
pub fn voices_from_entries(entries: &[(Option<String>, Option<String>)]) -> (voices: Vec<VoiceInfo>)
    ensures
        voices_view(voices@) == sort_by_name(voices_of_entries(entries_view(entries@))),
{
    let ghost ev = entries_view(entries@);
    let mut voices: Vec<VoiceInfo> = Vec::new();
    let mut i: usize = 0;
    proof {
        assert(voices_view(voices@) =~= Seq::<VoiceView>::empty());
        assert(ev.take(0) =~= Seq::<(Option<Seq<char>>, Option<Seq<char>>)>::empty());
    }
    while i < entries.len()
        invariant
            i <= entries@.len(),
            ev == entries_view(entries@),
            voices_view(voices@) == sort_by_name(voices_of_entries(ev.take(i as int))),
        decreases entries@.len() - i,
    {
        let ghost before = voices_of_entries(ev.take(i as int));
        proof {
            assert(ev.take(i + 1).drop_last() =~= ev.take(i as int));
            assert(ev.take(i + 1).last() == ev[i as int]);
            assert(ev[i as int] == voice_entry_view(entries@[i as int]));
        }
        let entry = &entries[i];
        let name = match &entry.0 {
            Some(n) => n.clone(),
            None => String::new(),
        };
        let locale = match &entry.1 {
            Some(l) => l.clone(),
            None => String::new(),
        };
        proof {
            assert(name@ == (match ev[i as int].0 {
                Some(n) => n,
                None => Seq::<char>::empty(),
            }));
        }
        if !name.as_str().is_empty() {
            let multilingual = contains_str(name.as_str(), "Multilingual");
            let name_chars = chars_of(name.as_str());
            let voice = VoiceInfo { short_name: name, locale: locale, is_multilingual: multilingual };
            let ghost vv = voice_view(voice);
            let ghost sorted = voices_view(voices@);
            let k = insert_position(&voices, &name_chars);
            proof {
                assert(voice_of_entry(ev[i as int]) == Some(vv));
                assert(voices_of_entries(ev.take(i + 1)) == before.push(vv));
                assert(before.push(vv).drop_last() =~= before);
                assert(sort_by_name(before.push(vv)) == insert_by_name(sorted, vv));
                let k2 = lemma_insert_position(sorted, vv);
                assert forall|j: int| 0 <= j < voices@.len() implies sorted[j].0 == #[trigger] voices@[j].short_name@ by {}
                if (k as int) < k2 {
                    assert(sorted[k as int].0 == voices@[k as int].short_name@);
                } else if k2 < (k as int) {
                    assert(sorted[k2].0 == voices@[k2].short_name@);
                }
            }
            voices.insert(k, voice);
            proof {
                assert(voices_view(voices@) =~= sorted.insert(k as int, vv));
            }
        } else {
            proof {
                assert(voice_of_entry(ev[i as int]) is None);
                assert(voices_of_entries(ev.take(i + 1)) == before);
            }
        }
        i += 1;
    }
    proof {
        assert(ev.take(entries@.len() as int) =~= ev);
    }
    voices
}

/// The voice list read from a parsed document: the error "Risposta non
/// valida" when the document is not an array, otherwise the voices that its
/// entries describe (see `voices_from_entries`).
pub fn voices_from_document(document: Option<Vec<(Option<String>, Option<String>)>>) -> (r: Result<Vec<VoiceInfo>, String>)
    ensures
        document is None ==> (r matches Err(e) && e@ == "Risposta non valida"@),
        document matches Some(entries) ==> (r matches Ok(voices) && voices_view(voices@) == sort_by_name(
            voices_of_entries(entries_view(entries@)),
        )),
{
    match document {
        Some(entries) => Ok(voices_from_entries(entries.as_slice())),
        None => Err("Risposta non valida".to_owned()),
    }
}

/// The voice list read from the text of the service's answer: the error
/// "error decoding response body" when the text is not JSON, otherwise as
/// `voices_from_document` says of the parsed document.
pub fn voice_list_from_response(body: &str) -> (r: Result<Vec<VoiceInfo>, String>)
    ensures
        voice_list_json(body@) is None ==> (r matches Err(e) && e@ == "error decoding response body"@),
        voice_list_json(body@) == Some(None::<Seq<(Option<Seq<char>>, Option<Seq<char>>)>>) ==> (r matches Err(e)
            && e@ == "Risposta non valida"@),
        voice_list_json(body@) matches Some(Some(entries)) ==> (r matches Ok(voices) && voices_view(voices@)
            == sort_by_name(voices_of_entries(entries))),
{
    match parse_voice_list_document(body) {
        Ok(document) => {
            let ghost d = document;
            let r = voices_from_document(document);
            proof {
                match d {
                    Some(entries) => {
                        assert(entries_view(entries@) == entries@.map_values(
                            |e: (Option<String>, Option<String>)| voice_entry_view(e),
                        ));
                    },
                    None => {},
                }
            }
            r
        },
        Err(_) => Err("error decoding response body".to_owned()),
    }
}

/// Whether a voice is listed: multilingual when only those are wanted, and of
/// the chosen language when there is a language filter.
pub open spec fn voice_passes(v: VoiceView, only_multilingual: bool, language: Option<Seq<char>>) -> bool {
    &&& (!only_multilingual || v.2)
    &&& match language {
        Some(code) => voice_locale_code_spec(v.1) == Some(code),
        None => true,
    }
}

/// The positions in `voices` of the voices that are listed, in order.
pub open spec fn shown_indices(voices: Seq<VoiceView>, only_multilingual: bool, language: Option<Seq<char>>) -> Seq<int>
    decreases voices.len(),
{
    if voices.len() == 0 {
        Seq::empty()
    } else {
        let rest = shown_indices(voices.drop_last(), only_multilingual, language);
        if voice_passes(voices.last(), only_multilingual, language) {
            rest.push(voices.len() - 1)
        } else {
            rest
        }
    }
}

/// The last entry of the list (given as positions in `voices`) whose voice
/// has the short name `name`.
pub open spec fn last_named(voices: Seq<VoiceView>, shown: Seq<int>, name: Seq<char>) -> Option<int>
    decreases shown.len(),
{
    if shown.len() == 0 {
        None
    } else if voices[shown.last()].0 == name {
        Some(shown.len() - 1)
    } else {
        last_named(voices, shown.drop_last(), name)
    }
}

/// The content of a voice list: its lines, the position in the voice list
/// of the voice of each line, and the line to select.
pub struct VoiceComboItems {
    pub labels: Vec<String>,
    pub voice_indices: Vec<usize>,
    pub selection: Option<usize>,
}

/// `name (locale)`.
pub open spec fn voice_label_spec(name: Seq<char>, locale: Seq<char>) -> Seq<char> {
    name + " ("@ + locale + ")"@
}

/// What a voice list shows: `empty_label` alone, selected, when there are no
/// voices; otherwise a line `name (locale)` for each listed voice (its name
/// from `display_names`), and the last line of the voice `selected`, or the
/// first line when that voice is not listed.
pub open spec fn voice_combo_items_spec(
    voices: Seq<VoiceInfo>,
    display_names: Seq<String>,
    selected: Seq<char>,
    only_multilingual: bool,
    language_filter: Option<Seq<char>>,
    empty_label: Seq<char>,
    r: VoiceComboItems,
) -> bool {
    if voices.len() == 0 {
        &&& r.labels@.len() == 1
        &&& r.labels@[0]@ == empty_label
        &&& r.voice_indices@.len() == 0
        &&& r.selection == Some(0usize)
    } else {
        let shown = shown_indices(voices_view(voices), only_multilingual, language_filter);
        &&& r.voice_indices@.len() == shown.len()
        &&& r.labels@.len() == shown.len()
        &&& forall|j: int| 0 <= j < shown.len() ==> r.voice_indices@[j] == shown[j]
        &&& forall|j: int|
            0 <= j < shown.len() ==> (#[trigger] r.labels@[j])@ == voice_label_spec(
                display_names[shown[j]]@,
                voices[shown[j]].locale@,
            )
        &&& r.selection == (match last_named(voices_view(voices), shown, selected) {
            Some(p) => Some(p as usize),
            None => if shown.len() > 0 {
                Some(0usize)
            } else {
                None
            },
        })
    }
}

/// What a voice list shows (see `voice_combo_items_spec`).
pub fn voice_combo_items(
    voices: &[VoiceInfo],
    display_names: &[String],
    selected: &str,
    only_multilingual: bool,
    language_filter: Option<&str>,
    empty_label: &str,
) -> (r: VoiceComboItems)
    requires
        display_names@.len() == voices@.len(),
    ensures
        voice_combo_items_spec(
            voices@,
            display_names@,
            selected@,
            only_multilingual,
            match language_filter {
                Some(f) => Some(f@),
                None => None,
            },
            empty_label@,
            r,
        ),
{
    let mut labels: Vec<String> = Vec::new();
    let mut indices: Vec<usize> = Vec::new();
    if voices.len() == 0 {
        labels.push(empty_label.to_owned());
        return VoiceComboItems { labels, voice_indices: indices, selection: Some(0) };
    }
    let ghost vv = voices_view(voices@);
    let ghost filter = match language_filter {
        Some(f) => Some(f@),
        None => None,
    };
    let mut found: Option<usize> = None;
    let mut i: usize = 0;
    while i < voices.len()
        invariant
            i <= voices@.len(),
            display_names@.len() == voices@.len(),
            vv == voices_view(voices@),
            filter == (match language_filter {
                Some(f) => Some(f@),
                None => None::<Seq<char>>,
            }),
            indices@.len() == shown_indices(vv.take(i as int), only_multilingual, filter).len(),
            labels@.len() == indices@.len(),
            forall|j: int|
                0 <= j < indices@.len() ==> indices@[j] == shown_indices(vv.take(i as int), only_multilingual, filter)[j],
            forall|j: int|
                0 <= j < indices@.len() ==> indices@[j] < i,
            forall|j: int|
                0 <= j < indices@.len() ==> (#[trigger] labels@[j])@ == voice_label_spec(
                    display_names@[indices@[j] as int]@,
                    voices@[indices@[j] as int].locale@,
                ),
            found == (match last_named(vv, shown_indices(vv.take(i as int), only_multilingual, filter), selected@) {
                Some(p) => Some(p as usize),
                None => None,
            }),
        decreases voices@.len() - i,
    {
        let ghost before = shown_indices(vv.take(i as int), only_multilingual, filter);
        proof {
            assert(vv.take(i + 1).drop_last() =~= vv.take(i as int));
            assert(vv.take(i + 1).last() == vv[i as int]);
            assert(vv[i as int] == voice_view(voices@[i as int]));
        }
        let voice = &voices[i];
        let mut passes = !only_multilingual || voice.is_multilingual;
        if passes {
            match language_filter {
                Some(f) => {
                    match voice_locale_language_code(voice.locale.as_str()) {
                        Some(code) => {
                            passes = str_equals(code.as_str(), f);
                        },
                        None => {
                            passes = false;
                        },
                    }
                },
                None => {},
            }
        }
        proof {
            assert(passes == voice_passes(vv[i as int], only_multilingual, filter));
        }
        if passes {
            let with_open = concat_str(display_names[i].as_str(), " (");
            let with_locale = concat_str(with_open.as_str(), voice.locale.as_str());
            let label = concat_str(with_locale.as_str(), ")");
            proof {
                assert(label@ =~= voice_label_spec(display_names@[i as int]@, voices@[i as int].locale@));
            }
            let ghost position = indices@.len();
            if str_equals(voice.short_name.as_str(), selected) {
                found = Some(indices.len());
            }
            labels.push(label);
            indices.push(i);
            proof {
                let after = before.push(i as int);
                assert(shown_indices(vv.take(i + 1), only_multilingual, filter) == after);
                assert(after.drop_last() =~= before);
                assert(after.last() == i as int);
                assert(vv[i as int].0 == voices@[i as int].short_name@);
            }
        } else {
            proof {
                assert(shown_indices(vv.take(i + 1), only_multilingual, filter) == before);
            }
        }
        i += 1;
    }
    proof {
        assert(vv.take(voices@.len() as int) =~= vv);
    }
    let selection = match found {
        Some(p) => Some(p),
        None => if indices.len() > 0 {
            Some(0)
        } else {
            None
        },
    };
    VoiceComboItems { labels, voice_indices: indices, selection }
}

/// The text of a voice-list line before its first ` (`.
pub open spec fn name_part_spec(s: Seq<char>) -> Seq<char>
    decreases s.len(),
{
    if s.len() == 0 {
        s
    } else if s.len() > 1 && s[0] == ' ' && s[1] == '(' {
        Seq::empty()
    } else {
        seq![s[0]] + name_part_spec(s.drop_first())
    }
}

/// The short name shown in a voice-list line `name (locale)`: the trimmed
/// text before the first ` (`, none when that is empty.
pub open spec fn short_name_of_line(text: Seq<char>) -> Option<Seq<char>> {
    let name = trim_spec(name_part_spec(text));
    if name.len() == 0 {
        None
    } else {
        Some(name)
    }
}

/// The short name of the voice of the voice-list line `text`.
pub fn selected_voice_short_name_from_combo_text(text: &str) -> (r: Option<String>)
    ensures
        match r {
            Some(name) => short_name_of_line(text@) == Some(name@),
            None => short_name_of_line(text@) is None,
        },
{
    let v = chars_of(text);
    let n = v.len();
    let mut out: Vec<char> = Vec::new();
    let mut i: usize = 0;
    proof {
        assert(v@.subrange(0, n as int) =~= v@);
    }
    while i < n && !(v[i] == ' ' && i + 1 < n && v[i + 1] == '(')
        invariant
            n == v@.len(),
            i <= n,
            name_part_spec(v@) == out@ + name_part_spec(v@.subrange(i as int, n as int)),
        decreases n - i,
    {
        proof {
            let rest = v@.subrange(i as int, n as int);
            assert(rest.drop_first() =~= v@.subrange(i + 1, n as int));
            assert(out@.push(v@[i as int]) + name_part_spec(rest.drop_first()) =~= out@ + (seq![rest[0]]
                + name_part_spec(rest.drop_first())));
        }
        out.push(v[i]);
        i += 1;
    }
    proof {
        let rest = v@.subrange(i as int, n as int);
        if i < n {
            assert(rest[0] == v@[i as int] && rest[1] == v@[i + 1]);
        }
        assert(out@ + name_part_spec(rest) =~= out@);
    }
    let name = trim_chars(out.as_slice());
    if name.len() == 0 {
        None
    } else {
        Some(string_from_chars(name.as_slice()))
    }
}

/// The line of a voice list whose voice has the short name `short_name`: the
/// first line (given as positions in `voices`, `line_voices`) whose position
/// names a voice of that short name; none for a blank name.
pub fn voice_combo_position(line_voices: &[usize], voices: &[VoiceInfo], short_name: &str) -> (r: Option<usize>)
    ensures
        trim_spec(short_name@).len() == 0 ==> r is None,
        trim_spec(short_name@).len() > 0 ==> match r {
            Some(k) => {
                &&& k < line_voices@.len()
                &&& line_voices@[k as int] < voices@.len()
                &&& voices@[line_voices@[k as int] as int].short_name@ == short_name@
                &&& forall|j: int|
                    0 <= j < k ==> !(line_voices@[j] < voices@.len() && voices@[line_voices@[j] as int].short_name@
                        == short_name@)
            },
            None => forall|j: int|
                0 <= j < line_voices@.len() ==> !(line_voices@[j] < voices@.len()
                    && voices@[line_voices@[j] as int].short_name@ == short_name@),
        },
{
    if is_blank(short_name) {
        return None;
    }
    let mut k: usize = 0;
    while k < line_voices.len()
        invariant
            k <= line_voices@.len(),
            trim_spec(short_name@).len() > 0,
            forall|j: int|
                0 <= j < k ==> !(line_voices@[j] < voices@.len() && voices@[line_voices@[j] as int].short_name@
                    == short_name@),
        decreases line_voices@.len() - k,
    {
        let index = line_voices[k];
        if index < voices.len() && str_equals(voices[index].short_name.as_str(), short_name) {
            return Some(k);
        }
        k += 1;
    }
    None
}

/// The language code of the first voice named `name`, if that voice has one.
pub open spec fn named_voice_code(voices: Seq<VoiceView>, name: Seq<char>) -> Option<Seq<char>>
    decreases voices.len(),
{
    if voices.len() == 0 {
        None
    } else if voices[0].0 == name {
        voice_locale_code_spec(voices[0].1)
    } else {
        named_voice_code(voices.drop_first(), name)
    }
}

/// The language to select in a voice-language list of `codes`: the previous
/// choice when the list still has it, else the language of the current
/// voice when the list has it, else the first language.
pub open spec fn chosen_code_spec(
    codes: Seq<Seq<char>>,
    previous: Option<Seq<char>>,
    voices: Seq<VoiceView>,
    current_voice: Seq<char>,
) -> Seq<char> {
    if previous is Some && codes.contains(previous->0) {
        previous->0
    } else if named_voice_code(voices, current_voice) is Some && codes.contains(
        named_voice_code(voices, current_voice)->0,
    ) {
        named_voice_code(voices, current_voice)->0
    } else {
        codes[0]
    }
}

/// The first voice named `name`, and its language code.
fn named_voice_language(voices: &[VoiceInfo], name: &str) -> (r: Option<String>)
    ensures
        match r {
            Some(c) => named_voice_code(voices_view(voices@), name@) == Some(c@),
            None => named_voice_code(voices_view(voices@), name@) is None,
        },
{
    let ghost vv = voices_view(voices@);
    let mut i: usize = 0;
    proof {
        assert(vv.skip(0) =~= vv);
    }
    while i < voices.len()
        invariant
            i <= voices@.len(),
            vv == voices_view(voices@),
            named_voice_code(vv, name@) == named_voice_code(vv.skip(i as int), name@),
        decreases voices@.len() - i,
    {
        proof {
            assert(vv.skip(i as int).drop_first() =~= vv.skip(i + 1));
            assert(vv.skip(i as int)[0] == voice_view(voices@[i as int]));
        }
        if str_equals(voices[i].short_name.as_str(), name) {
            return voice_locale_language_code(voices[i].locale.as_str());
        }
        i += 1;
    }
    None
}

/// Whether `code` is one of `codes`.
fn codes_contain(codes: &[String], code: &str) -> (r: bool)
    ensures
        r == string_views(codes@).contains(code@),
{
    let mut i: usize = 0;
    while i < codes.len()
        invariant
            i <= codes@.len(),
            forall|j: int| 0 <= j < i ==> codes@[j]@ != code@,
        decreases codes@.len() - i,
    {
        if str_equals(codes[i].as_str(), code) {
            proof {
                assert(string_views(codes@)[i as int] == code@);
            }
            return true;
        }
        i += 1;
    }
    proof {
        if string_views(codes@).contains(code@) {
            let j = choose|j: int| 0 <= j < codes@.len() && string_views(codes@)[j] == code@;
            assert(codes@[j]@ == code@);
        }
    }
    false
}

/// The entry to select in a voice-language list of `codes` (see
/// `chosen_code_spec`): the last entry with the chosen code; none when the
/// list is empty.
pub fn voice_language_selection(
    codes: &[String],
    previous: Option<&str>,
    voices: &[VoiceInfo],
    current_voice: &str,
) -> (r: Option<usize>)
    ensures
        codes@.len() == 0 ==> r is None,
        codes@.len() > 0 ==> (r matches Some(k) && k < codes@.len() && codes@[k as int]@ == chosen_code_spec(
            string_views(codes@),
            match previous {
                Some(p) => Some(p@),
                None => None,
            },
            voices_view(voices@),
            current_voice@,
        ) && forall|j: int| k < j < codes@.len() ==> codes@[j]@ != codes@[k as int]@),
{
    if codes.len() == 0 {
        return None;
    }
    let ghost views = string_views(codes@);
    let chosen: String = match previous {
        Some(p) if codes_contain(codes, p) => p.to_owned(),
        _ => match named_voice_language(voices, current_voice) {
            Some(c) if codes_contain(codes, c.as_str()) => c,
            _ => codes[0].clone(),
        },
    };
    proof {
        assert(views[0] == codes@[0]@);
    }
    let mut k: usize = 0;
    let mut found = false;
    let mut i: usize = 0;
    while i < codes.len()
        invariant
            0 < codes@.len(),
            i <= codes@.len(),
            views == string_views(codes@),
            k < codes@.len(),
            found ==> codes@[k as int]@ == chosen@ && k < i,
            found ==> forall|j: int| k < j < i ==> codes@[j]@ != chosen@,
            !found ==> forall|j: int| 0 <= j < i ==> codes@[j]@ != chosen@,
        decreases codes@.len() - i,
    {
        if str_equals(codes[i].as_str(), chosen.as_str()) {
            k = i;
            found = true;
        }
        i += 1;
    }
    proof {
        if !found {
            let j = choose|j: int| 0 <= j < views.len() && views[j] == chosen@;
            assert(codes@[j]@ == chosen@);
        }
    }
    Some(k)
}

/// The engine chosen in an engine list by its selection `selection` when the
/// voice lists are refreshed: Sapi5, Sapi4 and Google at 1, 2 and 3, Edge at
/// any other entry, and `fallback` when nothing is selected.
pub open spec fn listed_engine_spec(selection: isize, fallback: TtsEngine) -> TtsEngine {
    if selection < 0 {
        fallback
    } else if selection == 1 {
        TtsEngine::Sapi5
    } else if selection == 2 {
        TtsEngine::Sapi4
    } else if selection == 3 {
        TtsEngine::Google
    } else {
        TtsEngine::Edge
    }
}

/// The engine whose voices the voice lists show (see `listed_engine_spec`).
pub fn listed_engine(selection: isize, fallback: TtsEngine) -> (engine: TtsEngine)
    ensures
        engine == listed_engine_spec(selection, fallback),
{
    if selection < 0 {
        fallback
    } else if selection == 1 {
        TtsEngine::Sapi5
    } else if selection == 2 {
        TtsEngine::Sapi4
    } else if selection == 3 {
        TtsEngine::Google
    } else {
        TtsEngine::Edge
    }
}

/// The engine chosen in an engine list by its selection when the dialog is
/// applied: Edge, Sapi5, Sapi4 and Google at 0 to 3, `fallback` otherwise.
pub open spec fn selected_engine_spec(selection: isize, fallback: TtsEngine) -> TtsEngine {
    if selection == 0 {
        TtsEngine::Edge
    } else if selection == 1 {
        TtsEngine::Sapi5
    } else if selection == 2 {
        TtsEngine::Sapi4
    } else if selection == 3 {
        TtsEngine::Google
    } else {
        fallback
    }
}

/// The engine chosen in an engine list (see `selected_engine_spec`).
pub fn selected_tts_engine(selection: isize, fallback: TtsEngine) -> (engine: TtsEngine)
    ensures
        engine == selected_engine_spec(selection, fallback),
{
    if selection == 0 {
        TtsEngine::Edge
    } else if selection == 1 {
        TtsEngine::Sapi5
    } else if selection == 2 {
        TtsEngine::Sapi4
    } else if selection == 3 {
        TtsEngine::Google
    } else {
        fallback
    }
}

/// The position of an engine in the engine lists.
pub open spec fn engine_position_spec(engine: TtsEngine) -> isize {
    match engine {
        TtsEngine::Edge => 0,
        TtsEngine::Sapi5 => 1,
        TtsEngine::Sapi4 => 2,
        TtsEngine::Google => 3,
    }
}

/// The entry of the engine lists that shows `engine`.
pub fn engine_position(engine: TtsEngine) -> (selection: isize)
    ensures
        selection == engine_position_spec(engine),
{
    match engine {
        TtsEngine::Edge => 0,
        TtsEngine::Sapi5 => 1,
        TtsEngine::Sapi4 => 2,
        TtsEngine::Google => 3,
    }
}

/// Selecting the entry that shows an engine chooses that engine, whatever
/// the fallback, both when the dialog is applied and when the voice lists
/// are refreshed.
pub proof fn lemma_engine_position_round_trip(engine: TtsEngine, fallback: TtsEngine)
    ensures
        selected_engine_spec(engine_position_spec(engine), fallback) == engine,
        listed_engine_spec(engine_position_spec(engine), fallback) == engine,
{
}

/// What the voice section shows and allows, for the primary voice, the
/// dialogue voice and the secondary dialogue voice.
#[derive(Clone, Copy, Debug, PartialEq, Eq, Structural)]
pub struct VoicePanelView {
    /// The "only multilingual" boxes can be ticked (Edge voices only).
    pub multilingual_enabled: bool,
    pub dialogue_multilingual_enabled: bool,
    pub dialogue_secondary_multilingual_enabled: bool,
    /// The voice lists keep multilingual voices only.
    pub filter_multilingual: bool,
    pub dialogue_filter_multilingual: bool,
    pub dialogue_secondary_filter_multilingual: bool,
    /// The voice-language lists are shown (and usable).
    pub show_language: bool,
    pub show_dialogue_language: bool,
    pub show_dialogue_secondary_language: bool,
    /// The button that manages Google voices is shown (and usable).
    pub show_manage_google_voices: bool,
}

/// What the voice section shows for the engines and boxes chosen: a
/// voice-language list only on the voice tab, for Edge, without the
/// "only multilingual" filter, and for the dialogue voices only when they are
/// used; the Google-voices button only on the voice tab for Google.
pub fn voice_panel_view(
    voice_tab_active: bool,
    engine: TtsEngine,
    only_multilingual: bool,
    dialogue_engine: TtsEngine,
    dialogue_only_multilingual: bool,
    secondary_engine: TtsEngine,
    secondary_only_multilingual: bool,
    use_dialogue_voice: bool,
    use_secondary_voice: bool,
) -> (v: VoicePanelView)
    ensures
        v.multilingual_enabled == (engine == TtsEngine::Edge),
        v.dialogue_multilingual_enabled == (dialogue_engine == TtsEngine::Edge),
        v.dialogue_secondary_multilingual_enabled == (secondary_engine == TtsEngine::Edge),
        v.filter_multilingual == (engine == TtsEngine::Edge && only_multilingual),
        v.dialogue_filter_multilingual == (dialogue_engine == TtsEngine::Edge && dialogue_only_multilingual),
        v.dialogue_secondary_filter_multilingual == (secondary_engine == TtsEngine::Edge
            && secondary_only_multilingual),
        v.show_language == (voice_tab_active && engine == TtsEngine::Edge && !only_multilingual),
        v.show_manage_google_voices == (voice_tab_active && engine == TtsEngine::Google),
        v.show_dialogue_language == (voice_tab_active && use_dialogue_voice && dialogue_engine == TtsEngine::Edge
            && !dialogue_only_multilingual),
        v.show_dialogue_secondary_language == (voice_tab_active && use_dialogue_voice && use_secondary_voice
            && secondary_engine == TtsEngine::Edge && !secondary_only_multilingual),
{
    let edge = engine == TtsEngine::Edge;
    let dialogue_edge = dialogue_engine == TtsEngine::Edge;
    let secondary_edge = secondary_engine == TtsEngine::Edge;
    VoicePanelView {
        multilingual_enabled: edge,
        dialogue_multilingual_enabled: dialogue_edge,
        dialogue_secondary_multilingual_enabled: secondary_edge,
        filter_multilingual: edge && only_multilingual,
        dialogue_filter_multilingual: dialogue_edge && dialogue_only_multilingual,
        dialogue_secondary_filter_multilingual: secondary_edge && secondary_only_multilingual,
        show_language: voice_tab_active && edge && !only_multilingual,
        show_dialogue_language: voice_tab_active && use_dialogue_voice && dialogue_edge && !dialogue_only_multilingual,
        show_dialogue_secondary_language: voice_tab_active && use_dialogue_voice && use_secondary_voice
            && secondary_edge && !secondary_only_multilingual,
        show_manage_google_voices: voice_tab_active && engine == TtsEngine::Google,
    }
}

/// One voice list after a refresh: the codes and names of its language list
/// with the entry to select, and the voice list's content.
pub struct VoiceListRefresh {
    pub language_codes: Vec<String>,
    pub language_names: Vec<String>,
    pub language_selection: Option<usize>,
    pub items: VoiceComboItems,
}

/// Refreshes one voice list. With a language list (`show_language`), the
/// languages are those of the voices, sorted and without duplicates, each
/// under its shown name; the language to select is chosen as
/// `voice_language_selection` says, and the voice list keeps the voices of
/// that language. Without a language list, or with no language, every voice
/// passes the language filter. The voice list is as `voice_combo_items`
/// says, with `current_voice` selected.
pub fn refresh_voice_list(
    show_language: bool,
    voices: &[VoiceInfo],
    display_names: &[String],
    previous_code: Option<&str>,
    current_voice: &str,
    filter_multilingual: bool,
    empty_label: &str,
    catalog: &Catalog,
    language: Language,
    labels: &OptionsLabels,
) -> (r: VoiceListRefresh)
    requires
        display_names@.len() == voices@.len(),
    ensures
        !show_language ==> {
            &&& r.language_codes@.len() == 0
            &&& r.language_names@.len() == 0
            &&& r.language_selection is None
            &&& voice_combo_items_spec(
                voices@,
                display_names@,
                current_voice@,
                filter_multilingual,
                None,
                empty_label@,
                r.items,
            )
        },
        show_language ==> {
            &&& strictly_sorted(string_views(r.language_codes@))
            &&& forall|x: Seq<char>| string_views(r.language_codes@).contains(x) <==> voice_codes_contain(voices@, x)
            &&& r.language_names@.len() == r.language_codes@.len()
            &&& forall|i: int|
                0 <= i < r.language_codes@.len() ==> (#[trigger] r.language_names@[i])@ == voice_language_name_spec(
                    *catalog,
                    language,
                    *labels,
                    r.language_codes@[i]@,
                )
            &&& r.language_codes@.len() == 0 ==> r.language_selection is None && voice_combo_items_spec(
                voices@,
                display_names@,
                current_voice@,
                filter_multilingual,
                None,
                empty_label@,
                r.items,
            )
            &&& r.language_codes@.len() > 0 ==> (r.language_selection matches Some(k) && k < r.language_codes@.len()
                && r.language_codes@[k as int]@ == chosen_code_spec(
                string_views(r.language_codes@),
                match previous_code {
                    Some(p) => Some(p@),
                    None => None,
                },
                voices_view(voices@),
                current_voice@,
            ) && voice_combo_items_spec(
                voices@,
                display_names@,
                current_voice@,
                filter_multilingual,
                Some(r.language_codes@[k as int]@),
                empty_label@,
                r.items,
            ))
        },
{
    if !show_language {
        let items = voice_combo_items(voices, display_names, current_voice, filter_multilingual, None, empty_label);
        return VoiceListRefresh {
            language_codes: Vec::new(),
            language_names: Vec::new(),
            language_selection: None,
            items,
        };
    }
    let codes = collect_voice_language_codes(voices);
    let mut names: Vec<String> = Vec::new();
    let mut i: usize = 0;
    while i < codes.len()
        invariant
            i <= codes@.len(),
            names@.len() == i,
            forall|k: int|
                0 <= k < i ==> (#[trigger] names@[k])@ == voice_language_name_spec(
                    *catalog,
                    language,
                    *labels,
                    codes@[k]@,
                ),
        decreases codes@.len() - i,
    {
        names.push(localized_voice_language_name(catalog, language, labels, codes[i].as_str()));
        i += 1;
    }
    let selection = voice_language_selection(codes.as_slice(), previous_code, voices, current_voice);
    let items = match selection {
        Some(k) => voice_combo_items(
            voices,
            display_names,
            current_voice,
            filter_multilingual,
            Some(codes[k].as_str()),
            empty_label,
        ),
        None => voice_combo_items(voices, display_names, current_voice, filter_multilingual, None, empty_label),
    };
    VoiceListRefresh { language_codes: codes, language_names: names, language_selection: selection, items }
}

/// The first position of `c` in `s`, if any.
pub open spec fn char_position(s: Seq<char>, c: char) -> Option<int>
    decreases s.len(),
{
    if s.len() == 0 {
        None
    } else if s[0] == c {
        Some(0)
    } else {
        match char_position(s.drop_first(), c) {
            Some(i) => Some(i + 1),
            None => None,
        }
    }
}

/// The first position of `c` in `v`, if any.
fn find_char(v: &Vec<char>, start: usize, c: char) -> (r: Option<usize>)
    requires
        start <= v@.len(),
    ensures
        match r {
            Some(i) => start <= i < v@.len() && char_position(v@.subrange(start as int, v@.len() as int), c) == Some(
                i - start,
            ),
            None => char_position(v@.subrange(start as int, v@.len() as int), c) is None,
        },
{
    let ghost tail = v@.subrange(start as int, v@.len() as int);
    let mut i: usize = start;
    while i < v.len()
        invariant
            start <= i <= v@.len(),
            tail == v@.subrange(start as int, v@.len() as int),
            char_position(tail, c) == (match char_position(v@.subrange(i as int, v@.len() as int), c) {
                Some(k) => Some(k + (i - start)),
                None => None,
            }),
        decreases v@.len() - i,
    {
        proof {
            assert(v@.subrange(i as int, v@.len() as int).drop_first() =~= v@.subrange(i + 1, v@.len() as int));
        }
        if v[i] == c {
            return Some(i);
        }
        i += 1;
    }
    None
}

/// The number of a SAPI 4 voice from its name `name#number|...`: the text
/// after the first `#`, up to the first `|` after it, read as a whole
/// number; 1 when there is no `#` or the text is not a number.
pub open spec fn sapi4_voice_index_spec(voice: Seq<char>) -> i32 {
    match char_position(voice, '#') {
        Some(h) => {
            let rest = voice.subrange(h + 1, voice.len() as int);
            let digits = match char_position(rest, '|') {
                Some(p) => rest.subrange(0, p),
                None => rest,
            };
            match parse_i32_spec(digits) {
                Some(n) => n,
                None => 1,
            }
        },
        None => 1,
    }
}

/// The number of a SAPI 4 voice from its name.
pub fn sapi4_voice_index(voice: &str) -> (index: i32)
    ensures
        index == sapi4_voice_index_spec(voice@),
{
    let v = chars_of(voice);
    let n = v.len();
    proof {
        assert(v@.subrange(0, n as int) =~= v@);
    }
    match find_char(&v, 0, '#') {
        Some(h) => {
            let ghost rest = v@.subrange(h + 1, n as int);
            let end = match find_char(&v, h + 1, '|') {
                Some(p) => p,
                None => n,
            };
            let mut digits: Vec<char> = Vec::new();
            let mut i: usize = h + 1;
            while i < end
                invariant
                    h + 1 <= i <= end <= n,
                    n == v@.len(),
                    digits@ == v@.subrange(h + 1, i as int),
                decreases end - i,
            {
                digits.push(v[i]);
                i += 1;
                proof {
                    assert(digits@ =~= v@.subrange(h + 1, i as int));
                }
            }
            proof {
                assert(rest.subrange(0, (end - (h + 1)) as int) =~= v@.subrange(h + 1, end as int));
                if end == n {
                    assert(rest =~= v@.subrange(h + 1, end as int));
                }
            }
            match parse_i32_chars(digits.as_slice()) {
                Some(x) => x,
                None => 1,
            }
        },
        None => 1,
    }
}

} // verus!
