//! Languages: their position in the language list, their codes, and the
//! languages of the available voices.

use vstd::prelude::*;

use crate::model::{Language, VoiceInfo};
use crate::order::{insert_sorted_unique, string_views, strictly_sorted};
use crate::text::{
    chars_of, is_whitespace_spec, lower_seq, str_equals, string_from_chars, trim, trim_chars,
    trim_spec, to_ascii_lowercase,
};

verus! {

/// The position of a language in the language list of the dialog.
pub open spec fn language_index_spec(language: Language) -> nat {
    match language {
        Language::Italian => 0,
        Language::English => 1,
        Language::Spanish => 2,
        Language::Portuguese => 3,
        Language::PortugueseBrazilian => 4,
        Language::Swedish => 5,
        Language::Vietnamese => 6,
        Language::Czech => 7,
        Language::Polish => 8,
        Language::French => 9,
        Language::Serbian => 10,
        Language::Ukrainian => 11,
        Language::Lithuanian => 12,
        Language::Russian => 13,
        Language::Chinese => 14,
        Language::Hindi => 15,
        Language::German => 16,
    }
}

/// The language at position `index` of the language list, if there is one.
pub open spec fn language_at_spec(index: int) -> Option<Language> {
    if index == 0 {
        Some(Language::Italian)
    } else if index == 1 {
        Some(Language::English)
    } else if index == 2 {
        Some(Language::Spanish)
    } else if index == 3 {
        Some(Language::Portuguese)
    } else if index == 4 {
        Some(Language::PortugueseBrazilian)
    } else if index == 5 {
        Some(Language::Swedish)
    } else if index == 6 {
        Some(Language::Vietnamese)
    } else if index == 7 {
        Some(Language::Czech)
    } else if index == 8 {
        Some(Language::Polish)
    } else if index == 9 {
        Some(Language::French)
    } else if index == 10 {
        Some(Language::Serbian)
    } else if index == 11 {
        Some(Language::Ukrainian)
    } else if index == 12 {
        Some(Language::Lithuanian)
    } else if index == 13 {
        Some(Language::Russian)
    } else if index == 14 {
        Some(Language::Chinese)
    } else if index == 15 {
        Some(Language::Hindi)
    } else if index == 16 {
        Some(Language::German)
    } else {
        None
    }
}

/// The number of languages in the language list.
pub open spec fn language_count_spec() -> nat {
    17
}

/// The position of `language` in the language list.
pub fn sonarpad_language_index(language: Language) -> (i: usize)
    ensures
        i == language_index_spec(language),
        i < language_count_spec(),
{
    match language {
        Language::Italian => 0,
        Language::English => 1,
        Language::Spanish => 2,
        Language::Portuguese => 3,
        Language::PortugueseBrazilian => 4,
        Language::Swedish => 5,
        Language::Vietnamese => 6,
        Language::Czech => 7,
        Language::Polish => 8,
        Language::French => 9,
        Language::Serbian => 10,
        Language::Ukrainian => 11,
        Language::Lithuanian => 12,
        Language::Russian => 13,
        Language::Chinese => 14,
        Language::Hindi => 15,
        Language::German => 16,
    }
}

/// The language at position `index` of the language list; `None` outside it.
pub fn sonarpad_language_from_index(index: isize) -> (r: Option<Language>)
    ensures
        r == language_at_spec(index as int),
        r is Some <==> 0 <= index < language_count_spec(),
{
    match index {
        0 => Some(Language::Italian),
        1 => Some(Language::English),
        2 => Some(Language::Spanish),
        3 => Some(Language::Portuguese),
        4 => Some(Language::PortugueseBrazilian),
        5 => Some(Language::Swedish),
        6 => Some(Language::Vietnamese),
        7 => Some(Language::Czech),
        8 => Some(Language::Polish),
        9 => Some(Language::French),
        10 => Some(Language::Serbian),
        11 => Some(Language::Ukrainian),
        12 => Some(Language::Lithuanian),
        13 => Some(Language::Russian),
        14 => Some(Language::Chinese),
        15 => Some(Language::Hindi),
        16 => Some(Language::German),
        _ => None,
    }
}

/// Reading back the language at a language's own position gives that language.
pub proof fn lemma_language_index_round_trip(language: Language)
    ensures
        language_at_spec(language_index_spec(language) as int) == Some(language),
        language_index_spec(language) < language_count_spec(),
{
}

/// Every position of the list holds a language whose position is that one.
pub proof fn lemma_language_at_round_trip(index: int)
    requires
        0 <= index < language_count_spec(),
    ensures
        language_at_spec(index) is Some,
        language_index_spec(language_at_spec(index)->0) == index,
{
}

/// The code of a language (`it`, `en`, ..., `pt-BR`).
pub open spec fn language_code_spec(language: Language) -> Seq<char> {
    match language {
        Language::Italian => "it"@,
        Language::English => "en"@,
        Language::German => "de"@,
        Language::Spanish => "es"@,
        Language::Portuguese => "pt"@,
        Language::PortugueseBrazilian => "pt-BR"@,
        Language::Swedish => "sv"@,
        Language::Vietnamese => "vi"@,
        Language::Czech => "cs"@,
        Language::Polish => "pl"@,
        Language::French => "fr"@,
        Language::Serbian => "sr"@,
        Language::Ukrainian => "uk"@,
        Language::Lithuanian => "lt"@,
        Language::Russian => "ru"@,
        Language::Chinese => "zh"@,
        Language::Hindi => "hi"@,
    }
}

/// The code of `language`.
pub fn sonarpad_language_code(language: Language) -> (code: &'static str)
    ensures
        code@ == language_code_spec(language),
{
    match language {
        Language::Italian => "it",
        Language::English => "en",
        Language::German => "de",
        Language::Spanish => "es",
        Language::Portuguese => "pt",
        Language::PortugueseBrazilian => "pt-BR",
        Language::Swedish => "sv",
        Language::Vietnamese => "vi",
        Language::Czech => "cs",
        Language::Polish => "pl",
        Language::French => "fr",
        Language::Serbian => "sr",
        Language::Ukrainian => "uk",
        Language::Lithuanian => "lt",
        Language::Russian => "ru",
        Language::Chinese => "zh",
        Language::Hindi => "hi",
    }
}

/// The language of a (trimmed) code; `pt-br` is accepted beside `pt-BR`.
pub open spec fn language_of_code_spec(code: Seq<char>) -> Option<Language> {
    if code == "it"@ {
        Some(Language::Italian)
    } else if code == "en"@ {
        Some(Language::English)
    } else if code == "de"@ {
        Some(Language::German)
    } else if code == "es"@ {
        Some(Language::Spanish)
    } else if code == "pt"@ {
        Some(Language::Portuguese)
    } else if code == "pt-BR"@ || code == "pt-br"@ {
        Some(Language::PortugueseBrazilian)
    } else if code == "sv"@ {
        Some(Language::Swedish)
    } else if code == "vi"@ {
        Some(Language::Vietnamese)
    } else if code == "cs"@ {
        Some(Language::Czech)
    } else if code == "pl"@ {
        Some(Language::Polish)
    } else if code == "fr"@ {
        Some(Language::French)
    } else if code == "sr"@ {
        Some(Language::Serbian)
    } else if code == "uk"@ {
        Some(Language::Ukrainian)
    } else if code == "lt"@ {
        Some(Language::Lithuanian)
    } else if code == "ru"@ {
        Some(Language::Russian)
    } else if code == "zh"@ {
        Some(Language::Chinese)
    } else if code == "hi"@ {
        Some(Language::Hindi)
    } else {
        None
    }
}

/// The language of the code `code`, white space around it ignored.
pub fn whisper_audio_language_from_code(code: &str) -> (r: Option<Language>)
    ensures
        r == language_of_code_spec(trim_spec(code@)),
{
    let t = trim(code);
    let c = t.as_str();
    if str_equals(c, "it") {
        Some(Language::Italian)
    } else if str_equals(c, "en") {
        Some(Language::English)
    } else if str_equals(c, "de") {
        Some(Language::German)
    } else if str_equals(c, "es") {
        Some(Language::Spanish)
    } else if str_equals(c, "pt") {
        Some(Language::Portuguese)
    } else if str_equals(c, "pt-BR") || str_equals(c, "pt-br") {
        Some(Language::PortugueseBrazilian)
    } else if str_equals(c, "sv") {
        Some(Language::Swedish)
    } else if str_equals(c, "vi") {
        Some(Language::Vietnamese)
    } else if str_equals(c, "cs") {
        Some(Language::Czech)
    } else if str_equals(c, "pl") {
        Some(Language::Polish)
    } else if str_equals(c, "fr") {
        Some(Language::French)
    } else if str_equals(c, "sr") {
        Some(Language::Serbian)
    } else if str_equals(c, "uk") {
        Some(Language::Ukrainian)
    } else if str_equals(c, "lt") {
        Some(Language::Lithuanian)
    } else if str_equals(c, "ru") {
        Some(Language::Russian)
    } else if str_equals(c, "zh") {
        Some(Language::Chinese)
    } else if str_equals(c, "hi") {
        Some(Language::Hindi)
    } else {
        None
    }
}

/// A string whose first and last characters are not white space is its own trim.
pub proof fn lemma_trim_no_outer_space(s: Seq<char>)
    requires
        s.len() > 0,
        !is_whitespace_spec(s[0]),
        !is_whitespace_spec(s.last()),
    ensures
        trim_spec(s) == s,
{
}

/// The code of a language reads back as that language.
pub proof fn lemma_language_code_round_trip(language: Language)
    ensures
        language_of_code_spec(trim_spec(language_code_spec(language))) == Some(language),
{
    reveal_strlit("it");
    reveal_strlit("en");
    reveal_strlit("de");
    reveal_strlit("es");
    reveal_strlit("pt");
    reveal_strlit("pt-BR");
    reveal_strlit("pt-br");
    reveal_strlit("sv");
    reveal_strlit("vi");
    reveal_strlit("cs");
    reveal_strlit("pl");
    reveal_strlit("fr");
    reveal_strlit("sr");
    reveal_strlit("uk");
    reveal_strlit("lt");
    reveal_strlit("ru");
    reveal_strlit("zh");
    reveal_strlit("hi");
    let c = language_code_spec(language);
    lemma_trim_no_outer_space(c);
}

/// The part of a locale before its first `-` or `_`.
pub open spec fn locale_head_spec(s: Seq<char>) -> Seq<char>
    decreases s.len(),
{
    if s.len() == 0 || s[0] == '-' || s[0] == '_' {
        Seq::empty()
    } else {
        seq![s[0]] + locale_head_spec(s.drop_first())
    }
}

/// The language code of a voice locale: the lower-cased, trimmed part before
/// the first `-` or `_`, when it is not empty.
pub open spec fn voice_locale_code_spec(locale: Seq<char>) -> Option<Seq<char>> {
    let base = trim_spec(locale_head_spec(locale));
    if base.len() == 0 {
        None
    } else {
        Some(lower_seq(base))
    }
}

/// The language code of the voice locale `locale` (`en-US` gives `en`).
pub fn voice_locale_language_code(locale: &str) -> (r: Option<String>)
    ensures
        match r {
            Some(code) => voice_locale_code_spec(locale@) == Some(code@),
            None => voice_locale_code_spec(locale@) is None,
        },
{
    let v = chars_of(locale);
    let mut head: Vec<char> = Vec::new();
    let mut i: usize = 0;
    assert(v@.subrange(0, v@.len() as int) =~= v@);
    while i < v.len() && v[i] != '-' && v[i] != '_'
        invariant
            v@ == locale@,
            i <= v@.len(),
            locale_head_spec(locale@) == head@ + locale_head_spec(
                v@.subrange(i as int, v@.len() as int),
            ),
        decreases v@.len() - i,
    {
        proof {
            let rest = v@.subrange(i as int, v@.len() as int);
            assert(rest.drop_first() =~= v@.subrange(i + 1, v@.len() as int));
            assert(rest[0] == v@[i as int]);
            assert(head@ + (seq![v@[i as int]] + locale_head_spec(rest.drop_first())) =~= head@.push(
                v@[i as int],
            ) + locale_head_spec(rest.drop_first()));
        }
        head.push(v[i]);
        i += 1;
    }
    proof {
        let rest = v@.subrange(i as int, v@.len() as int);
        if i < v@.len() {
            assert(rest[0] == v@[i as int]);
        }
        assert(locale_head_spec(rest) =~= Seq::<char>::empty());
        assert(head@ + Seq::<char>::empty() =~= head@);
    }
    let base = trim_chars(head.as_slice());
    if base.len() == 0 {
        return None;
    }
    let s = string_from_chars(base.as_slice());
    Some(to_ascii_lowercase(s.as_str()))
}

/// The language codes that occur among the voices.
pub open spec fn voice_codes_contain(voices: Seq<VoiceInfo>, code: Seq<char>) -> bool {
    exists|i: int| 0 <= i < voices.len() && voice_locale_code_spec(#[trigger] voices[i].locale@) == Some(code)
}

/// The language codes of `voices`, sorted and without duplicates.
pub fn collect_voice_language_codes(voices: &[VoiceInfo]) -> (codes: Vec<String>)
    ensures
        strictly_sorted(string_views(codes@)),
        forall|x: Seq<char>|
            string_views(codes@).contains(x) <==> voice_codes_contain(voices@, x),
{
    let mut codes: Vec<String> = Vec::new();
    let mut i: usize = 0;
    while i < voices.len()
        invariant
            i <= voices@.len(),
            strictly_sorted(string_views(codes@)),
            forall|x: Seq<char>|
                string_views(codes@).contains(x) <==> voice_codes_contain(
                    voices@.subrange(0, i as int),
                    x,
                ),
        decreases voices@.len() - i,
    {
        let code = voice_locale_language_code(voices[i].locale.as_str());
        let ghost prev = voices@.subrange(0, i as int);
        let ghost next = voices@.subrange(0, i + 1);
        proof {
            assert forall|x: Seq<char>| voice_codes_contain(prev, x) implies voice_codes_contain(next, x) by {
                let k = choose|k: int| 0 <= k < prev.len() && voice_locale_code_spec(#[trigger] prev[k].locale@) == Some(x);
                assert(next[k] == prev[k]);
            }
        }
        match code {
            Some(c) => {
                let ghost cv = c@;
                insert_sorted_unique(&mut codes, c);
                proof {
                    assert(next[i as int] == voices@[i as int]);
                    assert forall|x: Seq<char>|
                        string_views(codes@).contains(x) <==> voice_codes_contain(next, x) by {
                        if voice_codes_contain(next, x) {
                            let k = choose|k: int| 0 <= k < next.len() && voice_locale_code_spec(#[trigger] next[k].locale@) == Some(x);
                            if k < i {
                                assert(prev[k] == next[k]);
                            }
                        }
                    }
                }
            },
            None => {
                proof {
                    assert forall|x: Seq<char>|
                        string_views(codes@).contains(x) <==> voice_codes_contain(next, x) by {
                        if voice_codes_contain(next, x) {
                            let k = choose|k: int| 0 <= k < next.len() && voice_locale_code_spec(#[trigger] next[k].locale@) == Some(x);
                            if k < i {
                                assert(prev[k] == next[k]);
                            } else {
                                assert(next[k] == voices@[i as int]);
                            }
                        }
                    }
                }
            },
        }
        i += 1;
    }
    proof {
        assert(voices@.subrange(0, voices@.len() as int) =~= voices@);
    }
    codes
}

} // verus!
