//! Voice profiles: the names given to new and renamed profiles, and the
//! changes that the dialog's add, rename and delete buttons make to the list.

use vstd::prelude::*;
use vstd::relations::injective_on;
use vstd::set_lib::{lemma_int_range, lemma_len_subset, lemma_map_size, set_int_range};

use crate::model::{same_voice_choices, DEFAULT_VOICE_PROFILE_NAME, TtsEngine, TtsTuning, VoiceProfile};
use crate::voices::{engine_position, engine_position_spec};
use crate::text::{
    lemma_eq_ignore_case_symmetric, lemma_eq_ignore_case_transitive, trim,
    chars_eq_ignore_ascii_case, chars_of, decimal_spec, eq_ignore_ascii_case, eq_ignore_ascii_case_spec,
    first_match_ignoring_case, is_blank,
    lemma_decimal_injective, lemma_lower_concat, lemma_lower_decimal, lower_seq, push_decimal,
    string_from_chars, trim_chars, trim_spec,
};

verus! {

/// The names of the profiles.
pub open spec fn profile_names(profiles: Seq<VoiceProfile>) -> Seq<Seq<char>> {
    profiles.map_values(|p: VoiceProfile| p.name@)
}

/// Some profile other than the one at `skip` has `name`, ignoring ASCII case.
pub open spec fn name_taken(names: Seq<Seq<char>>, skip: int, name: Seq<char>) -> bool {
    exists|i: int| 0 <= i < names.len() && i != skip && eq_ignore_ascii_case_spec(#[trigger] names[i], name)
}

/// `prefix` followed by the decimal representation of `n`.
pub open spec fn numbered_name(prefix: Seq<char>, n: nat) -> Seq<char> {
    prefix + decimal_spec(n)
}

/// `name` is `prefix` followed by the smallest number from `lo` on whose
/// name is not taken.
pub open spec fn first_free_numbered(
    names: Seq<Seq<char>>,
    skip: int,
    prefix: Seq<char>,
    lo: nat,
    name: Seq<char>,
) -> bool {
    exists|n: nat|
        lo <= n && name == numbered_name(prefix, n) && !name_taken(names, skip, numbered_name(prefix, n))
            && forall|m: nat| lo <= m < n ==> name_taken(names, skip, #[trigger] numbered_name(prefix, m))
}

/// Names that differ only in their number are different, even ignoring case.
proof fn lemma_numbered_names_distinct(prefix: Seq<char>, a: nat, b: nat)
    requires
        eq_ignore_ascii_case_spec(numbered_name(prefix, a), numbered_name(prefix, b)),
    ensures
        a == b,
{
    lemma_lower_concat(prefix, decimal_spec(a));
    lemma_lower_concat(prefix, decimal_spec(b));
    lemma_lower_decimal(a);
    lemma_lower_decimal(b);
    let la = lower_seq(prefix) + decimal_spec(a);
    let lb = lower_seq(prefix) + decimal_spec(b);
    assert(la == lb);
    assert(la.subrange(prefix.len() as int, la.len() as int) =~= decimal_spec(a));
    assert(lb.subrange(prefix.len() as int, lb.len() as int) =~= decimal_spec(b));
    lemma_decimal_injective(a, b);
}

/// More numbered names than profiles cannot all be taken.
pub proof fn lemma_numbered_names_pigeonhole(
    names: Seq<Seq<char>>,
    skip: int,
    prefix: Seq<char>,
    lo: int,
    hi: int,
)
    requires
        0 <= lo <= hi,
        hi - lo > names.len(),
    ensures
        exists|m: int| lo <= m < hi && !name_taken(names, skip, #[trigger] numbered_name(prefix, m as nat)),
{
    if forall|m: int| lo <= m < hi ==> name_taken(names, skip, #[trigger] numbered_name(prefix, m as nat)) {
        lemma_all_taken_impossible(names, skip, prefix, lo, hi);
        lemma_int_range(lo, hi);
    }
}

/// The step of the argument above: an injection of the numbers into the
/// profiles would need more profiles than there are.
proof fn lemma_all_taken_impossible(
    names: Seq<Seq<char>>,
    skip: int,
    prefix: Seq<char>,
    lo: int,
    hi: int,
)
    requires
        0 <= lo <= hi,
        hi - lo > names.len(),
        forall|m: int| lo <= m < hi ==> name_taken(names, skip, #[trigger] numbered_name(prefix, m as nat)),
    ensures
        set_int_range(lo, hi).len() <= names.len(),
{
    let dom = set_int_range(lo, hi);
    lemma_int_range(lo, hi);
    let f = |m: int|
        choose|i: int|
            0 <= i < names.len() && i != skip && eq_ignore_ascii_case_spec(
                names[i],
                numbered_name(prefix, m as nat),
            );
    assert forall|m: int| #[trigger] dom.contains(m) implies 0 <= f(m) < names.len() && f(m) != skip
        && eq_ignore_ascii_case_spec(names[f(m)], numbered_name(prefix, m as nat)) by {
        assert(name_taken(names, skip, numbered_name(prefix, m as nat)));
    }
    assert(injective_on(f, dom)) by {
        assert forall|a: int, b: int| dom.contains(a) && dom.contains(b) && #[trigger] f(a) == #[trigger] f(b) implies a == b by {
            let i = f(a);
            assert(eq_ignore_ascii_case_spec(names[i], numbered_name(prefix, a as nat)));
            assert(eq_ignore_ascii_case_spec(names[i], numbered_name(prefix, b as nat)));
            lemma_numbered_names_distinct(prefix, a as nat, b as nat);
        }
    }
    let img = dom.map(f);
    lemma_map_size(dom, img, f);
    let range = set_int_range(0, names.len() as int);
    lemma_int_range(0, names.len() as int);
    assert(img.subset_of(range)) by {
        assert forall|i: int| img.contains(i) implies range.contains(i) by {
            let m = choose|m: int| dom.contains(m) && f(m) == i;
        }
    }
    lemma_len_subset(img, range);
}

/// Whether some profile other than the one at `skip` is named `name`
/// (ignoring ASCII case).
fn name_taken_exec(profiles: &[VoiceProfile], skip: Option<usize>, name: &[char]) -> (r: bool)
    ensures
        r == name_taken(
            profile_names(profiles@),
            match skip {
                Some(s) => s as int,
                None => -1,
            },
            name@,
        ),
{
    let ghost names = profile_names(profiles@);
    let ghost sk: int = match skip {
        Some(s) => s as int,
        None => -1,
    };
    let mut i: usize = 0;
    while i < profiles.len()
        invariant
            i <= profiles@.len(),
            names == profile_names(profiles@),
            sk == (match skip {
                Some(s) => s as int,
                None => -1,
            }),
            forall|j: int| 0 <= j < i && j != sk ==> !eq_ignore_ascii_case_spec(#[trigger] names[j], name@),
        decreases profiles@.len() - i,
    {
        let skipped = match skip {
            Some(s) => s == i,
            None => false,
        };
        if !skipped {
            let c = chars_of(profiles[i].name.as_str());
            if chars_eq_ignore_ascii_case(c.as_slice(), name) {
                proof {
                    assert(names[i as int] == profiles@[i as int].name@);
                }
                return true;
            }
        }
        proof {
            assert(names[i as int] == profiles@[i as int].name@);
        }
        i += 1;
    }
    false
}

/// The prefix of the names of new profiles.
pub open spec fn new_profile_prefix() -> Seq<char> {
    "Profilo "@
}

/// The first free name `Profilo 1`, `Profilo 2`, ... for a new profile.
pub fn next_voice_profile_name(profiles: &[VoiceProfile]) -> (name: String)
    ensures
        first_free_numbered(profile_names(profiles@), -1, new_profile_prefix(), 1, name@),
{
    let ghost names = profile_names(profiles@);
    let prefix = chars_of("Profilo ");
    let len = profiles.len() as u128;
    let mut n: u128 = 1;
    while n <= len + 1
        invariant
            1 <= n <= len + 2,
            len == profiles@.len(),
            len <= usize::MAX,
            prefix@ == new_profile_prefix(),
            names == profile_names(profiles@),
            forall|m: nat| 1 <= m < n ==> name_taken(names, -1, #[trigger] numbered_name(new_profile_prefix(), m)),
        decreases len + 2 - n,
    {
        let mut cand = prefix.clone();
        push_decimal(&mut cand, n);
        if !name_taken_exec(profiles, None, cand.as_slice()) {
            let r = string_from_chars(cand.as_slice());
            proof {
                assert(r@ == numbered_name(new_profile_prefix(), n as nat));
                assert(first_free_numbered(names, -1, new_profile_prefix(), 1, r@));
            }
            return r;
        }
        n += 1;
    }
    proof {
        lemma_numbered_names_pigeonhole(names, -1, new_profile_prefix(), 1, len + 2);
        let m = choose|m: int| 1 <= m < len + 2 && !name_taken(names, -1, #[trigger] numbered_name(new_profile_prefix(), m as nat));
        assert(name_taken(names, -1, numbered_name(new_profile_prefix(), m as nat)));
    }
    String::new()
}

/// The name a profile gets when renamed to `base`: the trimmed request when
/// no other profile has it (ignoring case), otherwise the request followed by
/// the first free number from 2 on; empty when the request is blank.
pub open spec fn rename_result_spec(base: Seq<char>, names: Seq<Seq<char>>, skip: int, name: Seq<char>) -> bool {
    let requested = trim_spec(base);
    if requested.len() == 0 {
        name == Seq::<char>::empty()
    } else if !name_taken(names, skip, requested) {
        name == requested
    } else {
        first_free_numbered(names, skip, requested + " "@, 2, name)
    }
}

/// The name that the profile at `skip_index` gets when renamed to `base_name`.
pub fn unique_voice_profile_name_for_rename(
    base_name: &str,
    profiles: &[VoiceProfile],
    skip_index: usize,
) -> (name: String)
    ensures
        rename_result_spec(base_name@, profile_names(profiles@), skip_index as int, name@),
{
    let ghost names = profile_names(profiles@);
    let v = chars_of(base_name);
    let requested = trim_chars(v.as_slice());
    if requested.len() == 0 {
        return String::new();
    }
    if !name_taken_exec(profiles, Some(skip_index), requested.as_slice()) {
        return string_from_chars(requested.as_slice());
    }
    let ghost req = requested@;
    assert(name_taken(names, skip_index as int, req));
    let mut prefix = requested.clone();
    prefix.push(' ');
    let ghost pre = requested@ + " "@;
    proof {
        reveal_strlit(" ");
        assert(prefix@ =~= pre);
    }
    let len = profiles.len() as u128;
    let mut n: u128 = 2;
    while n <= len + 2
        invariant
            2 <= n <= len + 3,
            len == profiles@.len(),
            len <= usize::MAX,
            prefix@ == pre,
            names == profile_names(profiles@),
            req == trim_spec(base_name@),
            req.len() > 0,
            name_taken(names, skip_index as int, req),
            pre == req + " "@,
            forall|m: nat| 2 <= m < n ==> name_taken(names, skip_index as int, #[trigger] numbered_name(pre, m)),
        decreases len + 3 - n,
    {
        let mut cand = prefix.clone();
        push_decimal(&mut cand, n);
        if !name_taken_exec(profiles, Some(skip_index), cand.as_slice()) {
            let r = string_from_chars(cand.as_slice());
            proof {
                assert(r@ == numbered_name(pre, n as nat));
                assert(first_free_numbered(names, skip_index as int, pre, 2, r@));
                assert(trim_spec(base_name@) == req);
                assert(name_taken(names, skip_index as int, req));
                assert(pre == req + " "@);
            }
            return r;
        }
        n += 1;
    }
    proof {
        lemma_numbered_names_pigeonhole(names, skip_index as int, pre, 2, len + 3);
        let m = choose|m: int| 2 <= m < len + 3 && !name_taken(names, skip_index as int, #[trigger] numbered_name(pre, m as nat));
        assert(name_taken(names, skip_index as int, numbered_name(pre, m as nat)));
    }
    String::new()
}

/// The tuning that `profile` holds for `engine`.
pub open spec fn profile_tuning_spec(profile: VoiceProfile, engine: TtsEngine) -> TtsTuning {
    match engine {
        TtsEngine::Edge => profile.edge_tts_tuning,
        TtsEngine::Google => profile.google_tts_tuning,
        TtsEngine::Sapi5 => profile.sapi5_tts_tuning,
        TtsEngine::Sapi4 => profile.sapi4_tts_tuning,
    }
}

/// The tuning that `profile` holds for `engine`.
pub fn voice_profile_tuning_for_engine(profile: &VoiceProfile, engine: TtsEngine) -> (t: TtsTuning)
    ensures
        t == profile_tuning_spec(*profile, engine),
{
    match engine {
        TtsEngine::Edge => profile.edge_tts_tuning,
        TtsEngine::Google => profile.google_tts_tuning,
        TtsEngine::Sapi5 => profile.sapi5_tts_tuning,
        TtsEngine::Sapi4 => profile.sapi4_tts_tuning,
    }
}

/// The tuning of a profile for an engine is the tuning the profile stores
/// for that engine.
pub proof fn lemma_profile_tuning_is_own_field(profile: VoiceProfile)
    ensures
        profile_tuning_spec(profile, TtsEngine::Edge) == profile.edge_tts_tuning,
        profile_tuning_spec(profile, TtsEngine::Google) == profile.google_tts_tuning,
        profile_tuning_spec(profile, TtsEngine::Sapi5) == profile.sapi5_tts_tuning,
        profile_tuning_spec(profile, TtsEngine::Sapi4) == profile.sapi4_tts_tuning,
{
}

/// Whether `name` is the name of the built-in default profile (ignoring case).
pub open spec fn is_default_profile_name(name: Seq<char>) -> bool {
    eq_ignore_ascii_case_spec(name, DEFAULT_VOICE_PROFILE_NAME@)
}

/// No two profiles have the same name, ignoring ASCII case.
pub open spec fn names_distinct(names: Seq<Seq<char>>) -> bool {
    forall|i: int, j: int|
        0 <= i < names.len() && 0 <= j < names.len() && i != j ==> !eq_ignore_ascii_case_spec(
            #[trigger] names[i],
            #[trigger] names[j],
        )
}

/// Some profile is named `name`, ignoring ASCII case.
pub open spec fn has_profile_named(names: Seq<Seq<char>>, name: Seq<char>) -> bool {
    name_taken(names, -1, name)
}

/// Whether the profile named `name` is the built-in default profile.
pub fn is_default_voice_profile_name(name: &str) -> (r: bool)
    ensures
        r == is_default_profile_name(name@),
{
    eq_ignore_ascii_case(name, DEFAULT_VOICE_PROFILE_NAME)
}

/// The entry of the profile list to select for the active profile: the last
/// profile with its name (ignoring case), or the first entry when none has it.
pub fn profile_combo_selection(profiles: &[VoiceProfile], active: &str) -> (index: usize)
    ensures
        has_profile_named(profile_names(profiles@), active@) ==> {
            &&& index < profiles@.len()
            &&& eq_ignore_ascii_case_spec(profile_names(profiles@)[index as int], active@)
            &&& forall|j: int|
                index < j < profiles@.len() ==> !eq_ignore_ascii_case_spec(
                    #[trigger] profile_names(profiles@)[j],
                    active@,
                )
        },
        !has_profile_named(profile_names(profiles@), active@) ==> index == 0,
{
    let ghost names = profile_names(profiles@);
    let a = chars_of(active);
    let mut selected: usize = 0;
    let mut found = false;
    let mut i: usize = 0;
    while i < profiles.len()
        invariant
            i <= profiles@.len(),
            names == profile_names(profiles@),
            a@ == active@,
            found ==> selected < i && eq_ignore_ascii_case_spec(names[selected as int], active@),
            found ==> forall|j: int| selected < j < i ==> !eq_ignore_ascii_case_spec(#[trigger] names[j], active@),
            !found ==> selected == 0 && forall|j: int| 0 <= j < i ==> !eq_ignore_ascii_case_spec(#[trigger] names[j], active@),
        decreases profiles@.len() - i,
    {
        let c = chars_of(profiles[i].name.as_str());
        proof {
            assert(names[i as int] == profiles@[i as int].name@);
        }
        if chars_eq_ignore_ascii_case(c.as_slice(), a.as_slice()) {
            selected = i;
            found = true;
        }
        i += 1;
    }
    selected
}

/// The name of the profile at `selection` of the list; the default profile's
/// name when nothing valid is selected.
pub open spec fn selected_profile_name_spec(names: Seq<Seq<char>>, selection: int) -> Seq<char> {
    if 0 <= selection < names.len() {
        names[selection]
    } else {
        DEFAULT_VOICE_PROFILE_NAME@
    }
}

/// Whether the rename and delete buttons are hidden: they are when the
/// selected profile is the default one.
pub fn voice_profile_actions_hidden(profiles: &[VoiceProfile], selection: isize) -> (hidden: bool)
    ensures
        hidden == is_default_profile_name(selected_profile_name_spec(profile_names(profiles@), selection as int)),
{
    if selection >= 0 && (selection as usize) < profiles.len() {
        proof {
            assert(profile_names(profiles@)[selection as int] == profiles@[selection as int].name@);
        }
        is_default_voice_profile_name(profiles[selection as usize].name.as_str())
    } else {
        is_default_voice_profile_name(DEFAULT_VOICE_PROFILE_NAME)
    }
}

/// `after` is `before` with the name of the profile at `index` replaced.
pub open spec fn renamed_at(before: Seq<VoiceProfile>, after: Seq<VoiceProfile>, index: int, name: Seq<char>) -> bool {
    &&& after.len() == before.len()
    &&& after[index].name@ == name
    &&& same_voice_choices(after[index], before[index])
    &&& forall|j: int| 0 <= j < before.len() && j != index ==> after[j] == before[j]
}

/// Renames the profile at `index` to `requested` (made unique, see
/// `rename_result_spec`). Nothing changes when `index` is out of range, the
/// profile is the default one, or the request is blank. The active profile
/// follows the rename. Returns whether the profile was renamed.
pub fn rename_voice_profile(
    profiles: &mut Vec<VoiceProfile>,
    active: &mut String,
    index: usize,
    requested: &str,
) -> (renamed: bool)
    ensures
        renamed == (index < old(profiles)@.len() && !is_default_profile_name(
            old(profiles)@[index as int].name@,
        ) && trim_spec(requested@).len() > 0),
        !renamed ==> final(profiles)@ == old(profiles)@ && final(active)@ == old(active)@,
        renamed ==> {
            let new_name = final(profiles)@[index as int].name@;
            &&& rename_result_spec(requested@, profile_names(old(profiles)@), index as int, new_name)
            &&& renamed_at(old(profiles)@, final(profiles)@, index as int, new_name)
            &&& final(active)@ == (if eq_ignore_ascii_case_spec(old(active)@, old(profiles)@[index as int].name@) {
                new_name
            } else {
                old(active)@
            })
        },
{
    if index >= profiles.len() {
        return false;
    }
    if is_default_voice_profile_name(profiles[index].name.as_str()) {
        return false;
    }
    let v = chars_of(requested);
    let t = trim_chars(v.as_slice());
    if t.len() == 0 {
        return false;
    }
    let new_name = unique_voice_profile_name_for_rename(requested, profiles.as_slice(), index);
    proof {
        let names = profile_names(old(profiles)@);
        assert(trim_spec(requested@).len() > 0);
        lemma_rename_result_not_empty(requested@, names, index as int, new_name@);
    }
    let follow = eq_ignore_ascii_case(active.as_str(), profiles[index].name.as_str());
    let mut p = profiles.remove(index);
    p.name = new_name.clone();
    profiles.insert(index, p);
    if follow {
        *active = new_name;
    }
    proof {
        assert forall|j: int| 0 <= j < old(profiles)@.len() && j != index implies final(profiles)@[j] == old(profiles)@[j] by {
        }
    }
    true
}

/// A rename of a non-blank request never gives an empty name.
proof fn lemma_rename_result_not_empty(base: Seq<char>, names: Seq<Seq<char>>, skip: int, name: Seq<char>)
    requires
        trim_spec(base).len() > 0,
        rename_result_spec(base, names, skip, name),
    ensures
        name.len() > 0,
{
    let requested = trim_spec(base);
    if name_taken(names, skip, requested) {
        let n = choose|n: nat|
            2 <= n && name == numbered_name(requested + " "@, n) && !name_taken(names, skip, numbered_name(requested + " "@, n))
                && forall|m: nat| 2 <= m < n ==> name_taken(names, skip, #[trigger] numbered_name(requested + " "@, m));
        assert(name.len() >= requested.len());
    }
}

/// Adds a profile made from `template` under the first free name
/// `Profilo n` and makes it the active profile. Returns the new name.
pub fn add_voice_profile(
    profiles: &mut Vec<VoiceProfile>,
    active: &mut String,
    template: VoiceProfile,
) -> (name: String)
    ensures
        first_free_numbered(profile_names(old(profiles)@), -1, new_profile_prefix(), 1, name@),
        final(profiles)@.len() == old(profiles)@.len() + 1,
        final(profiles)@.subrange(0, old(profiles)@.len() as int) == old(profiles)@,
        final(profiles)@.last().name@ == name@,
        same_voice_choices(final(profiles)@.last(), template),
        final(active)@ == name@,
{
    let name = next_voice_profile_name(profiles.as_slice());
    let mut profile = template;
    profile.name = name.clone();
    *active = name.clone();
    profiles.push(profile);
    proof {
        assert(final(profiles)@.subrange(0, old(profiles)@.len() as int) =~= old(profiles)@);
    }
    name
}

/// The name of the profile at `selection` when it may be deleted: a valid
/// selection that is not the default profile.
pub fn deletable_voice_profile_name(profiles: &[VoiceProfile], selection: isize) -> (r: Option<String>)
    ensures
        match r {
            Some(name) => 0 <= selection < profiles@.len() && name@ == profiles@[selection as int].name@
                && !is_default_profile_name(name@),
            None => !(0 <= selection < profiles@.len()) || is_default_profile_name(
                profiles@[selection as int].name@,
            ),
        },
{
    if selection < 0 || selection as usize >= profiles.len() {
        return None;
    }
    let idx = selection as usize;
    if is_default_voice_profile_name(profiles[idx].name.as_str()) {
        return None;
    }
    Some(profiles[idx].name.clone())
}

/// Removes the first profile named `name` (ignoring case) and makes the
/// default profile active. Returns the removed profile's name; nothing changes
/// when no profile has the name.
pub fn remove_voice_profile(profiles: &mut Vec<VoiceProfile>, active: &mut String, name: &str) -> (r: Option<String>)
    ensures
        match r {
            Some(removed) => exists|k: int|
                0 <= k < old(profiles)@.len()
                    && eq_ignore_ascii_case_spec(#[trigger] old(profiles)@[k].name@, name@)
                    && (forall|j: int| 0 <= j < k ==> !eq_ignore_ascii_case_spec(#[trigger] old(profiles)@[j].name@, name@))
                    && removed@ == old(profiles)@[k].name@
                    && final(profiles)@ == old(profiles)@.remove(k)
                    && final(active)@ == DEFAULT_VOICE_PROFILE_NAME@,
            None => {
                &&& !has_profile_named(profile_names(old(profiles)@), name@)
                &&& final(profiles)@ == old(profiles)@
                &&& final(active)@ == old(active)@
            },
        },
{
    let target = chars_of(name);
    let mut i: usize = 0;
    while i < profiles.len()
        invariant
            i <= profiles@.len(),
            profiles@ == old(profiles)@,
            *active == *old(active),
            target@ == name@,
            forall|j: int| 0 <= j < i ==> !eq_ignore_ascii_case_spec(#[trigger] profiles@[j].name@, name@),
        decreases profiles@.len() - i,
    {
        let c = chars_of(profiles[i].name.as_str());
        if chars_eq_ignore_ascii_case(c.as_slice(), target.as_slice()) {
            let removed = profiles.remove(i);
            *active = DEFAULT_VOICE_PROFILE_NAME.to_owned();
            return Some(removed.name);
        }
        i += 1;
    }
    proof {
        let names = profile_names(old(profiles)@);
        assert forall|j: int| 0 <= j < names.len() && j != -1 implies !eq_ignore_ascii_case_spec(#[trigger] names[j], name@) by {
            assert(names[j] == old(profiles)@[j].name@);
        }
    }
    None
}

// ---------------------------------------------------------------------------
// Laws
// ---------------------------------------------------------------------------

/// Adding a profile keeps the names distinct (ignoring case), and the active
/// profile is then in the list.
pub proof fn lemma_add_keeps_names_distinct(before: Seq<VoiceProfile>, after: Seq<VoiceProfile>, name: Seq<char>)
    requires
        names_distinct(profile_names(before)),
        first_free_numbered(profile_names(before), -1, new_profile_prefix(), 1, name),
        after.len() == before.len() + 1,
        after.subrange(0, before.len() as int) == before,
        after.last().name@ == name,
    ensures
        names_distinct(profile_names(after)),
        has_profile_named(profile_names(after), name),
{
    let nb = profile_names(before);
    let na = profile_names(after);
    assert(!name_taken(nb, -1, name));
    assert forall|i: int| 0 <= i < na.len() - 1 implies #[trigger] na[i] == nb[i] by {
        assert(after[i] == before[i]);
    }
    assert forall|i: int, j: int|
        0 <= i < na.len() && 0 <= j < na.len() && i != j implies !eq_ignore_ascii_case_spec(
            #[trigger] na[i],
            #[trigger] na[j],
        ) by {
        if i == na.len() - 1 {
            assert(na[i] == name);
            assert(na[j] == nb[j]);
        } else if j == na.len() - 1 {
            assert(na[j] == name);
            assert(na[i] == nb[i]);
        } else {
            assert(na[i] == nb[i]);
            assert(na[j] == nb[j]);
        }
    }
    assert(eq_ignore_ascii_case_spec(na[na.len() - 1], name));
}

/// Renaming a profile keeps the names distinct (ignoring case).
pub proof fn lemma_rename_keeps_names_distinct(
    before: Seq<VoiceProfile>,
    after: Seq<VoiceProfile>,
    index: int,
    requested: Seq<char>,
)
    requires
        names_distinct(profile_names(before)),
        0 <= index < before.len(),
        trim_spec(requested).len() > 0,
        rename_result_spec(requested, profile_names(before), index, after[index].name@),
        renamed_at(before, after, index, after[index].name@),
    ensures
        names_distinct(profile_names(after)),
{
    let nb = profile_names(before);
    let na = profile_names(after);
    let new_name = after[index].name@;
    let req = trim_spec(requested);
    assert(!name_taken(nb, index, new_name)) by {
        if name_taken(nb, index, req) {
            let n = choose|n: nat|
                2 <= n && new_name == numbered_name(req + " "@, n) && !name_taken(nb, index, numbered_name(req + " "@, n))
                    && forall|m: nat| 2 <= m < n ==> name_taken(nb, index, #[trigger] numbered_name(req + " "@, m));
        }
    }
    assert forall|i: int, j: int|
        0 <= i < na.len() && 0 <= j < na.len() && i != j implies !eq_ignore_ascii_case_spec(
            #[trigger] na[i],
            #[trigger] na[j],
        ) by {
        if i == index {
            assert(na[j] == nb[j]);
            assert(na[i] == new_name);
        } else if j == index {
            assert(na[i] == nb[i]);
            assert(na[j] == new_name);
        } else {
            assert(na[i] == nb[i]);
            assert(na[j] == nb[j]);
        }
    }
}

/// Deleting a profile by a name that is not the default one keeps the default
/// profile in the list.
pub proof fn lemma_delete_keeps_default(before: Seq<VoiceProfile>, k: int, name: Seq<char>)
    requires
        0 <= k < before.len(),
        !is_default_profile_name(name),
        eq_ignore_ascii_case_spec(before[k].name@, name),
        has_profile_named(profile_names(before), DEFAULT_VOICE_PROFILE_NAME@),
    ensures
        has_profile_named(profile_names(before.remove(k)), DEFAULT_VOICE_PROFILE_NAME@),
{
    let nb = profile_names(before);
    let na = profile_names(before.remove(k));
    let d = choose|i: int| 0 <= i < nb.len() && i != -1 && eq_ignore_ascii_case_spec(#[trigger] nb[i], DEFAULT_VOICE_PROFILE_NAME@);
    assert(d != k) by {
        if d == k {
            assert(nb[k] == before[k].name@);
            lemma_eq_ci_chain(name, before[k].name@, DEFAULT_VOICE_PROFILE_NAME@);
        }
    }
    if d < k {
        assert(na[d] == nb[d]);
    } else {
        assert(na[d - 1] == nb[d]);
    }
}

/// `a ~ b` and `b ~ c` give `a ~ c` when `a ~ b` is stated from `b`'s side.
proof fn lemma_eq_ci_chain(a: Seq<char>, b: Seq<char>, c: Seq<char>)
    requires
        eq_ignore_ascii_case_spec(b, a),
        eq_ignore_ascii_case_spec(b, c),
    ensures
        eq_ignore_ascii_case_spec(a, c),
{
}

/// `p` is `template` under the name `name`.
pub open spec fn is_named_copy(p: VoiceProfile, template: VoiceProfile, name: Seq<char>) -> bool {
    &&& p.name@ == name
    &&& same_voice_choices(p, template)
}

/// `template` under the name `name`.
fn named_copy(template: &VoiceProfile, name: String) -> (p: VoiceProfile)
    ensures
        is_named_copy(p, *template, name@),
{
    VoiceProfile {
        name,
        tts_engine: template.tts_engine,
        tts_voice: template.tts_voice.clone(),
        tts_only_multilingual: template.tts_only_multilingual,
        tts_manual_tuning: template.tts_manual_tuning,
        edge_tts_tuning: template.edge_tts_tuning,
        google_tts_tuning: template.google_tts_tuning,
        sapi5_tts_tuning: template.sapi5_tts_tuning,
        sapi4_tts_tuning: template.sapi4_tts_tuning,
        use_dialogue_voice: template.use_dialogue_voice,
        dialogue_tts_engine: template.dialogue_tts_engine,
        dialogue_voice: template.dialogue_voice.clone(),
        dialogue_voice_rate: template.dialogue_voice_rate,
        dialogue_voice_pitch: template.dialogue_voice_pitch,
        dialogue_voice_volume: template.dialogue_voice_volume,
        dialogue_use_secondary_voice: template.dialogue_use_secondary_voice,
        dialogue_secondary_tts_engine: template.dialogue_secondary_tts_engine,
        dialogue_secondary_voice: template.dialogue_secondary_voice.clone(),
        dialogue_secondary_voice_rate: template.dialogue_secondary_voice_rate,
        dialogue_secondary_voice_pitch: template.dialogue_secondary_voice_pitch,
        dialogue_secondary_voice_volume: template.dialogue_secondary_voice_volume,
    }
}

/// The first profile named `name`, ignoring ASCII case.
fn first_profile_named(profiles: &Vec<VoiceProfile>, name: &str) -> (r: Option<usize>)
    ensures
        match r {
            Some(i) => first_match_ignoring_case(profile_names(profiles@), name@) == Some(i as int),
            None => first_match_ignoring_case(profile_names(profiles@), name@) is None,
        },
{
    let ghost names = profile_names(profiles@);
    let mut i: usize = 0;
    proof {
        assert(names.skip(0) =~= names);
    }
    while i < profiles.len()
        invariant
            i <= profiles@.len(),
            names == profile_names(profiles@),
            first_match_ignoring_case(names, name@) == (match first_match_ignoring_case(names.skip(i as int), name@) {
                Some(k) => Some(k + i),
                None => None,
            }),
        decreases profiles@.len() - i,
    {
        proof {
            assert(names.skip(i as int).drop_first() =~= names.skip(i + 1));
            assert(names.skip(i as int)[0] == profiles@[i as int].name@);
        }
        if eq_ignore_ascii_case(profiles[i].name.as_str(), name) {
            return Some(i);
        }
        i += 1;
    }
    proof {
        assert(names.skip(profiles@.len() as int) =~= Seq::<Seq<char>>::empty());
    }
    None
}

/// A position found by `first_match_ignoring_case` names the profile.
proof fn lemma_first_match(names: Seq<Seq<char>>, name: Seq<char>)
    ensures
        first_match_ignoring_case(names, name) matches Some(i) ==> 0 <= i < names.len()
            && eq_ignore_ascii_case_spec(names[i], name),
        first_match_ignoring_case(names, name) is None <==> !has_profile_named(names, name),
    decreases names.len(),
{
    if names.len() > 0 {
        lemma_first_match(names.drop_first(), name);
        if has_profile_named(names, name) && !eq_ignore_ascii_case_spec(names[0], name) {
            let k = choose|k: int| 0 <= k < names.len() && k != -1 && eq_ignore_ascii_case_spec(#[trigger] names[k], name);
            assert(names.drop_first()[k - 1] == names[k]);
        }
        if has_profile_named(names.drop_first(), name) {
            let k = choose|k: int|
                0 <= k < names.drop_first().len() && k != -1 && eq_ignore_ascii_case_spec(#[trigger] names.drop_first()[k], name);
            assert(names[k + 1] == names.drop_first()[k]);
        }
    }
}

/// The name the active profile is saved under: the default profile's name
/// when it is blank.
pub open spec fn saved_active_name(active: Seq<char>) -> Seq<char> {
    if trim_spec(active).len() == 0 {
        DEFAULT_VOICE_PROFILE_NAME@
    } else {
        active
    }
}

/// The profiles as the dialog saves them: the default profile is added (as
/// the current voice settings) when no profile has its name, then the
/// active profile (found by name, ignoring case) is replaced by the current
/// voice settings, or added when there is none. Returns the active
/// profile's name (see `saved_active_name`).
pub fn finalize_voice_profiles(profiles: &mut Vec<VoiceProfile>, active: &str, current: &VoiceProfile) -> (active_name:
    String)
    ensures
        active_name@ == saved_active_name(active@),
        ({
            let before = old(profiles)@;
            let added_default = !has_profile_named(profile_names(before), DEFAULT_VOICE_PROFILE_NAME@);
            let middle_len: int = if added_default {
                before.len() + 1int
            } else {
                before.len() as int
            };
            let middle_names = if added_default {
                profile_names(before).push(DEFAULT_VOICE_PROFILE_NAME@)
            } else {
                profile_names(before)
            };
            let after = final(profiles)@;
            match first_match_ignoring_case(middle_names, active_name@) {
                Some(k) => {
                    &&& after.len() == middle_len
                    &&& is_named_copy(after[k], *current, active_name@)
                    &&& forall|j: int| 0 <= j < before.len() && j != k ==> after[j] == before[j]
                    &&& (added_default && k != before.len()) ==> is_named_copy(
                        after[before.len() as int],
                        *current,
                        DEFAULT_VOICE_PROFILE_NAME@,
                    )
                },
                None => {
                    &&& after.len() == middle_len + 1
                    &&& is_named_copy(after[middle_len], *current, active_name@)
                    &&& forall|j: int| 0 <= j < before.len() ==> after[j] == before[j]
                    &&& added_default ==> is_named_copy(
                        after[before.len() as int],
                        *current,
                        DEFAULT_VOICE_PROFILE_NAME@,
                    )
                },
            }
        }),
        has_profile_named(profile_names(final(profiles)@), DEFAULT_VOICE_PROFILE_NAME@),
{
    let ghost before = profiles@;
    let active_name = if is_blank(active) {
        DEFAULT_VOICE_PROFILE_NAME.to_owned()
    } else {
        active.to_owned()
    };
    let has_default = match first_profile_named(profiles, DEFAULT_VOICE_PROFILE_NAME) {
        Some(_) => true,
        None => false,
    };
    proof {
        lemma_first_match(profile_names(before), DEFAULT_VOICE_PROFILE_NAME@);
    }
    if !has_default {
        let default_profile = named_copy(current, DEFAULT_VOICE_PROFILE_NAME.to_owned());
        profiles.push(default_profile);
    }
    let ghost middle = profiles@;
    proof {
        let middle_names = if !has_default {
            profile_names(before).push(DEFAULT_VOICE_PROFILE_NAME@)
        } else {
            profile_names(before)
        };
        assert(profile_names(middle) =~= middle_names);
    }
    let updated = named_copy(current, active_name.clone());
    match first_profile_named(profiles, active_name.as_str()) {
        Some(k) => {
            proof {
                lemma_first_match(profile_names(middle), active_name@);
            }
            profiles.set(k, updated);
        },
        None => {
            profiles.push(updated);
        },
    }
    proof {
        lemma_saved_profiles_keep_default(before, profiles@, *current, active_name@);
    }
    active_name
}

/// What the voice form shows when a profile is chosen: the entries of the
/// three engine lists, the four boxes, and the tuning of the profile's
/// engine.
#[derive(Clone, Copy, Debug, PartialEq, Eq, Structural)]
pub struct ProfileForm {
    pub engine_position: isize,
    pub dialogue_engine_position: isize,
    pub secondary_engine_position: isize,
    pub only_multilingual: bool,
    pub manual_tuning: bool,
    pub use_dialogue_voice: bool,
    pub use_secondary_voice: bool,
    pub tuning: TtsTuning,
}

/// What the voice form shows for the profile at `selection` of the profile
/// list; nothing when no profile is selected.
pub fn voice_profile_form(profiles: &[VoiceProfile], selection: isize) -> (form: Option<ProfileForm>)
    ensures
        !(0 <= selection < profiles@.len()) ==> form is None,
        0 <= selection < profiles@.len() ==> ({
            let p = profiles@[selection as int];
            form == Some(
                ProfileForm {
                    engine_position: engine_position_spec(p.tts_engine),
                    dialogue_engine_position: engine_position_spec(p.dialogue_tts_engine),
                    secondary_engine_position: engine_position_spec(p.dialogue_secondary_tts_engine),
                    only_multilingual: p.tts_only_multilingual,
                    manual_tuning: p.tts_manual_tuning,
                    use_dialogue_voice: p.use_dialogue_voice,
                    use_secondary_voice: p.dialogue_use_secondary_voice,
                    tuning: profile_tuning_spec(p, p.tts_engine),
                },
            )
        }),
{
    if selection < 0 || selection as usize >= profiles.len() {
        return None;
    }
    let p = &profiles[selection as usize];
    Some(
        ProfileForm {
            engine_position: engine_position(p.tts_engine),
            dialogue_engine_position: engine_position(p.dialogue_tts_engine),
            secondary_engine_position: engine_position(p.dialogue_secondary_tts_engine),
            only_multilingual: p.tts_only_multilingual,
            manual_tuning: p.tts_manual_tuning,
            use_dialogue_voice: p.use_dialogue_voice,
            use_secondary_voice: p.dialogue_use_secondary_voice,
            tuning: voice_profile_tuning_for_engine(p, p.tts_engine),
        },
    )
}

/// The active profile's name when the dialog opens: the saved name trimmed,
/// or the default profile's name when that is blank or names no profile.
pub open spec fn opened_active_name(names: Seq<Seq<char>>, active: Seq<char>) -> Seq<char> {
    if trim_spec(active).len() == 0 || !has_profile_named(names, trim_spec(active)) {
        DEFAULT_VOICE_PROFILE_NAME@
    } else {
        trim_spec(active)
    }
}

/// The profiles as the dialog opens them: the default profile is added (as
/// the current voice settings) when no profile has its name. Returns the
/// active profile's name (see `opened_active_name`).
pub fn open_voice_profiles(profiles: &mut Vec<VoiceProfile>, active: &str, current: &VoiceProfile) -> (active_name:
    String)
    ensures
        has_profile_named(profile_names(old(profiles)@), DEFAULT_VOICE_PROFILE_NAME@) ==> final(profiles)@
            == old(profiles)@,
        !has_profile_named(profile_names(old(profiles)@), DEFAULT_VOICE_PROFILE_NAME@) ==> {
            &&& final(profiles)@.len() == old(profiles)@.len() + 1
            &&& final(profiles)@.subrange(0, old(profiles)@.len() as int) == old(profiles)@
            &&& is_named_copy(final(profiles)@.last(), *current, DEFAULT_VOICE_PROFILE_NAME@)
        },
        active_name@ == opened_active_name(profile_names(final(profiles)@), active@),
        has_profile_named(profile_names(final(profiles)@), DEFAULT_VOICE_PROFILE_NAME@),
{
    let ghost before = profiles@;
    let has_default = match first_profile_named(profiles, DEFAULT_VOICE_PROFILE_NAME) {
        Some(_) => true,
        None => false,
    };
    proof {
        lemma_first_match(profile_names(before), DEFAULT_VOICE_PROFILE_NAME@);
    }
    if !has_default {
        profiles.push(named_copy(current, DEFAULT_VOICE_PROFILE_NAME.to_owned()));
        proof {
            assert(profiles@.subrange(0, before.len() as int) =~= before);
            let names = profile_names(profiles@);
            assert(names[before.len() as int] == DEFAULT_VOICE_PROFILE_NAME@);
        }
    }
    let trimmed = trim(active);
    let found = if trimmed.as_str().is_empty() {
        false
    } else {
        match first_profile_named(profiles, trimmed.as_str()) {
            Some(_) => true,
            None => false,
        }
    };
    proof {
        lemma_first_match(profile_names(profiles@), trimmed@);
    }
    if found {
        trimmed
    } else {
        DEFAULT_VOICE_PROFILE_NAME.to_owned()
    }
}

/// The profiles that `finalize_voice_profiles` describes include the
/// default profile.
proof fn lemma_saved_profiles_keep_default(
    before: Seq<VoiceProfile>,
    after: Seq<VoiceProfile>,
    current: VoiceProfile,
    active_name: Seq<char>,
)
    requires
        ({
            let added_default = !has_profile_named(profile_names(before), DEFAULT_VOICE_PROFILE_NAME@);
            let middle_len: int = if added_default {
                before.len() + 1int
            } else {
                before.len() as int
            };
            let middle_names = if added_default {
                profile_names(before).push(DEFAULT_VOICE_PROFILE_NAME@)
            } else {
                profile_names(before)
            };
            match first_match_ignoring_case(middle_names, active_name) {
                Some(k) => {
                    &&& after.len() == middle_len
                    &&& is_named_copy(after[k], current, active_name)
                    &&& forall|j: int| 0 <= j < before.len() && j != k ==> after[j] == before[j]
                    &&& (added_default && k != before.len()) ==> is_named_copy(
                        after[before.len() as int],
                        current,
                        DEFAULT_VOICE_PROFILE_NAME@,
                    )
                },
                None => {
                    &&& after.len() == middle_len + 1
                    &&& is_named_copy(after[middle_len], current, active_name)
                    &&& forall|j: int| 0 <= j < before.len() ==> after[j] == before[j]
                    &&& added_default ==> is_named_copy(
                        after[before.len() as int],
                        current,
                        DEFAULT_VOICE_PROFILE_NAME@,
                    )
                },
            }
        }),
    ensures
        has_profile_named(profile_names(after), DEFAULT_VOICE_PROFILE_NAME@),
{
    let added_default = !has_profile_named(profile_names(before), DEFAULT_VOICE_PROFILE_NAME@);
    let middle_names = if added_default {
        profile_names(before).push(DEFAULT_VOICE_PROFILE_NAME@)
    } else {
        profile_names(before)
    };
    lemma_first_match(middle_names, active_name);
    let names = profile_names(after);
    if !added_default {
        let d = choose|i: int|
            0 <= i < profile_names(before).len() && i != -1 && eq_ignore_ascii_case_spec(
                #[trigger] profile_names(before)[i],
                DEFAULT_VOICE_PROFILE_NAME@,
            );
        match first_match_ignoring_case(middle_names, active_name) {
            Some(k) => {
                if d == k {
                    // the replaced profile matched the active name, which
                    // matched the default name's profile
                    assert(eq_ignore_ascii_case_spec(middle_names[k], active_name));
                    assert(names[k] == active_name);
                    lemma_eq_ignore_case_symmetric(middle_names[k], active_name);
                    lemma_eq_ignore_case_transitive(active_name, middle_names[k], DEFAULT_VOICE_PROFILE_NAME@);
                    assert(eq_ignore_ascii_case_spec(names[k], DEFAULT_VOICE_PROFILE_NAME@));
                } else {
                    assert(names[d] == profile_names(before)[d]);
                }
            },
            None => {
                assert(names[d] == profile_names(before)[d]);
            },
        }
    } else {
        let b = before.len() as int;
        match first_match_ignoring_case(middle_names, active_name) {
            Some(k) => {
                if k == b {
                    assert(middle_names[k] == DEFAULT_VOICE_PROFILE_NAME@);
                    lemma_eq_ignore_case_symmetric(middle_names[k], active_name);
                    assert(names[k] == active_name);
                    assert(eq_ignore_ascii_case_spec(names[k], DEFAULT_VOICE_PROFILE_NAME@));
                } else {
                    assert(names[b] == DEFAULT_VOICE_PROFILE_NAME@);
                }
            },
            None => {
                assert(names[b] == DEFAULT_VOICE_PROFILE_NAME@);
            },
        }
    }
}

} // verus!
