//! The interpreter search of the general tab: which program name is looked
//! up, and which paths the lookup's output lists.

use vstd::prelude::*;

use crate::text::{
    chars_of, concat_str, ends_with_spec, ends_with_str, is_blank, lower_seq, string_from_chars, to_ascii_lowercase,
    trim_chars, trim_spec,
};

verus! {

/// The program name looked up first for the search text `query`: the text
/// itself when it ends in `.exe` (ignoring ASCII case), otherwise the text with
/// `.exe` added; nothing is looked up for a blank text.
pub open spec fn interpreter_search_name_spec(query: Seq<char>) -> Option<Seq<char>> {
    if trim_spec(query).len() == 0 {
        None
    } else if ends_with_spec(lower_seq(query), ".exe"@) {
        Some(query)
    } else {
        Some(query + ".exe"@)
    }
}

/// The program name looked up first for the search text `query`.
pub fn interpreter_search_name(query: &str) -> (name: Option<String>)
    ensures
        match name {
            Some(n) => interpreter_search_name_spec(query@) == Some(n@),
            None => interpreter_search_name_spec(query@) is None,
        },
{
    if is_blank(query) {
        return None;
    }
    let lower = to_ascii_lowercase(query);
    if ends_with_str(lower.as_str(), ".exe") {
        Some(query.to_owned())
    } else {
        Some(concat_str(query, ".exe"))
    }
}

/// The lines of `s`, split at each line feed.
pub open spec fn split_lines(s: Seq<char>) -> Seq<Seq<char>>
    decreases s.len(),
{
    if s.len() == 0 {
        seq![Seq::empty()]
    } else {
        let rest = split_lines(s.drop_last());
        if s.last() == '\n' {
            rest.push(Seq::empty())
        } else {
            rest.update(rest.len() - 1, rest.last().push(s.last()))
        }
    }
}

/// The lines, trimmed, that are not blank.
pub open spec fn nonblank_trimmed(lines: Seq<Seq<char>>) -> Seq<Seq<char>>
    decreases lines.len(),
{
    if lines.len() == 0 {
        Seq::empty()
    } else {
        let rest = nonblank_trimmed(lines.drop_last());
        if trim_spec(lines.last()).len() > 0 {
            rest.push(trim_spec(lines.last()))
        } else {
            rest
        }
    }
}

/// `split_lines` never gives an empty list.
proof fn lemma_split_lines_nonempty(s: Seq<char>)
    ensures
        split_lines(s).len() >= 1,
    decreases s.len(),
{
    if s.len() > 0 {
        lemma_split_lines_nonempty(s.drop_last());
    }
}

/// The paths that the lookup's output `output` lists: its lines, trimmed,
/// without the blank ones.
pub fn paths_from_lookup_output(output: &str) -> (paths: Vec<String>)
    ensures
        paths@.map_values(|p: String| p@) == nonblank_trimmed(split_lines(output@)),
{
    let v = chars_of(output);
    let mut paths: Vec<String> = Vec::new();
    let mut current: Vec<char> = Vec::new();
    let mut i: usize = 0;
    proof {
        assert(v@.take(0) =~= Seq::<char>::empty());
        assert(paths@.map_values(|p: String| p@) =~= nonblank_trimmed(Seq::<Seq<char>>::empty()));
        assert(split_lines(v@.take(0)).drop_last() =~= Seq::<Seq<char>>::empty());
    }
    while i < v.len()
        invariant
            i <= v@.len(),
            v@ == output@,
            split_lines(v@.take(i as int)).len() >= 1,
            split_lines(v@.take(i as int)).last() == current@,
            paths@.map_values(|p: String| p@) == nonblank_trimmed(split_lines(v@.take(i as int)).drop_last()),
        decreases v@.len() - i,
    {
        let ghost before = split_lines(v@.take(i as int));
        proof {
            assert(v@.take(i + 1).drop_last() =~= v@.take(i as int));
            assert(v@.take(i + 1).last() == v@[i as int]);
        }
        let c = v[i];
        if c == '\n' {
            let t = trim_chars(current.as_slice());
            let ghost old_paths = paths@;
            if t.len() > 0 {
                paths.push(string_from_chars(t.as_slice()));
            }
            proof {
                let after = before.push(Seq::empty());
                assert(split_lines(v@.take(i + 1)) == after);
                assert(after.drop_last() =~= before);
                assert(before =~= before.drop_last().push(before.last()));
                if t@.len() > 0 {
                    assert(paths@.map_values(|p: String| p@) =~= old_paths.map_values(|p: String| p@).push(t@));
                } else {
                    assert(paths@ == old_paths);
                }
            }
            current = Vec::new();
            proof {
                assert(current@ =~= Seq::<char>::empty());
            }
        } else {
            current.push(c);
            proof {
                let after = before.update(before.len() - 1, before.last().push(c));
                assert(split_lines(v@.take(i + 1)) == after);
                assert(after.drop_last() =~= before.drop_last());
                assert(after.last() == current@);
            }
        }
        i += 1;
    }
    proof {
        assert(v@.take(v@.len() as int) =~= v@);
    }
    let last = trim_chars(current.as_slice());
    let ghost old_paths = paths@;
    if last.len() > 0 {
        paths.push(string_from_chars(last.as_slice()));
    }
    proof {
        let lines = split_lines(output@);
        assert(lines =~= lines.drop_last().push(lines.last()));
        if last@.len() > 0 {
            assert(paths@.map_values(|p: String| p@) =~= old_paths.map_values(|p: String| p@).push(last@));
        } else {
            assert(paths@ == old_paths);
        }
    }
    paths
}

} // verus!
