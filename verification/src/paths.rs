//! A small algebra of `/`-separated path strings: absoluteness, joining,
//! and the split of a path into its parent part and its base name.
//!
//! Paths are modelled as sequences of characters; `/` is the separator. A
//! path is absolute exactly when it starts with `/`; every other path,
//! the empty one included, is relative.

use vstd::prelude::*;

verus! {

/// A path is absolute when its first character is the separator.
pub open spec fn is_abs_path(s: Seq<char>) -> bool {
    s.len() > 0 && s[0] == '/'
}

/// `base` extended by the relative path `rel`, inserting a separator
/// unless `base` already ends with one; an empty base adds nothing.
pub open spec fn join_path(base: Seq<char>, rel: Seq<char>) -> Seq<char> {
    if base.len() == 0 {
        rel
    } else if base[base.len() - 1] == '/' {
        base + rel
    } else {
        base + seq!['/'] + rel
    }
}

/// The index of the last separator in `s`, or `-1` when `s` has none.
pub open spec fn last_sep(s: Seq<char>) -> int
    decreases s.len(),
{
    if s.len() == 0 {
        -1
    } else if s[s.len() - 1] == '/' {
        s.len() - 1
    } else {
        last_sep(s.drop_last())
    }
}

/// Whether `s` contains a separator at all.
pub open spec fn has_sep(s: Seq<char>) -> bool {
    last_sep(s) >= 0
}

/// Everything after the last separator (the whole path when it has none).
pub open spec fn base_name(s: Seq<char>) -> Seq<char> {
    s.subrange(last_sep(s) + 1, s.len() as int)
}

/// Everything before the last separator; empty when `s` has none.
pub open spec fn parent_part(s: Seq<char>) -> Seq<char> {
    if has_sep(s) {
        s.subrange(0, last_sep(s))
    } else {
        Seq::empty()
    }
}

/// Where a staged source is read from: an absolute source path is used as
/// given, a relative one is resolved against `ran_from`.
pub open spec fn resolved_source(ran_from: Seq<char>, source: Seq<char>) -> Seq<char> {
    if is_abs_path(source) {
        source
    } else {
        join_path(ran_from, source)
    }
}

pub proof fn lemma_last_sep_bounds(s: Seq<char>)
    ensures
        -1 <= last_sep(s) < s.len(),
    decreases s.len(),
{
    if s.len() == 0 {
    } else if s[s.len() - 1] == '/' {
    } else {
        lemma_last_sep_bounds(s.drop_last());
    }
}

/// The last separator is a separator, and nothing after it is one.
pub proof fn lemma_last_sep_is_last(s: Seq<char>)
    ensures
        last_sep(s) >= 0 ==> s[last_sep(s)] == '/',
        forall|j: int| last_sep(s) < j < s.len() ==> s[j] != '/',
    decreases s.len(),
{
    if s.len() == 0 {
    } else if s[s.len() - 1] == '/' {
    } else {
        lemma_last_sep_is_last(s.drop_last());
        lemma_last_sep_bounds(s.drop_last());
        assert forall|j: int| last_sep(s) < j < s.len() implies s[j] != '/' by {
            if j < s.len() - 1 {
                assert(s.drop_last()[j] == s[j]);
            }
        }
    }
}

/// A separator with nothing but non-separators after it is the last one.
pub proof fn lemma_last_sep_unique(s: Seq<char>, j: int)
    requires
        0 <= j < s.len(),
        s[j] == '/',
        forall|k: int| j < k < s.len() ==> s[k] != '/',
    ensures
        last_sep(s) == j,
    decreases s.len(),
{
    if j == s.len() - 1 {
    } else {
        assert(s[s.len() - 1] != '/');
        assert forall|k: int| j < k < s.drop_last().len() implies s.drop_last()[k] != '/' by {
            assert(s.drop_last()[k] == s[k]);
        }
        assert(s.drop_last()[j] == s[j]);
        lemma_last_sep_unique(s.drop_last(), j);
    }
}

/// Appending a separator-free name to a non-empty base puts the name
/// exactly in the result's base-name position.
pub proof fn lemma_join_base_name(base: Seq<char>, name: Seq<char>)
    requires
        base.len() > 0,
        forall|j: int| 0 <= j < name.len() ==> name[j] != '/',
    ensures
        base_name(join_path(base, name)) =~= name,
{
    let s = join_path(base, name);
    if base[base.len() - 1] == '/' {
        assert forall|k: int| base.len() - 1 < k < s.len() implies s[k] != '/' by {
            assert(s[k] == name[k - base.len()]);
        }
        lemma_last_sep_unique(s, base.len() - 1);
    } else {
        assert(s[base.len() as int] == '/');
        assert forall|k: int| base.len() < k < s.len() implies s[k] != '/' by {
            assert(s[k] == name[k - (base.len() + 1)]);
        }
        lemma_last_sep_unique(s, base.len() as int);
    }
}

/// Splitting a path at its last separator and re-joining the halves gives
/// the path back; a path without a separator is its own base name.
pub proof fn lemma_split_rejoin(s: Seq<char>)
    ensures
        has_sep(s) ==> parent_part(s) + seq!['/'] + base_name(s) =~= s,
        !has_sep(s) ==> base_name(s) =~= s,
{
    lemma_last_sep_bounds(s);
    lemma_last_sep_is_last(s);
}

/// The base name of a path contains no separator.
pub proof fn lemma_base_name_has_no_sep(s: Seq<char>)
    ensures
        forall|j: int| 0 <= j < base_name(s).len() ==> base_name(s)[j] != '/',
{
    lemma_last_sep_bounds(s);
    lemma_last_sep_is_last(s);
}

/// Joining a relative path onto a non-empty base keeps the base as a
/// prefix of the result.
pub proof fn lemma_join_keeps_base_prefix(base: Seq<char>, rel: Seq<char>)
    requires
        base.len() > 0,
    ensures
        base.is_prefix_of(join_path(base, rel)),
{
    assert(base =~= join_path(base, rel).subrange(0, base.len() as int));
}

/// A relative source path always resolves to somewhere under the launch
/// directory: `ran_from` is a prefix of the resolved path.
pub proof fn lemma_relative_source_resolves_under_ran_from(
    ran_from: Seq<char>,
    source: Seq<char>,
)
    requires
        ran_from.len() > 0,
        !is_abs_path(source),
    ensures
        ran_from.is_prefix_of(resolved_source(ran_from, source)),
{
    lemma_join_keeps_base_prefix(ran_from, source);
}

/// Returns true exactly when `p` is an absolute path.
pub fn path_is_absolute(p: &str) -> (r: bool)
    ensures
        r == is_abs_path(p@),
{
    let n = p.unicode_len();
    n > 0 && p.get_char(0) == '/'
}

/// The character index of the last separator in `p`, when it has one.
pub fn find_last_sep(p: &str) -> (r: Option<usize>)
    ensures
        match r {
            Some(i) => last_sep(p@) == i as int,
            None => last_sep(p@) == -1,
        },
{
    let n = p.unicode_len();
    proof {
        assert(p@.take(n as int) =~= p@);
    }
    let mut i: usize = n;
    while i > 0
        invariant
            i <= n,
            n == p@.len(),
            last_sep(p@) == last_sep(p@.take(i as int)),
        decreases i,
    {
        if p.get_char(i - 1) == '/' {
            proof {
                assert(p@.take(i as int)[i - 1] == p@[i - 1]);
            }
            return Some(i - 1);
        }
        proof {
            assert(p@.take(i as int)[i - 1] == p@[i - 1]);
            assert(p@.take(i as int).drop_last() =~= p@.take(i - 1));
        }
        i = i - 1;
    }
    proof {
        assert(p@.take(0) =~= Seq::<char>::empty());
    }
    None
}

/// The part of `p` after its last separator, as an owned string.
pub fn base_name_of(p: &str) -> (r: String)
    ensures
        r@ == base_name(p@),
{
    proof {
        lemma_last_sep_bounds(p@);
    }
    let n = p.unicode_len();
    match find_last_sep(p) {
        Some(i) => {
            let s = p.substring_char(i + 1, n);
            String::from_str(s)
        },
        None => {
            proof {
                assert(p@.subrange(0, p@.len() as int) =~= p@);
            }
            String::from_str(p)
        },
    }
}

/// The part of `p` before its last separator, when it has one.
pub fn parent_part_of(p: &str) -> (r: Option<String>)
    ensures
        match r {
            Some(q) => has_sep(p@) && q@ == parent_part(p@),
            None => !has_sep(p@),
        },
{
    proof {
        lemma_last_sep_bounds(p@);
    }
    match find_last_sep(p) {
        Some(i) => Some(String::from_str(p.substring_char(0, i))),
        None => None,
    }
}

/// Joins `rel` onto `base` with a single separator between them.
pub fn path_join(base: &str, rel: &str) -> (r: String)
    ensures
        r@ == join_path(base@, rel@),
{
    let n = base.unicode_len();
    if n == 0 {
        String::from_str(rel)
    } else if base.get_char(n - 1) == '/' {
        let mut s = String::from_str(base);
        s.append(rel);
        s
    } else {
        proof {
            reveal_strlit("/");
        }
        let mut s = String::from_str(base);
        s.append("/");
        s.append(rel);
        proof {
            assert(s@ =~= base@ + seq!['/'] + rel@);
        }
        s
    }
}

/// Resolves a source path for staging: absolute paths are used as given,
/// relative ones are joined onto the launch directory `ran_from`.
pub fn resolve_source(ran_from: &str, source: &str) -> (r: String)
    ensures
        r@ == resolved_source(ran_from@, source@),
{
    if path_is_absolute(source) {
        String::from_str(source)
    } else {
        path_join(ran_from, source)
    }
}

} // verus!
