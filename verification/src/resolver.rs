//! Ordered search-path resolution: the entries of a path-list string, the
//! candidate file each entry offers for a program name, and the rule that
//! the first entry whose probe succeeded is the one that counts.
//!
//! Probing the file system itself (is the candidate a regular file, is it
//! executable) is the caller's business; the caller reports one verdict per
//! entry and this module picks the match deterministically.

use vstd::prelude::*;

use crate::text::push_char_at;

verus! {

/// The entries of the path list `s`: the pieces between `:` separators, in
/// order.  A list of `n` separators has `n + 1` entries, some possibly
/// empty.
pub open spec fn path_entries(s: Seq<char>) -> Seq<Seq<char>>
    decreases s.len(),
{
    if s.len() == 0 {
        seq![Seq::<char>::empty()]
    } else if s.last() == ':' {
        path_entries(s.drop_last()).push(Seq::<char>::empty())
    } else {
        let p = path_entries(s.drop_last());
        p.update(p.len() - 1, p.last().push(s.last()))
    }
}

/// Splits a path-list string at every `:`.
pub fn split_path_list(list: &str) -> (dirs: Vec<String>)
    ensures
        dirs.deep_view() == path_entries(list@),
        dirs@.len() >= 1,
{
    let n = list.unicode_len();
    let mut dirs: Vec<String> = Vec::new();
    dirs.push(String::new());
    proof {
        assert(list@.subrange(0, 0) =~= Seq::<char>::empty());
        assert(dirs.deep_view() =~= path_entries(list@.subrange(0, 0)));
    }
    let mut i: usize = 0;
    while i < n
        invariant
            i <= n,
            n == list@.len(),
            dirs@.len() >= 1,
            dirs.deep_view() == path_entries(list@.subrange(0, i as int)),
        decreases n - i,
    {
        let ghost p = path_entries(list@.subrange(0, i as int));
        let ghost old_deep = dirs.deep_view();
        let c = list.get_char(i);
        proof {
            assert(list@.subrange(0, i as int + 1).drop_last() =~= list@.subrange(0, i as int));
            assert(list@.subrange(0, i as int + 1).last() == c);
        }
        if c == ':' {
            dirs.push(String::new());
            proof {
                assert(dirs.deep_view() =~= old_deep.push(Seq::<char>::empty()));
            }
        } else {
            let li = dirs.len() - 1;
            let entry = &mut dirs[li];
            push_char_at(entry, list, i);
            proof {
                assert(dirs.deep_view() =~= old_deep.update(
                    li as int,
                    old_deep[li as int].push(c),
                ));
            }
        }
        i += 1;
    }
    proof {
        assert(list@.subrange(0, n as int) =~= list@);
    }
    dirs
}

/// The candidate file that directory `dir` offers for the program `name`:
/// the two joined by a path separator, unless the directory already ends in
/// one or is empty.
pub open spec fn candidate_of(dir: Seq<char>, name: Seq<char>) -> Seq<char> {
    if dir.len() == 0 {
        name
    } else if dir.last() == '/' {
        dir + name
    } else {
        dir + seq!['/'] + name
    }
}

/// Joins a directory and a program name into a candidate file path.
pub fn candidate_path(dir: &str, name: &str) -> (r: String)
    ensures
        r@ == candidate_of(dir@, name@),
{
    let n = dir.unicode_len();
    if n == 0 {
        String::from_str(name)
    } else if dir.get_char(n - 1) == '/' {
        let mut r = String::from_str(dir);
        r.append(name);
        r
    } else {
        let mut r = String::from_str(dir);
        proof {
            reveal_strlit("/");
            assert("/"@ =~= seq!['/']);
        }
        r.append("/");
        r.append(name);
        r
    }
}

/// The position of the first successful probe among `ok`.
pub open spec fn first_hit(ok: Seq<bool>) -> Option<int>
    decreases ok.len(),
{
    if ok.len() == 0 {
        None
    } else if ok[0] {
        Some(0int)
    } else {
        match first_hit(ok.drop_first()) {
            Some(i) => Some(i + 1),
            None => None,
        }
    }
}

/// A successful probe at `i` with none before it is the first hit.
pub proof fn lemma_first_hit_found(ok: Seq<bool>, i: int)
    requires
        0 <= i < ok.len(),
        ok[i],
        forall|j: int| 0 <= j < i ==> !ok[j],
    ensures
        first_hit(ok) == Some(i),
    decreases ok.len(),
{
    if i == 0 {
    } else {
        assert(!ok[0]);
        assert(forall|j: int| 0 <= j < i - 1 ==> !#[trigger] ok.drop_first()[j]);
        lemma_first_hit_found(ok.drop_first(), i - 1);
    }
}

/// With no successful probe at all there is no first hit.
pub proof fn lemma_first_hit_none(ok: Seq<bool>)
    requires
        forall|j: int| 0 <= j < ok.len() ==> !ok[j],
    ensures
        first_hit(ok) is None,
    decreases ok.len(),
{
    if ok.len() == 0 {
    } else {
        assert(forall|j: int| 0 <= j < ok.drop_first().len() ==> !#[trigger] ok.drop_first()[j]);
        lemma_first_hit_none(ok.drop_first());
    }
}

/// What the ordered search returns: the candidate of the first directory
/// whose probe succeeded, or nothing when every probe failed.
pub open spec fn resolved_of(name: Seq<char>, dirs: Seq<Seq<char>>, ok: Seq<bool>) -> Option<
    Seq<char>,
> {
    match first_hit(ok) {
        Some(i) => Some(candidate_of(dirs[i], name)),
        None => None,
    }
}

/// Resolution is order-stable: it returns the candidate of the first
/// directory, in listed order, whose probe succeeded, even when a later
/// directory's probe succeeded as well.
pub proof fn lemma_resolution_prefers_first(
    name: Seq<char>,
    dirs: Seq<Seq<char>>,
    ok: Seq<bool>,
    i: int,
)
    requires
        0 <= i < ok.len(),
        ok[i],
        forall|j: int| 0 <= j < i ==> !ok[j],
    ensures
        resolved_of(name, dirs, ok) == Some(candidate_of(dirs[i], name)),
{
    lemma_first_hit_found(ok, i);
}

/// Picks the first directory whose probe succeeded and returns its candidate
/// path for `name`; `ok[i]` is the caller's verdict on whether directory
/// `dirs[i]` holds an executable regular file named `name`.
pub fn resolve_first(name: &str, dirs: &Vec<String>, ok: &Vec<bool>) -> (r: Option<String>)
    requires
        ok@.len() == dirs@.len(),
    ensures
        match r {
            Some(p) => resolved_of(name@, dirs.deep_view(), ok@) == Some(p@),
            None => resolved_of(name@, dirs.deep_view(), ok@) is None,
        },
{
    let mut i: usize = 0;
    while i < dirs.len()
        invariant
            ok@.len() == dirs@.len(),
            i <= dirs@.len(),
            forall|j: int| 0 <= j < i ==> !ok@[j],
        decreases dirs@.len() - i,
    {
        if ok[i] {
            proof {
                lemma_first_hit_found(ok@, i as int);
                assert(dirs.deep_view()[i as int] == dirs@[i as int]@);
            }
            return Some(candidate_path(dirs[i].as_str(), name));
        }
        i += 1;
    }
    proof {
        lemma_first_hit_none(ok@);
    }
    None
}

} // verus!
