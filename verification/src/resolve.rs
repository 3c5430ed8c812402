//! Where template packs live on disk.
use vstd::prelude::*;

use crate::seqs::{lemma_lex_irreflexive, lemma_lex_total, lemma_lex_transitive, lex_lt, str_lt};
use crate::text::owned;

verus! {

/// `.oag/packs`.
pub open spec fn templates_dir_text() -> Seq<char> {
    seq!['.', 'o', 'a', 'g', '/', 'p', 'a', 'c', 'k', 's']
}

/// The local packs directory within the current repository.
pub fn templates_dir() -> (r: String)
    ensures
        r@ == templates_dir_text(),
{
    let r = owned(".oag/packs");
    proof {
        reveal_strlit(".oag/packs");
    }
    r
}

/// `base` joined with `p` as `PathBuf::join` does on Unix: an absolute `p`
/// (starting with `/`) replaces `base`; otherwise `p` follows `base`, with one
/// `/` between them unless `base` is empty or already ends with `/`.
pub open spec fn path_join(base: Seq<char>, p: Seq<char>) -> Seq<char> {
    if p.len() > 0 && p[0] == '/' {
        p
    } else if base.len() == 0 || base.last() == '/' {
        base + p
    } else {
        base + "/"@ + p
    }
}

/// Joins a path onto a base path (`PathBuf::join`, Unix rules).
pub fn join_path(base: &str, p: &str) -> (r: String)
    ensures
        r@ == path_join(base@, p@),
{
    let n = base.unicode_len();
    if p.unicode_len() > 0 && p.get_char(0) == '/' {
        owned(p)
    } else if n == 0 || base.get_char(n - 1) == '/' {
        owned(base).concat(p)
    } else {
        owned(base).concat("/").concat(p)
    }
}

/// The directory of the installed pack `pack_id`.
pub open spec fn installed_dir_text(pack_id: Seq<char>) -> Seq<char> {
    path_join(templates_dir_text(), pack_id)
}

/// The directory of an installed pack: the packs directory joined with its id.
pub fn installed_pack_dir(pack_id: &str) -> (r: String)
    ensures
        r@ == installed_dir_text(pack_id@),
{
    join_path(templates_dir().as_str(), pack_id)
}

/// Where the pack `pack_id` downloaded at `git_ref` is cached.
pub open spec fn cache_dir_text(pack_id: Seq<char>, git_ref: Seq<char>) -> Seq<char> {
    path_join(path_join(path_join(templates_dir_text(), ".cache"@), pack_id), git_ref)
}

/// Where a pack downloaded at a git ref is cached: the packs directory
/// joined with `.cache`, the pack id and the ref.
pub fn pack_cache_dir(pack_id: &str, git_ref: &str) -> (r: String)
    ensures
        r@ == cache_dir_text(pack_id@, git_ref@),
{
    let cache = join_path(templates_dir().as_str(), ".cache");
    let dir = join_path(cache.as_str(), pack_id);
    join_path(dir.as_str(), git_ref)
}

/// The pack directory that resolution picks: the explicit path when it holds
/// a manifest, else the installed pack when it holds one, else none.
pub open spec fn resolved_pack_dir(
    pack_id: Seq<char>,
    explicit_path: Option<Seq<char>>,
    explicit_has_manifest: bool,
    installed_has_manifest: bool,
) -> Option<Seq<char>> {
    match explicit_path {
        Some(p) if explicit_has_manifest => Some(p),
        _ => if installed_has_manifest { Some(installed_dir_text(pack_id)) } else { None },
    }
}

/// Resolves a pack directory by id: an explicit path first, then the packs
/// installed under `.oag/packs/`; none when neither holds an `oag.pack.toml`
/// (the two flags tell whether each does).
pub fn resolve_pack_path(
    pack_id: &str,
    explicit_path: Option<&str>,
    explicit_has_manifest: bool,
    installed_has_manifest: bool,
) -> (r: Option<String>)
    ensures
        match r {
            Some(d) => resolved_pack_dir(pack_id@, crate::config::opt_str_view(explicit_path), explicit_has_manifest,
                installed_has_manifest) == Some(d@),
            None => resolved_pack_dir(pack_id@, crate::config::opt_str_view(explicit_path), explicit_has_manifest,
                installed_has_manifest) is None,
        },
{
    match explicit_path {
        Some(p) => {
            if explicit_has_manifest {
                return Some(owned(p));
            }
        },
        None => {},
    }
    if installed_has_manifest {
        Some(installed_pack_dir(pack_id))
    } else {
        None
    }
}

/// Removing a pack: its directory when it is installed, else the error.
pub fn remove_pack_target(pack_id: &str, installed: bool) -> (r: Result<String, String>)
    ensures
        match r {
            Ok(d) => installed && d@ == installed_dir_text(pack_id@),
            Err(e) => !installed && e@ == "pack '"@ + pack_id@ + "' is not installed"@,
        },
{
    if installed {
        Ok(installed_pack_dir(pack_id))
    } else {
        Err(owned("pack '").concat(pack_id).concat("' is not installed"))
    }
}

/// Ordered by id: no entry's id sorts before an earlier entry's.
pub open spec fn sorted_by_id(s: Seq<(String, String)>) -> bool {
    forall|i: int, j: int| 0 <= i < j < s.len() ==> !lex_lt(#[trigger] s[j].0@, #[trigger] s[i].0@)
}

/// Sorts installed packs (id, directory) by id, as `oag templates list` shows them.
pub fn sort_packs(packs: Vec<(String, String)>) -> (r: Vec<(String, String)>)
    ensures
        sorted_by_id(r@),
        r@.to_multiset() == packs@.to_multiset(),
{
    broadcast use vstd::seq_lib::group_to_multiset_ensures;
    let ghost input = packs@;
    assert(input.len() == packs.len());
    let mut rest = packs;
    let mut out: Vec<(String, String)> = Vec::new();
    let mut taken: usize = 0;
    assert(input.take(0) =~= Seq::<(String, String)>::empty());
    while rest.len() > 0
        invariant
            taken + rest@.len() == input.len(),
            input.len() <= usize::MAX,
            rest@ == input.skip(taken as int),
            sorted_by_id(out@),
            out@.to_multiset() == input.take(taken as int).to_multiset(),
        decreases rest@.len(),
    {
        let item = rest.remove(0);
        assert(item == input[taken as int]);
        assert(input.skip(taken as int).skip(1) =~= input.skip(taken + 1));
        let mut p: usize = 0;
        while p < out.len() && !str_lt(item.0.as_str(), out[p].0.as_str())
            invariant
                p <= out@.len(),
                forall|k: int| 0 <= k < p ==> !lex_lt(item.0@, #[trigger] out@[k].0@),
            decreases out@.len() - p,
        {
            p = p + 1;
        }
        let ghost before = out@;
        proof {
            if p < before.len() {
                assert forall|k: int| p <= k < before.len() implies lex_lt(item.0@, #[trigger] before[k].0@) by {
                    if k > p {
                        assert(!lex_lt(before[k].0@, before[p as int].0@));
                        lemma_lex_total(before[k].0@, before[p as int].0@);
                        if before[k].0@ != before[p as int].0@ {
                            lemma_lex_transitive(item.0@, before[p as int].0@, before[k].0@);
                        }
                    }
                }
            }
        }
        out.insert(p, item);
        proof {
            assert(out@ == before.insert(p as int, item));
            assert forall|i: int, j: int| 0 <= i < j < out@.len() implies !lex_lt(#[trigger] out@[j].0@, #[trigger] out@[i].0@) by {
                if i < p && j == p {
                } else if i == p && j > p {
                    assert(out@[j] == before[j - 1]);
                    lemma_lex_irreflexive(item.0@);
                    if lex_lt(out@[j].0@, item.0@) {
                        lemma_lex_transitive(item.0@, before[j - 1].0@, item.0@);
                    }
                } else if i < p && j > p {
                    assert(out@[i] == before[i]);
                    assert(out@[j] == before[j - 1]);
                } else if j < p {
                    assert(out@[i] == before[i]);
                    assert(out@[j] == before[j]);
                } else {
                    assert(out@[i] == before[i - 1]);
                    assert(out@[j] == before[j - 1]);
                }
            }
            vstd::seq_lib::to_multiset_insert(before, p as int, item);
            assert(input.take(taken + 1) =~= input.take(taken as int).push(item));
            vstd::seq_lib::to_multiset_build(input.take(taken as int), item);
        }
        taken = taken + 1;
    }
    assert(input.take(input.len() as int) =~= input);
    out
}

} // verus!
