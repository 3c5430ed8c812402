//! Template packs on GitHub: pack specifiers, download URLs, and which listed
//! entries are template files.
use vstd::prelude::*;

use crate::text::{owned, str_eq, views};

verus! {

/// Base URL of raw files in the oag repository.
pub const RAW_BASE: &'static str = "https://raw.githubusercontent.com/urmzd/oag";

/// Base URL of the GitHub contents API for the repository's packs.
pub const API_BASE: &'static str = "https://api.github.com/repos/urmzd/oag/contents/packs";

/// The packs published in the oag repository.
pub open spec fn known_pack_names() -> Seq<Seq<char>> {
    seq!["node-client"@, "react-swr-client"@, "fastapi-server"@]
}

/// The packs published in the oag repository.
pub fn known_packs() -> (r: Vec<&'static str>)
    ensures
        r@.map_values(|s: &str| s@) == known_pack_names(),
{
    let r = vec!["node-client", "react-swr-client", "fastapi-server"];
    assert(r@.map_values(|s: &str| s@) =~= known_pack_names());
    r
}

/// The position of the first `c` in `s`, if any.
pub open spec fn first_index_of(s: Seq<char>, c: char) -> Option<int>
    decreases s.len(),
{
    if s.len() == 0 {
        None
    } else if s.last() == c && first_index_of(s.drop_last(), c) is None {
        Some(s.len() - 1)
    } else {
        first_index_of(s.drop_last(), c)
    }
}

/// The (pack id, git ref) a specifier names: split at the first `@` when a
/// non-empty ref follows it, else the whole specifier at `main`.
pub open spec fn pack_spec_parts(s: Seq<char>) -> (Seq<char>, Seq<char>) {
    match first_index_of(s, '@') {
        Some(i) => if i + 1 < s.len() { (s.subrange(0, i), s.subrange(i + 1, s.len() as int)) } else { (s, "main"@) },
        None => (s, "main"@),
    }
}

/// Parses a pack specifier like `node-client@v0.15.0` into `(pack_id, git_ref)`.
/// Without a ref after an `@`, returns `(specifier, "main")`.
pub fn parse_pack_specifier(specifier: &str) -> (r: (&str, &str))
    ensures
        (r.0@, r.1@) == pack_spec_parts(specifier@),
{
    let n = specifier.unicode_len();
    let mut i: usize = 0;
    while i < n
        invariant
            n == specifier@.len(),
            i <= n,
            first_index_of(specifier@.take(i as int), '@') is None,
        decreases n - i,
    {
        assert(specifier@.take(i + 1).drop_last() =~= specifier@.take(i as int));
        if specifier.get_char(i) == '@' {
            proof {
                lemma_first_index_prefix(specifier@, i as int);
            }
            if i + 1 < n {
                return (specifier.substring_char(0, i), specifier.substring_char(i + 1, n));
            }
            proof {
                reveal_strlit("main");
            }
            return (specifier, "main");
        }
        i = i + 1;
    }
    assert(specifier@.take(n as int) =~= specifier@);
    proof {
        reveal_strlit("main");
    }
    (specifier, "main")
}

/// When the first `@` of `s` is at `i`, no earlier `@` exists, and it stays the
/// first `@` of `s`.
proof fn lemma_first_index_prefix(s: Seq<char>, i: int)
    requires
        0 <= i < s.len(),
        s[i] == '@',
        first_index_of(s.take(i), '@') is None,
    ensures
        first_index_of(s, '@') == Some(i),
    decreases s.len() - i,
{
    if i + 1 == s.len() {
        assert(s.drop_last() =~= s.take(i));
    } else {
        assert(s.drop_last().take(i) =~= s.take(i));
        lemma_first_index_prefix(s.drop_last(), i);
    }
}

/// The raw URL of a pack's manifest at a git ref.
pub fn pack_toml_url(pack_id: &str, git_ref: &str) -> (r: String)
    ensures
        r@ == RAW_BASE@ + "/"@ + git_ref@ + "/packs/"@ + pack_id@ + "/oag.pack.toml"@,
{
    owned(RAW_BASE).concat("/").concat(git_ref).concat("/packs/").concat(pack_id).concat("/oag.pack.toml")
}

/// The contents-API URL listing a pack's templates at a git ref.
pub fn templates_api_url(pack_id: &str, git_ref: &str) -> (r: String)
    ensures
        r@ == API_BASE@ + "/"@ + pack_id@ + "/templates?ref="@ + git_ref@,
{
    owned(API_BASE).concat("/").concat(pack_id).concat("/templates?ref=").concat(git_ref)
}

/// The raw URL of one template of a pack at a git ref (not the listing's
/// download URL, which may point at another ref).
pub fn template_file_url(pack_id: &str, git_ref: &str, name: &str) -> (r: String)
    ensures
        r@ == RAW_BASE@ + "/"@ + git_ref@ + "/packs/"@ + pack_id@ + "/templates/"@ + name@,
{
    owned(RAW_BASE).concat("/").concat(git_ref).concat("/packs/").concat(pack_id).concat("/templates/").concat(name)
}

/// An entry of a GitHub contents listing.
#[derive(Debug)]
pub struct GitHubContent {
    pub name: String,
    /// `file`, `dir`, ...
    pub entry_type: String,
    pub download_url: Option<String>,
    pub url: String,
}

/// The names of the listed entries that are files, in listing order.
pub open spec fn file_entry_names(entries: Seq<GitHubContent>) -> Seq<Seq<char>>
    decreases entries.len(),
{
    if entries.len() == 0 {
        Seq::empty()
    } else {
        let rest = file_entry_names(entries.drop_last());
        if entries.last().entry_type@ == "file"@ { rest.push(entries.last().name@) } else { rest }
    }
}

/// The templates to download: the names of the listed files.
pub fn template_file_names(entries: &Vec<GitHubContent>) -> (r: Vec<String>)
    ensures
        views(r@) == file_entry_names(entries@),
{
    let mut out: Vec<String> = Vec::new();
    let mut i: usize = 0;
    assert(entries@.take(0) =~= Seq::<GitHubContent>::empty());
    while i < entries.len()
        invariant
            i <= entries@.len(),
            views(out@) == file_entry_names(entries@.take(i as int)),
        decreases entries@.len() - i,
    {
        assert(entries@.take(i + 1).drop_last() =~= entries@.take(i as int));
        let ghost before = views(out@);
        if str_eq(entries[i].entry_type.as_str(), "file") {
            out.push(entries[i].name.clone());
            assert(views(out@) =~= before.push(entries@[i as int].name@));
        }
        i = i + 1;
    }
    assert(entries@.take(entries@.len() as int) =~= entries@);
    out
}

/// How a download answered.
#[derive(Debug, Clone, Copy, PartialEq, Eq, Structural)]
pub enum FetchVerdict {
    Fetched,
    /// 404.
    NotFound,
    /// Any other status from 400 up.
    HttpError,
}

/// Classifies an HTTP status: 404 is not found, other statuses from 400 up are errors.
pub fn fetch_verdict(status: u16) -> (r: FetchVerdict)
    ensures
        r == if status == 404 {
            FetchVerdict::NotFound
        } else if status >= 400 {
            FetchVerdict::HttpError
        } else {
            FetchVerdict::Fetched
        },
{
    if status == 404 {
        FetchVerdict::NotFound
    } else if status >= 400 {
        FetchVerdict::HttpError
    } else {
        FetchVerdict::Fetched
    }
}

/// The error for a URL that answered 404.
pub fn not_found_message(url: &str) -> (r: String)
    ensures
        r@ == "not found (404): "@ + url@,
{
    owned("not found (404): ").concat(url)
}

} // verus!
