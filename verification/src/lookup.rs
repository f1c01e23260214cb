//! Finding programs on the search path.

use vstd::prelude::*;
use crate::error::InqError;

verus! {

/// A file given as a directory and a name within it.
#[derive(Debug, Clone)]
pub struct ExecutablePath {
    pub dir: String,
    pub file: String,
}

/// Calls `std::path::Path::is_file` on `dir` joined with `file`. Whether that
/// path is a file depends on the file system at the time of the call, so
/// nothing is claimed of the result.
#[verifier::external_body]
fn is_executable(path: &ExecutablePath) -> bool {
    std::path::Path::new(&path.dir).join(&path.file).is_file()
}

impl View for ExecutablePath {
    type V = (Seq<char>, Seq<char>);

    open spec fn view(&self) -> (Seq<char>, Seq<char>) {
        (self.dir@, self.file@)
    }
}

/// The directory and file name of each path, in order.
pub open spec fn path_list_views(paths: Seq<ExecutablePath>) -> Seq<(Seq<char>, Seq<char>)> {
    paths.map_values(|p: ExecutablePath| p@)
}

/// Every directory joined with every name, directory by directory, and the
/// names in their order within each directory.
pub open spec fn candidate_views(dirs: Seq<String>, names: Seq<&str>) -> Seq<(Seq<char>, Seq<char>)>
    decreases dirs.len(),
{
    if dirs.len() == 0 {
        Seq::empty()
    } else {
        candidate_views(dirs.drop_last(), names) + names.map_values(
            |n: &str| (dirs.last()@, n@),
        )
    }
}

/// Whether `p` is one of the directories joined with one of the names.
pub open spec fn is_candidate(p: ExecutablePath, dirs: Seq<String>, names: Seq<&str>) -> bool {
    candidate_views(dirs, names).contains(p@)
}

/// The index of the first `true` answer, if any.
pub open spec fn first_true(found: Seq<bool>) -> Option<int> {
    if exists|k: int| 0 <= k < found.len() && found[k] {
        Some(
            choose|k: int|
                0 <= k < found.len() && found[k] && forall|m: int| 0 <= m < k ==> !found[m],
        )
    } else {
        None
    }
}

proof fn lemma_no_names_no_candidates(dirs: Seq<String>, names: Seq<&str>)
    requires
        names.len() == 0,
    ensures
        candidate_views(dirs, names).len() == 0,
    decreases dirs.len(),
{
    if dirs.len() > 0 {
        lemma_no_names_no_candidates(dirs.drop_last(), names);
    }
}

/// Every directory joined with every name, directory by directory, and the
/// names in their order within each directory: the paths that are checked,
/// in the order they are checked.
pub fn candidate_paths(dirs: &Vec<String>, names: &[&str]) -> (v: Vec<ExecutablePath>)
    ensures
        path_list_views(v@) == candidate_views(dirs@, names@),
{
    let nd = dirs.len();
    let nn = names.len();
    let mut v: Vec<ExecutablePath> = Vec::new();
    let mut i: usize = 0;
    while i < nd
        invariant
            nd == dirs@.len(),
            nn == names@.len(),
            i <= nd,
            path_list_views(v@) =~= candidate_views(dirs@.take(i as int), names@),
        decreases nd - i,
    {
        let ghost outer = path_list_views(v@);
        let mut j: usize = 0;
        while j < nn
            invariant
                nd == dirs@.len(),
                nn == names@.len(),
                i < nd,
                j <= nn,
                outer == candidate_views(dirs@.take(i as int), names@),
                path_list_views(v@) =~= outer + names@.take(j as int).map_values(
                    |n: &str| (dirs@[i as int]@, n@),
                ),
            decreases nn - j,
        {
            let p = ExecutablePath { dir: dirs[i].clone(), file: String::from_str(names[j]) };
            let ghost before = v@;
            v.push(p);
            proof {
                assert(path_list_views(v@) =~= path_list_views(before).push(
                    (dirs@[i as int]@, names@[j as int]@),
                ));
                assert(names@.take(j + 1).map_values(|n: &str| (dirs@[i as int]@, n@))
                    =~= names@.take(j as int).map_values(|n: &str| (dirs@[i as int]@, n@)).push(
                    (dirs@[i as int]@, names@[j as int]@),
                ));
            }
            j = j + 1;
        }
        proof {
            assert(names@.take(nn as int) =~= names@);
            assert(dirs@.take(i + 1).drop_last() =~= dirs@.take(i as int));
            assert(dirs@.take(i + 1).last() == dirs@[i as int]);
        }
        i = i + 1;
    }
    assert(dirs@.take(nd as int) =~= dirs@);
    v
}

/// Checks the paths in order until one is a file, and gives the answers: one
/// per path checked, all `false` but possibly the last. The checks stop at
/// the first `true`, and only then end before every path was checked. Which
/// answers come back depends on the file system.
pub fn probe_candidates(cands: &Vec<ExecutablePath>) -> (found: Vec<bool>)
    ensures
        found@.len() <= cands@.len(),
        forall|m: int| 0 <= m < found@.len() - 1 ==> !found@[m],
        found@.len() < cands@.len() ==> found@.len() > 0 && found@[found@.len() - 1],
{
    let n = cands.len();
    let mut found: Vec<bool> = Vec::new();
    let mut k: usize = 0;
    while k < n
        invariant
            n == cands@.len(),
            k <= n,
            found@.len() == k,
            forall|m: int| 0 <= m < k ==> !found@[m],
        decreases n - k,
    {
        let hit = is_executable(&cands[k]);
        found.push(hit);
        if hit {
            return found;
        }
        k = k + 1;
    }
    found
}

/// The index of the first `true` answer, or none where every answer is
/// `false`.
pub fn first_existing(found: &Vec<bool>) -> (r: Option<usize>)
    ensures
        r matches Some(k) ==> k < found@.len() && found@[k as int] && forall|m: int|
            0 <= m < k ==> !found@[m],
        r is None ==> forall|m: int| 0 <= m < found@.len() ==> !found@[m],
        r matches Some(k) ==> first_true(found@) == Some(k as int),
        r is None ==> first_true(found@) is None,
{
    let n = found.len();
    let mut k: usize = 0;
    while k < n
        invariant
            n == found@.len(),
            k <= n,
            forall|m: int| 0 <= m < k ==> !found@[m],
        decreases n - k,
    {
        if found[k] {
            proof {
                let c = choose|c: int|
                    0 <= c < found@.len() && found@[c] && forall|m: int| 0 <= m < c ==> !found@[m];
                assert(0 <= k < found@.len() && found@[k as int] && forall|m: int|
                    0 <= m < k ==> !found@[m]);
                if c < k {
                } else if c > k {
                    assert(!found@[k as int]);
                }
            }
            return Some(k);
        }
        k = k + 1;
    }
    None
}

/// The first of the names, tried in each directory in turn, that is a file
/// there: the paths of `candidate_paths` are checked in order by
/// `probe_candidates`, and `first_existing` picks the answer. Which path that
/// is depends on the file system, so of the result only this is stated: it
/// is one of those paths, and with no directory or no name there is none.
pub fn find_executable(dirs: &Vec<String>, candidates: &[&str]) -> (res: Option<ExecutablePath>)
    ensures
        res matches Some(p) ==> is_candidate(p, dirs@, candidates@),
        dirs@.len() == 0 || candidates@.len() == 0 ==> res is None,
{
    let cands = candidate_paths(dirs, candidates);
    let found = probe_candidates(&cands);
    proof {
        if candidates@.len() == 0 {
            lemma_no_names_no_candidates(dirs@, candidates@);
        }
        assert(path_list_views(cands@).len() == cands@.len());
    }
    match first_existing(&found) {
        Some(k) => {
            let p = ExecutablePath { dir: cands[k].dir.clone(), file: cands[k].file.clone() };
            proof {
                assert(path_list_views(cands@)[k as int] == p@);
            }
            Some(p)
        },
        None => None,
    }
}

/// The names under which bitcoind (or Bitcoin Core's GUI, which also runs a
/// node) is looked for, in order.
pub open spec fn bitcoind_names() -> Seq<&'static str> {
    seq!["bitcoind", "bitcoind.exe", "Bitcoin-Qt", "bitcoin-qt", "bitcoin-qt.exe"]
}

/// The names under which bitcoin-cli is looked for.
pub open spec fn bitcoin_cli_names() -> Seq<&'static str> {
    seq!["bitcoin-cli", "bitcoin-cli.exe"]
}

/// Where bitcoind is: the first of `candidate_paths(path_dirs, names)` that
/// is a file, for the names of `bitcoind_names` (see `find_executable`).
pub fn bitcoind_binary(path_dirs: &Vec<String>) -> (res: Result<ExecutablePath, InqError>)
    ensures
        res matches Ok(p) ==> is_candidate(p, path_dirs@, bitcoind_names()),
        res matches Err(e) ==> e == InqError::BitcoindNotFound,
        path_dirs@.len() == 0 ==> res == Err::<ExecutablePath, InqError>(
            InqError::BitcoindNotFound,
        ),
{
    let names: [&str; 5] = ["bitcoind", "bitcoind.exe", "Bitcoin-Qt", "bitcoin-qt", "bitcoin-qt.exe"];
    assert(names@ == bitcoind_names());
    match find_executable(path_dirs, names.as_slice()) {
        Some(p) => Ok(p),
        None => Err(InqError::BitcoindNotFound),
    }
}

/// Where bitcoin-cli is: the first of `candidate_paths(path_dirs, names)`
/// that is a file, for the names of `bitcoin_cli_names`.
pub fn bitcoin_cli_binary(path_dirs: &Vec<String>) -> (res: Result<ExecutablePath, InqError>)
    ensures
        res matches Ok(p) ==> is_candidate(p, path_dirs@, bitcoin_cli_names()),
        res matches Err(e) ==> e == InqError::BitcoinCliNotFound,
        path_dirs@.len() == 0 ==> res == Err::<ExecutablePath, InqError>(
            InqError::BitcoinCliNotFound,
        ),
{
    let names: [&str; 2] = ["bitcoin-cli", "bitcoin-cli.exe"];
    assert(names@ == bitcoin_cli_names());
    match find_executable(path_dirs, names.as_slice()) {
        Some(p) => Ok(p),
        None => Err(InqError::BitcoinCliNotFound),
    }
}

/// Whether the GitHub command-line tool `gh` is a file in one of the
/// directories of the search path (see `find_executable`).
pub fn gh_exists(path_dirs: &Vec<String>) -> (r: bool)
    ensures
        path_dirs@.len() == 0 ==> !r,
{
    let names: [&str; 1] = ["gh"];
    find_executable(path_dirs, names.as_slice()).is_some()
}

} // verus!
