//! Bitcoin Inquisition releases: which tag a request names, which asset of a
//! release fits the host, and what installing it takes.

use vstd::prelude::*;
use crate::error::InqError;
use crate::text::{opt_view, string_views, strip_v, str_eq, strip_v_prefix};

verus! {

/// One downloadable file of a release.
#[derive(Debug, Clone)]
pub struct GitHubAsset {
    pub name: String,
    pub browser_download_url: String,
}

/// One release as the release list describes it.
#[derive(Debug, Clone)]
pub struct GitHubRelease {
    pub tag_name: String,
    pub is_latest: bool,
    pub assets: Vec<GitHubAsset>,
}

/// What installing a release asset takes: the release's tag, the asset's file
/// name and the address it is downloaded from.
#[derive(Debug, Clone)]
pub struct InstallPlan {
    pub tag: String,
    pub asset_name: String,
    pub download_url: String,
}

/// Whether a release tag answers a request: the tag itself, the tag without
/// its leading `v`, or the request with a `v` in front.
pub open spec fn tag_matches(requested: Seq<char>, tag: Seq<char>) -> bool {
    ||| tag == requested
    ||| strip_v(tag) == requested
    ||| tag == seq!['v'] + requested
}

/// The tag of the first release marked as the latest one.
pub open spec fn first_latest_tag(rs: Seq<GitHubRelease>) -> Option<Seq<char>>
    decreases rs.len(),
{
    if rs.len() == 0 {
        None
    } else if rs[0].is_latest {
        Some(rs[0].tag_name@)
    } else {
        first_latest_tag(rs.drop_first())
    }
}

/// The tag of the first release whose tag answers the request.
pub open spec fn first_matching_tag(rs: Seq<GitHubRelease>, requested: Seq<char>) -> Option<
    Seq<char>,
>
    decreases rs.len(),
{
    if rs.len() == 0 {
        None
    } else if tag_matches(requested, rs[0].tag_name@) {
        Some(rs[0].tag_name@)
    } else {
        first_matching_tag(rs.drop_first(), requested)
    }
}

/// Whether a request asks for the latest release: no tag, or the word `latest`.
pub open spec fn asks_latest(requested: Option<Seq<char>>) -> bool {
    match requested {
        None => true,
        Some(r) => r == "latest"@,
    }
}

/// The tag a request resolves to, if any.
pub open spec fn resolved_tag(requested: Option<Seq<char>>, rs: Seq<GitHubRelease>) -> Option<
    Seq<char>,
> {
    if asks_latest(requested) {
        first_latest_tag(rs)
    } else {
        first_matching_tag(rs, requested.unwrap())
    }
}

/// The error for a request that resolves to no tag.
pub open spec fn is_resolution_error(requested: Option<&str>, e: InqError) -> bool {
    if asks_latest(opt_view(requested)) {
        e == InqError::LatestReleaseUnknown
    } else {
        e matches InqError::UnknownReleaseTag(s) && s@ == requested.unwrap()@
    }
}

/// The asset suffix for a host operating system and architecture.
pub open spec fn platform_suffix(os: Seq<char>, arch: Seq<char>) -> Option<Seq<char>> {
    if os == "linux"@ && arch == "x86_64"@ {
        Some("x86_64-linux-gnu.tar.gz"@)
    } else if os == "linux"@ && arch == "aarch64"@ {
        Some("aarch64-linux-gnu.tar.gz"@)
    } else if os == "macos"@ && arch == "x86_64"@ {
        Some("x86_64-apple-darwin-unsigned.tar.gz"@)
    } else if os == "macos"@ && (arch == "aarch64"@ || arch == "arm64"@) {
        Some("arm64-apple-darwin-unsigned.tar.gz"@)
    } else if os == "windows"@ && arch == "x86_64"@ {
        Some("win64-codesigning.tar.gz"@)
    } else {
        None
    }
}

/// The file name of the release asset for a tag and a platform suffix.
pub open spec fn asset_file_name(tag: Seq<char>, suffix: Seq<char>) -> Seq<char> {
    "bitcoin-"@ + strip_v(tag) + "-"@ + suffix
}

/// The first release with exactly the given tag.
pub open spec fn first_release_tagged(rs: Seq<GitHubRelease>, tag: Seq<char>) -> Option<
    GitHubRelease,
>
    decreases rs.len(),
{
    if rs.len() == 0 {
        None
    } else if rs[0].tag_name@ == tag {
        Some(rs[0])
    } else {
        first_release_tagged(rs.drop_first(), tag)
    }
}

/// The first asset with exactly the given name.
pub open spec fn first_asset_named(assets: Seq<GitHubAsset>, name: Seq<char>) -> Option<
    GitHubAsset,
>
    decreases assets.len(),
{
    if assets.len() == 0 {
        None
    } else if assets[0].name@ == name {
        Some(assets[0])
    } else {
        first_asset_named(assets.drop_first(), name)
    }
}

proof fn lemma_found_asset_has_name(assets: Seq<GitHubAsset>, name: Seq<char>)
    ensures
        first_asset_named(assets, name) matches Some(a) ==> a.name@ == name,
    decreases assets.len(),
{
    if assets.len() > 0 && assets[0].name@ != name {
        lemma_found_asset_has_name(assets.drop_first(), name);
    }
}

/// The tag with one leading `v` removed, as a new string.
pub fn normalize_tag(tag: &str) -> (s: String)
    ensures
        s@ == strip_v(tag@),
{
    String::from_str(strip_v_prefix(tag))
}

proof fn lemma_skip_step<T>(s: Seq<T>, i: int)
    requires
        0 <= i < s.len(),
    ensures
        s.skip(i).len() > 0,
        s.skip(i)[0] == s[i],
        s.skip(i).drop_first() == s.skip(i + 1),
{
    assert(s.skip(i).drop_first() =~= s.skip(i + 1));
}

fn find_latest_tag(releases: &[GitHubRelease]) -> (r: Option<String>)
    ensures
        r matches Some(t) ==> first_latest_tag(releases@) == Some(t@),
        r is None ==> first_latest_tag(releases@) is None,
{
    let n = releases.len();
    let mut i: usize = 0;
    assert(releases@.skip(0) =~= releases@);
    while i < n
        invariant
            n == releases@.len(),
            i <= n,
            first_latest_tag(releases@) == first_latest_tag(releases@.skip(i as int)),
        decreases n - i,
    {
        proof {
            lemma_skip_step(releases@, i as int);
        }
        if releases[i].is_latest {
            return Some(releases[i].tag_name.clone());
        }
        i = i + 1;
    }
    assert(releases@.skip(n as int).len() == 0);
    None
}

fn find_matching_tag(releases: &[GitHubRelease], requested: &str) -> (r: Option<String>)
    ensures
        r matches Some(t) ==> first_matching_tag(releases@, requested@) == Some(t@),
        r is None ==> first_matching_tag(releases@, requested@) is None,
{
    proof {
        reveal_strlit("v");
    }
    let mut prefixed = String::from_str("v");
    prefixed.append(requested);
    assert(prefixed@ == seq!['v'] + requested@);
    let n = releases.len();
    let mut i: usize = 0;
    assert(releases@.skip(0) =~= releases@);
    while i < n
        invariant
            n == releases@.len(),
            i <= n,
            prefixed@ == seq!['v'] + requested@,
            first_matching_tag(releases@, requested@) == first_matching_tag(
                releases@.skip(i as int),
                requested@,
            ),
        decreases n - i,
    {
        proof {
            lemma_skip_step(releases@, i as int);
        }
        let tag = releases[i].tag_name.as_str();
        if str_eq(tag, requested) || str_eq(strip_v_prefix(tag), requested) || str_eq(
            tag,
            prefixed.as_str(),
        ) {
            return Some(releases[i].tag_name.clone());
        }
        i = i + 1;
    }
    assert(releases@.skip(n as int).len() == 0);
    None
}

/// The tag of the release that a request names: with no request or the word
/// `latest`, the first release marked latest; otherwise the first release
/// whose tag is the request, is the request after dropping its leading `v`,
/// or is the request with a `v` in front.
pub fn resolve_release_tag(requested: Option<&str>, releases: &[GitHubRelease]) -> (res: Result<
    String,
    InqError,
>)
    ensures
        match resolved_tag(opt_view(requested), releases@) {
            Some(t) => res matches Ok(s) && s@ == t,
            None => res matches Err(e) && is_resolution_error(requested, e),
        },
{
    match requested {
        Some(r) => {
            if str_eq(r, "latest") {
                match find_latest_tag(releases) {
                    Some(t) => Ok(t),
                    None => Err(InqError::LatestReleaseUnknown),
                }
            } else {
                match find_matching_tag(releases, r) {
                    Some(t) => Ok(t),
                    None => Err(InqError::UnknownReleaseTag(String::from_str(r))),
                }
            }
        },
        None => match find_latest_tag(releases) {
            Some(t) => Ok(t),
            None => Err(InqError::LatestReleaseUnknown),
        },
    }
}

fn platform_suffix_for(os: &str, arch: &str) -> (r: Option<&'static str>)
    ensures
        r matches Some(s) ==> platform_suffix(os@, arch@) == Some(s@),
        r is None ==> platform_suffix(os@, arch@) is None,
{
    if str_eq(os, "linux") && str_eq(arch, "x86_64") {
        Some("x86_64-linux-gnu.tar.gz")
    } else if str_eq(os, "linux") && str_eq(arch, "aarch64") {
        Some("aarch64-linux-gnu.tar.gz")
    } else if str_eq(os, "macos") && str_eq(arch, "x86_64") {
        Some("x86_64-apple-darwin-unsigned.tar.gz")
    } else if str_eq(os, "macos") && (str_eq(arch, "aarch64") || str_eq(arch, "arm64")) {
        Some("arm64-apple-darwin-unsigned.tar.gz")
    } else if str_eq(os, "windows") && str_eq(arch, "x86_64") {
        Some("win64-codesigning.tar.gz")
    } else {
        None
    }
}

/// The file name of the release asset for a tag on the given host
/// (`std::env::consts::OS` and `ARCH`), or the refusal for a host without one.
pub fn inquisition_asset_name(tag: &str, os: &str, arch: &str) -> (res: Result<String, InqError>)
    ensures
        match platform_suffix(os@, arch@) {
            Some(suffix) => res matches Ok(s) && s@ == asset_file_name(tag@, suffix),
            None => res == Err::<String, InqError>(InqError::UnsupportedPlatform),
        },
{
    match platform_suffix_for(os, arch) {
        Some(suffix) => {
            let mut s = String::from_str("bitcoin-");
            s.append(strip_v_prefix(tag));
            s.append("-");
            s.append(suffix);
            Ok(s)
        },
        None => Err(InqError::UnsupportedPlatform),
    }
}

fn find_release_tagged(releases: &[GitHubRelease], tag: &str) -> (r: Option<usize>)
    ensures
        r matches Some(i) ==> i < releases@.len() && first_release_tagged(releases@, tag@) == Some(
            releases@[i as int],
        ),
        r is None ==> first_release_tagged(releases@, tag@) is None,
{
    let n = releases.len();
    let mut i: usize = 0;
    assert(releases@.skip(0) =~= releases@);
    while i < n
        invariant
            n == releases@.len(),
            i <= n,
            first_release_tagged(releases@, tag@) == first_release_tagged(
                releases@.skip(i as int),
                tag@,
            ),
        decreases n - i,
    {
        proof {
            lemma_skip_step(releases@, i as int);
        }
        if str_eq(releases[i].tag_name.as_str(), tag) {
            return Some(i);
        }
        i = i + 1;
    }
    assert(releases@.skip(n as int).len() == 0);
    None
}

fn find_asset_named(assets: &Vec<GitHubAsset>, name: &str) -> (r: Option<usize>)
    ensures
        r matches Some(i) ==> i < assets@.len() && first_asset_named(assets@, name@) == Some(
            assets@[i as int],
        ),
        r is None ==> first_asset_named(assets@, name@) is None,
{
    let n = assets.len();
    let mut i: usize = 0;
    assert(assets@.skip(0) =~= assets@);
    while i < n
        invariant
            n == assets@.len(),
            i <= n,
            first_asset_named(assets@, name@) == first_asset_named(assets@.skip(i as int), name@),
        decreases n - i,
    {
        proof {
            lemma_skip_step(assets@, i as int);
        }
        if str_eq(assets[i].name.as_str(), name) {
            return Some(i);
        }
        i = i + 1;
    }
    assert(assets@.skip(n as int).len() == 0);
    None
}

/// What installing the requested release takes, from the release list and
/// the host: the resolved tag, the asset of that release whose name fits the
/// host, and its download address; or the first refusal met on the way, in
/// the order: unresolved tag, unsupported host, missing release entry,
/// missing asset.
pub fn plan_inquisition_install(
    version: &str,
    releases: &[GitHubRelease],
    os: &str,
    arch: &str,
) -> (res: Result<InstallPlan, InqError>)
    ensures
        match resolved_tag(Some(version@), releases@) {
            None => res matches Err(e) && is_resolution_error(Some(version), e),
            Some(t) => match platform_suffix(os@, arch@) {
                None => res == Err::<InstallPlan, InqError>(InqError::UnsupportedPlatform),
                Some(suffix) => match first_release_tagged(releases@, t) {
                    None => res matches Err(InqError::ReleaseMetadataMissing(s)) && s@ == t,
                    Some(rel) => match first_asset_named(rel.assets@, asset_file_name(t, suffix)) {
                        None => res matches Err(InqError::AssetNotFound(s)) && s@
                            == asset_file_name(t, suffix),
                        Some(a) => res matches Ok(p) && p.tag@ == t && p.asset_name@ == a.name@
                            && p.asset_name@ == asset_file_name(t, suffix) && p.download_url@
                            == a.browser_download_url@,
                    },
                },
            },
        },
{
    let tag = resolve_release_tag(Some(version), releases)?;
    let asset_name = inquisition_asset_name(tag.as_str(), os, arch)?;
    let ri = match find_release_tagged(releases, tag.as_str()) {
        Some(i) => i,
        None => {
            return Err(InqError::ReleaseMetadataMissing(tag));
        },
    };
    let release = &releases[ri];
    let ai = match find_asset_named(&release.assets, asset_name.as_str()) {
        Some(i) => i,
        None => {
            return Err(InqError::AssetNotFound(asset_name));
        },
    };
    let asset = &release.assets[ai];
    proof {
        lemma_found_asset_has_name(release.assets@, asset_name@);
    }
    Ok(
        InstallPlan {
            tag,
            asset_name: asset.name.clone(),
            download_url: asset.browser_download_url.clone(),
        },
    )
}

/// What the `inquisition` command does: with no version given, list the
/// tags of the available releases; with one, install that release.
#[derive(Debug, Clone)]
pub enum InquisitionAction {
    /// Print these release tags, one per line, and install nothing.
    ListReleases(Vec<String>),
    /// Download and install as planned.
    Install(InstallPlan),
}

/// The tags of the releases, in list order.
pub open spec fn release_tag_views(rs: Seq<GitHubRelease>) -> Seq<Seq<char>> {
    rs.map_values(|r: GitHubRelease| r.tag_name@)
}

/// The tags of the releases, in list order.
pub fn release_tags(releases: &[GitHubRelease]) -> (tags: Vec<String>)
    ensures
        string_views(tags@) == release_tag_views(releases@),
{
    let n = releases.len();
    let mut tags: Vec<String> = Vec::new();
    let mut i: usize = 0;
    while i < n
        invariant
            n == releases@.len(),
            i <= n,
            string_views(tags@) =~= release_tag_views(releases@.take(i as int)),
        decreases n - i,
    {
        let ghost before = tags@;
        tags.push(releases[i].tag_name.clone());
        proof {
            assert(string_views(tags@) =~= string_views(before).push(releases@[i as int].tag_name@));
            assert(release_tag_views(releases@.take(i + 1)) =~= release_tag_views(
                releases@.take(i as int),
            ).push(releases@[i as int].tag_name@));
        }
        i = i + 1;
    }
    assert(releases@.take(n as int) =~= releases@);
    tags
}

/// What the `inquisition` command does with the release list on this host:
/// with no version, list every release tag in order; with a version, the
/// install that `plan_inquisition_install` plans, or its refusal.
pub fn inquisition_action(
    version: Option<&str>,
    releases: &[GitHubRelease],
    os: &str,
    arch: &str,
) -> (res: Result<InquisitionAction, InqError>)
    ensures
        version is None ==> (res matches Ok(InquisitionAction::ListReleases(tags)) && string_views(
            tags@,
        ) == release_tag_views(releases@)),
        version matches Some(v) ==> match resolved_tag(Some(v@), releases@) {
            None => res matches Err(e) && is_resolution_error(Some(v), e),
            Some(t) => match platform_suffix(os@, arch@) {
                None => res == Err::<InquisitionAction, InqError>(InqError::UnsupportedPlatform),
                Some(suffix) => match first_release_tagged(releases@, t) {
                    None => res matches Err(InqError::ReleaseMetadataMissing(s)) && s@ == t,
                    Some(rel) => match first_asset_named(rel.assets@, asset_file_name(t, suffix)) {
                        None => res matches Err(InqError::AssetNotFound(s)) && s@
                            == asset_file_name(t, suffix),
                        Some(a) => res matches Ok(InquisitionAction::Install(p)) && p.tag@ == t
                            && p.asset_name@ == asset_file_name(t, suffix) && p.download_url@
                            == a.browser_download_url@,
                    },
                },
            },
        },
{
    match version {
        None => Ok(InquisitionAction::ListReleases(release_tags(releases))),
        Some(v) => match plan_inquisition_install(v, releases, os, arch) {
            Ok(p) => Ok(InquisitionAction::Install(p)),
            Err(e) => Err(e),
        },
    }
}

} // verus!
