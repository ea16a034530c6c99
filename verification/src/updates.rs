//! Finding newer versions, and checking what was downloaded.

use vstd::prelude::*;
use vstd::string::*;
use vstd::utf8::*;

use crate::foreign::{find_bytes, is_newer_version, parses_as_version, sha512_hex};
use crate::text::{is_white_space, str_eq};
use crate::traits::ByteSuffixCheck;

verus! {

/// The part that looks for updates is gone.
#[derive(Clone, Copy, Debug, PartialEq, Eq, Structural)]
pub struct UpdateBackendMissing;

/// A file of a release.
#[derive(Debug)]
pub struct ReleaseAsset {
    pub name: String,
    pub download_url: String,
}

/// A published version.
#[derive(Debug)]
pub struct Release {
    pub version: String,
    pub assets: Vec<ReleaseAsset>,
}

/// What went wrong with an update.
#[derive(Debug)]
pub enum UpdateError {
    /// The version of this program is no version.
    OwnVersion,
    /// A server answered with this code, or with nothing.
    InvalidHttpCode(u16),
    ChecksumMismatch { expected: String, got: String },
    /// There are no files for this kind of build.
    ChecksumOrFlavorMissing,
    /// The file with the checksum is empty.
    ChecksumEmpty,
    /// No update was found before.
    AssetsMissing,
}

/// Whether a text occurs in another.
pub open spec fn text_contains(text: Seq<char>, part: Seq<char>) -> bool {
    exists|i: int| #[trigger]
        crate::foreign::occurs_at(encode_utf8(text), encode_utf8(part), i)
}

fn contains(text: &str, part: &str) -> (r: bool)
    ensures
        r == text_contains(text@, part@),
{
    match find_bytes(text.as_bytes(), part.as_bytes()) {
        Some(i) => {
            assert(crate::foreign::occurs_at(encode_utf8(text@), encode_utf8(part@), i as int));
            true
        },
        None => false,
    }
}

/// Whether a release may be chosen: it is newer, and no pre-release unless those are
/// allowed.
pub open spec fn eligible(version: Seq<char>, current: Seq<char>, allow_pre_releases: bool) -> bool {
    &&& allow_pre_releases || !text_contains(version, "pre"@)
    &&& crate::foreign::is_version(version)
    &&& crate::foreign::newer_version(version, current)
}

/// The last of the newest among the first `n` releases that may be chosen.
pub open spec fn newest(
    releases: Seq<Release>,
    n: int,
    current: Seq<char>,
    allow_pre_releases: bool,
) -> Option<int>
    decreases n,
{
    if n <= 0 {
        None
    } else {
        let best = newest(releases, n - 1, current, allow_pre_releases);
        if !eligible(releases[n - 1].version@, current, allow_pre_releases) {
            best
        } else {
            match best {
                Some(i) => if crate::foreign::newer_version(
                    releases[i].version@,
                    releases[n - 1].version@,
                ) {
                    Some(i)
                } else {
                    Some(n - 1)
                },
                None => Some(n - 1),
            }
        }
    }
}

fn may_choose(version: &str, current: &str, allow_pre_releases: bool) -> (r: bool)
    requires
        crate::foreign::is_version(current@),
    ensures
        r == eligible(version@, current@, allow_pre_releases),
        r ==> !crate::foreign::newer_version(version@, version@),
{
    if !allow_pre_releases && contains(version, "pre") {
        return false;
    }
    parses_as_version(version) && is_newer_version(version, current)
}

/// The newest release that is newer than the current version. None that may be
/// chosen is newer than it. An error if the current version is no version.
pub fn find_newest(releases: &Vec<Release>, current: &str, allow_pre_releases: bool) -> (r: Result<
    Option<usize>,
    UpdateError,
>)
    ensures
        r is Ok <==> crate::foreign::is_version(current@),
        r matches Err(e) ==> e == UpdateError::OwnVersion,
        r matches Ok(found) ==> match newest(
            releases@,
            releases@.len() as int,
            current@,
            allow_pre_releases,
        ) {
            Some(i) => found is Some && found->0 == i && 0 <= i < releases@.len(),
            None => found is None,
        },
        r matches Ok(Some(found)) ==> forall|j: int|
            #![trigger releases@[j]]
            0 <= j < releases@.len() && eligible(
                releases@[j].version@,
                current@,
                allow_pre_releases,
            ) ==> !crate::foreign::newer_version(
                releases@[j].version@,
                releases@[found as int].version@,
            ),
        r matches Ok(Some(found)) ==> eligible(
            releases@[found as int].version@,
            current@,
            allow_pre_releases,
        ),
        r matches Ok(None) ==> forall|j: int|
            0 <= j < releases@.len() ==> !eligible(
                (#[trigger] releases@[j]).version@,
                current@,
                allow_pre_releases,
            ),
{
    if !parses_as_version(current) {
        return Err(UpdateError::OwnVersion);
    }
    let mut best: Option<usize> = None;
    let mut i: usize = 0;
    while i < releases.len()
        invariant
            i <= releases@.len(),
            crate::foreign::is_version(current@),
            match newest(releases@, i as int, current@, allow_pre_releases) {
                Some(n) => best is Some && best->0 == n && 0 <= n < i,
                None => best is None,
            },
            best matches Some(b) ==> b < i && eligible(
                releases@[b as int].version@,
                current@,
                allow_pre_releases,
            ),
            best matches Some(b) ==> forall|j: int|
                #![trigger releases@[j]]
                0 <= j < i && eligible(releases@[j].version@, current@, allow_pre_releases)
                    ==> !crate::foreign::newer_version(
                    releases@[j].version@,
                    releases@[b as int].version@,
                ),
            best is None ==> forall|j: int|
                0 <= j < i ==> !eligible(
                    (#[trigger] releases@[j]).version@,
                    current@,
                    allow_pre_releases,
                ),
        decreases releases@.len() - i,
    {
        let version = releases[i].version.as_str();
        if may_choose(version, current, allow_pre_releases) {
            match best {
                Some(b) => {
                    if !is_newer_version(releases[b].version.as_str(), version) {
                        best = Some(i);
                    }
                },
                None => {
                    best = Some(i);
                },
            }
        }
        i += 1;
    }
    Ok(best)
}

/// Whether a file belongs to a kind of build.
pub open spec fn fits(asset: ReleaseAsset, flavor: Seq<char>, target: Seq<char>) -> bool {
    text_contains(asset.name@, target) && text_contains(asset.name@, flavor)
}

/// Whether a file holds a checksum.
pub open spec fn is_checksum(asset: ReleaseAsset) -> bool {
    crate::traits::has_suffix(encode_utf8(asset.name@), encode_utf8(".sha512"@))
}

/// The positions of the first `n` files for a kind of build that hold checksums, or
/// of those that do not.
pub open spec fn files_for(
    assets: Seq<ReleaseAsset>,
    n: int,
    flavor: Seq<char>,
    target: Seq<char>,
    checksums: bool,
) -> Seq<int>
    decreases n,
{
    if n <= 0 {
        Seq::empty()
    } else {
        let before = files_for(assets, n - 1, flavor, target, checksums);
        if fits(assets[n - 1], flavor, target) && is_checksum(assets[n - 1]) == checksums {
            before.push(n - 1)
        } else {
            before
        }
    }
}

/// The archive and the checksum for a kind of build. Each archive comes with one
/// checksum; for a build of a certain flavor there is one of each.
pub open spec fn pair_for(
    assets: Seq<ReleaseAsset>,
    flavor: Seq<char>,
    target: Seq<char>,
    one_pair: bool,
) -> Option<(int, int)> {
    let archives = files_for(assets, assets.len() as int, flavor, target, false);
    let checksums = files_for(assets, assets.len() as int, flavor, target, true);
    if archives.len() == checksums.len() && archives.len() > 0 && (one_pair ==> archives.len()
        == 1) {
        Some((archives[0], checksums[0]))
    } else {
        None
    }
}

/// The positions of the archive and the checksum for a kind of build.
pub fn asset_pair_for(flavor: &str, target: &str, assets: &Vec<ReleaseAsset>, one_pair: bool) -> (r:
    Option<(usize, usize)>)
    ensures
        match pair_for(assets@, flavor@, target@, one_pair) {
            Some((archive, checksum)) => {
                &&& r is Some
                &&& (r->0).0 == archive && (r->0).1 == checksum
                &&& 0 <= archive < assets@.len() && 0 <= checksum < assets@.len()
            },
            None => r is None,
        },
{
    let mut archive: usize = 0;
    let mut archives: usize = 0;
    let mut checksum: usize = 0;
    let mut checksums: usize = 0;
    let mut i: usize = 0;
    while i < assets.len()
        invariant
            i <= assets@.len(),
            archives <= i,
            checksums <= i,
            archives == files_for(assets@, i as int, flavor@, target@, false).len(),
            checksums == files_for(assets@, i as int, flavor@, target@, true).len(),
            archives > 0 ==> archive == files_for(assets@, i as int, flavor@, target@, false)[0]
                && archive < i,
            checksums > 0 ==> checksum == files_for(assets@, i as int, flavor@, target@, true)[0]
                && checksum < i,
        decreases assets@.len() - i,
    {
        let name = assets[i].name.as_str();
        if contains(name, target) && contains(name, flavor) {
            if name.as_bytes().has_byte_suffix(".sha512".as_bytes()) {
                if checksums == 0 {
                    checksum = i;
                }
                checksums += 1;
            } else {
                if archives == 0 {
                    archive = i;
                }
                archives += 1;
            }
        }
        i += 1;
    }
    if archives == checksums && archives > 0 && (!one_pair || archives == 1) {
        Some((archive, checksum))
    } else {
        None
    }
}

/// An update that was found.
#[derive(Debug)]
pub struct FoundUpdate {
    pub version: String,
    pub archive: ReleaseAsset,
    pub checksum: ReleaseAsset,
}

impl ReleaseAsset {
    /// The same file again.
    pub fn duplicate(&self) -> (r: ReleaseAsset)
        ensures
            r == *self,
    {
        ReleaseAsset { name: self.name.clone(), download_url: self.download_url.clone() }
    }
}

/// Looks for the newest release, and for its files for this kind of build.
pub fn check_for_update(
    releases: &Vec<Release>,
    current: &str,
    allow_pre_releases: bool,
    flavor: &str,
    target: &str,
    one_pair: bool,
) -> (r: Result<Option<FoundUpdate>, UpdateError>)
    ensures
        !crate::foreign::is_version(current@) ==> r == Err::<Option<FoundUpdate>, UpdateError>(
            UpdateError::OwnVersion,
        ),
        crate::foreign::is_version(current@) ==> match newest(
            releases@,
            releases@.len() as int,
            current@,
            allow_pre_releases,
        ) {
            None => r == Ok::<Option<FoundUpdate>, UpdateError>(None),
            Some(i) => {
                let assets = releases@[i].assets@;
                match pair_for(assets, flavor@, target@, one_pair) {
                    None => r == Err::<Option<FoundUpdate>, UpdateError>(
                        UpdateError::ChecksumOrFlavorMissing,
                    ),
                    Some((archive, checksum)) => r == Ok::<Option<FoundUpdate>, UpdateError>(
                        Some(
                            FoundUpdate {
                                version: releases@[i].version,
                                archive: assets[archive],
                                checksum: assets[checksum],
                            },
                        ),
                    ),
                }
            },
        },
{
    match find_newest(releases, current, allow_pre_releases) {
        Err(e) => Err(e),
        Ok(None) => Ok(None),
        Ok(Some(i)) => {
            let release = &releases[i];
            match asset_pair_for(flavor, target, &release.assets, one_pair) {
                None => Err(UpdateError::ChecksumOrFlavorMissing),
                Some((archive, checksum)) => Ok(
                    Some(
                        FoundUpdate {
                            version: release.version.clone(),
                            archive: release.assets[archive].duplicate(),
                            checksum: release.assets[checksum].duplicate(),
                        },
                    ),
                ),
            }
        },
    }
}

/// Whether an answer is of use: the server agreed, and there is something in it.
pub fn check_response(status: u16, content_length: Option<u64>) -> (r: Result<(), UpdateError>)
    ensures
        r == (if 200 <= status <= 299 && content_length is Some && content_length->0 > 0 {
            Ok::<(), UpdateError>(())
        } else {
            Err(UpdateError::InvalidHttpCode(status))
        }),
{
    let size: u64 = match content_length {
        Some(n) => n,
        None => 0,
    };
    if 200 <= status && status <= 299 && size > 0 {
        Ok(())
    } else {
        Err(UpdateError::InvalidHttpCode(status))
    }
}

/// A text without the white space that it starts with.
pub open spec fn unindented(s: Seq<char>) -> Seq<char>
    decreases s.len(),
{
    if s.len() > 0 && crate::text::white_space(s[0]) {
        unindented(s.skip(1))
    } else {
        s
    }
}

/// How many characters a text has before its first white space.
pub open spec fn word_len(s: Seq<char>) -> int
    decreases s.len(),
{
    if s.len() == 0 || crate::text::white_space(s[0]) {
        0
    } else {
        1 + word_len(s.skip(1))
    }
}

/// The first word of a text.
pub open spec fn first_word(s: Seq<char>) -> Seq<char> {
    unindented(s).take(word_len(unindented(s)))
}

/// The first word of a text.
pub fn leading_word(s: &str) -> (r: Option<&str>)
    ensures
        r is None <==> first_word(s@).len() == 0,
        r matches Some(word) ==> word@ == first_word(s@),
{
    let len: usize = s.unicode_len();
    let mut start: usize = 0;
    assert(s@.skip(0) =~= s@);
    while start < len && is_white_space(s.get_char(start))
        invariant
            len == s@.len(),
            start <= len,
            unindented(s@) == unindented(s@.skip(start as int)),
        decreases len - start,
    {
        assert(s@.skip(start as int).skip(1) =~= s@.skip(start + 1));
        start += 1;
    }
    let ghost rest = s@.skip(start as int);
    assert(unindented(s@) == rest);
    let mut end: usize = start;
    assert(s@.skip(end as int) =~= rest);
    while end < len && !is_white_space(s.get_char(end))
        invariant
            len == s@.len(),
            start <= end <= len,
            rest == s@.skip(start as int),
            word_len(rest) == (end - start) + word_len(s@.skip(end as int)),
        decreases len - end,
    {
        assert(s@.skip(end as int).skip(1) =~= s@.skip(end + 1));
        end += 1;
    }
    assert(word_len(rest) == end - start);
    assert(rest.take(end - start) =~= s@.subrange(start as int, end as int));
    if end == start {
        None
    } else {
        Some(s.substring_char(start, end))
    }
}

/// Checks what was downloaded against the file with its checksum: that starts with
/// the digest.
pub fn verify_download(checksum_file: &str, data: &[u8]) -> (r: Result<(), UpdateError>)
    ensures
        ({
            let expected = first_word(checksum_file@);
            let got = crate::foreign::sha512_digits(data@);
            if expected.len() == 0 {
                r == Err::<(), UpdateError>(UpdateError::ChecksumEmpty)
            } else if expected == got {
                r is Ok
            } else {
                r matches Err(UpdateError::ChecksumMismatch { expected: e, got: g }) && e@
                    == expected && g@ == got
            }
        }),
{
    let digits = sha512_hex(data);
    check_digest(checksum_file, digits)
}

/// Holds the digest of what was downloaded against the file with its checksum.
pub fn check_digest(checksum_file: &str, digits: String) -> (r: Result<(), UpdateError>)
    ensures
        ({
            let expected = first_word(checksum_file@);
            if expected.len() == 0 {
                r == Err::<(), UpdateError>(UpdateError::ChecksumEmpty)
            } else if expected == digits@ {
                r is Ok
            } else {
                r matches Err(UpdateError::ChecksumMismatch { expected: e, got: g }) && e@
                    == expected && g@ == digits@
            }
        }),
{
    match leading_word(checksum_file) {
        None => Err(UpdateError::ChecksumEmpty),
        Some(expected) => if str_eq(expected, digits.as_str()) {
            Ok(())
        } else {
            Err(UpdateError::ChecksumMismatch { expected: expected.to_owned(), got: digits })
        },
    }
}

/// What the part that looks for updates remembers.
#[derive(Debug)]
pub struct UpdateBackend {
    pub archive_asset: Option<ReleaseAsset>,
    pub checksum_asset: Option<ReleaseAsset>,
}

impl UpdateBackend {
    /// Nothing found yet.
    pub fn new() -> (r: UpdateBackend)
        ensures
            r.archive_asset is None,
            r.checksum_asset is None,
    {
        UpdateBackend { archive_asset: None, checksum_asset: None }
    }

    /// Remembers the files of an update, and says which version it is.
    pub fn remember(&mut self, found: FoundUpdate) -> (version: String)
        ensures
            version == found.version,
            final(self).archive_asset == Some(found.archive),
            final(self).checksum_asset == Some(found.checksum),
    {
        self.archive_asset = Some(found.archive);
        self.checksum_asset = Some(found.checksum);
        found.version
    }

    /// Hands out the archive and the checksum to be downloaded, once.
    pub fn take_assets(&mut self) -> (r: Result<(ReleaseAsset, ReleaseAsset), UpdateError>)
        ensures
            match (old(self).archive_asset, old(self).checksum_asset) {
                (Some(archive), Some(checksum)) => r == Ok::<
                    (ReleaseAsset, ReleaseAsset),
                    UpdateError,
                >((archive, checksum)),
                _ => r == Err::<(ReleaseAsset, ReleaseAsset), UpdateError>(
                    UpdateError::AssetsMissing,
                ),
            },
            final(self).archive_asset is None,
            final(self).checksum_asset is None,
    {
        let mut archive: Option<ReleaseAsset> = None;
        let mut checksum: Option<ReleaseAsset> = None;
        std::mem::swap(&mut archive, &mut self.archive_asset);
        std::mem::swap(&mut checksum, &mut self.checksum_asset);
        match (archive, checksum) {
            (Some(archive), Some(checksum)) => Ok((archive, checksum)),
            _ => Err(UpdateError::AssetsMissing),
        }
    }
}

} // verus!
