//! Public releases: their versions, their files and the digests of those.

use crate::bytes::{check_hex, decode_hex, ends_with, hex_decoded, hex_encoded, hex_round_trip};
use crate::bytes::{hex_text_round_trip, is_hex_text, same_bytes, split_seq, text_bytes};
use crate::checksum::{sha256, sha256_digest};
use crate::failure::Failure;
use crate::paths::{lemma_split_concat, lemma_split_single};
use crate::text::{chars_of, concat, decimal, has_prefix, number_of, numbers_are_read_back};
use crate::text::{same_text, text_of};
use vstd::prelude::*;
use vstd::utf8::encode_utf8;

verus! {

/// The file of a release that holds the program.
pub const BINARY_ASSET_NAME: &'static str = "eiyah-x86_64-unknown-linux-gnu";

/// The file of a release that holds the digest of the program.
pub const CHECKSUM_ASSET_NAME: &'static str = "eiyah-x86_64-unknown-linux-gnu.sha256";

/// The digits of a SHA-256 digest in hexadecimal.
pub const SHA256_HEX_LENGTH: usize = 64;

/// A file of a release.
#[derive(Debug)]
pub struct ReleaseAsset {
    pub name: String,
    pub browser_download_url: String,
}

/// A release as the server describes it.
#[derive(Debug)]
pub struct Release {
    pub tag_name: String,
    pub draft: bool,
    pub prerelease: bool,
    pub assets: Vec<ReleaseAsset>,
}

/// A release that can be installed.
#[derive(Debug, PartialEq, Eq)]
pub struct ReleaseInfo {
    pub version: String,
    pub binary_url: String,
    pub checksum_url: String,
}

// --------------------------------------------------
// Versions
// --------------------------------------------------

/// What is said of a text that is not a version; nothing where it is one.
pub uninterp spec fn semver_problem(text: Seq<char>) -> Option<Seq<char>>;

/// Whether the text is a version.
pub open spec fn semver_valid(text: Seq<char>) -> bool {
    semver_problem(text) is None
}

/// Whether the first version is at most the second.
pub uninterp spec fn semver_at_most(first: Seq<char>, second: Seq<char>) -> bool;

/// The number of a version field: without a sign and without leading zeros.
pub open spec fn field_number(field: Seq<char>) -> Option<u64> {
    match number_of(field) {
        Some(number) => if decimal(number as nat) == field {
            Some(number)
        } else {
            None
        },
        None => None,
    }
}

/// The numbers of a version without a pre-release and without build metadata.
pub open spec fn plain_version(text: Seq<char>) -> Option<(u64, u64, u64)> {
    let fields = split_seq(text, '.');
    if fields.len() != 3 || field_number(fields[0]) is None || field_number(fields[1]) is None
        || field_number(fields[2]) is None {
        None
    } else {
        Some((field_number(fields[0])->0, field_number(fields[1])->0, field_number(fields[2])->0))
    }
}

/// Whether the first triple of numbers is at most the second, by the first place in
/// which they differ.
pub open spec fn triple_at_most(first: (u64, u64, u64), second: (u64, u64, u64)) -> bool {
    first.0 < second.0 || (first.0 == second.0 && (first.1 < second.1 || (first.1 == second.1
        && first.2 <= second.2)))
}

/// Calls `semver::Version::parse` and shows the version again, or the words of its
/// error. What is shown of a version is the text that was read. A text of three numbers
/// is a version.
#[verifier::external_body]
pub(crate) fn parse_version(text: &str) -> (result: Result<String, String>)
    ensures
        result is Ok <==> semver_problem(text@) is None,
        result is Ok ==> result->Ok_0@ == text@,
        result is Err ==> semver_problem(text@) == Some(result->Err_0@),
        plain_version(text@) is Some ==> result is Ok,
{
    match semver::Version::parse(text) {
        Ok(version) => Ok(version.to_string()),
        Err(error) => Err(error.to_string()),
    }
}

/// Calls `<=` on two `semver::Version`s, where both texts are versions. Every version
/// is at most itself, and versions of three numbers are compared number by number.
#[verifier::external_body]
fn version_at_most(first: &str, second: &str) -> (result: Option<bool>)
    ensures
        result is Some <==> (semver_valid(first@) && semver_valid(second@)),
        result is Some ==> result->0 == semver_at_most(first@, second@),
        first@ == second@ && result is Some ==> result->0 == true,
        compared_plainly(first@, second@, result),
{
    let first = semver::Version::parse(first).ok()?;
    let second = semver::Version::parse(second).ok()?;
    Some(first <= second)
}

/// Whether two versions of three numbers were compared number by number.
pub open spec fn compared_plainly(
    first: Seq<char>,
    second: Seq<char>,
    result: Option<bool>,
) -> bool {
    match (plain_version(first), plain_version(second)) {
        (Some(a), Some(b)) => result == Some(triple_at_most(a, b)),
        _ => true,
    }
}

/// The version of a release tag: what follows the `v`.
pub open spec fn tag_version(tag: Seq<char>) -> Option<Seq<char>> {
    if tag.len() >= 2 && tag[0] == 'v' && semver_valid(tag.drop_first()) {
        Some(tag.drop_first())
    } else {
        None
    }
}

/// Whether the failure is what is said of a tag that has no version.
pub open spec fn refuses_tag(tag: Seq<char>, failure: Failure) -> bool {
    if tag.len() == 0 || tag[0] != 'v' {
        failure.says("release tag must start with v: "@ + tag)
    } else if tag.len() == 1 {
        failure.says("release tag version is empty"@)
    } else {
        semver_problem(tag.drop_first()) is Some && failure.blames(
            "invalid release version: "@ + tag,
            semver_problem(tag.drop_first())->0,
        )
    }
}

/// The version of a release tag.
pub fn parse_release_version(tag: &str) -> (result: Result<String, Failure>)
    ensures
        match tag_version(tag@) {
            Some(version) => result is Ok && result->Ok_0@ == version,
            None => result is Err && refuses_tag(tag@, result->Err_0),
        },
        tag@.len() > 1 && tag@[0] == 'v' && plain_version(tag@.drop_first()) is Some ==> result is Ok,
{
    let chars = chars_of(tag);
    if chars.len() == 0 || chars[0] != 'v' {
        return Err(Failure::plain(&concat("release tag must start with v: ", tag)));
    }
    if chars.len() == 1 {
        return Err(Failure::plain("release tag version is empty"));
    }
    let rest = vstd::slice::slice_subrange(chars.as_slice(), 1, chars.len());
    assert(rest@ =~= tag@.drop_first());
    match parse_version(&text_of(rest)) {
        Ok(version) => Ok(version),
        Err(problem) => Err(
            Failure::caused(&concat("invalid release version: ", tag), &problem),
        ),
    }
}

/// The version of a release that is neither a draft nor a pre-release.
pub fn validate_release_version(release: &Release) -> (result: Result<String, Failure>)
    ensures
        release.draft ==> result is Err && result->Err_0.says("latest Eiyah release is a draft"@),
        !release.draft && release.prerelease ==> result is Err && result->Err_0.says(
            "latest Eiyah release is a prerelease"@,
        ),
        !release.draft && !release.prerelease ==> match tag_version(release.tag_name@) {
            Some(version) => result is Ok && result->Ok_0@ == version,
            None => result is Err && refuses_tag(release.tag_name@, result->Err_0),
        },
        !release.draft && !release.prerelease && release.tag_name@.len() > 1
            && release.tag_name@[0] == 'v' && plain_version(release.tag_name@.drop_first()) is Some
            ==> result is Ok,
{
    if release.draft {
        return Err(Failure::plain("latest Eiyah release is a draft"));
    }
    if release.prerelease {
        return Err(Failure::plain("latest Eiyah release is a prerelease"));
    }
    parse_release_version(&release.tag_name)
}

// --------------------------------------------------
// Files
// --------------------------------------------------

/// Whether an address is one of HTTPS.
pub open spec fn is_https(url: Seq<char>) -> bool {
    "https://"@.is_prefix_of(url)
}

/// Checks that an address is one of HTTPS.
pub fn require_https_url(url: &str) -> (result: Result<(), Failure>)
    ensures
        result is Ok <==> is_https(url@),
        result is Err ==> result->Err_0.says("Release asset URL must use HTTPS: "@ + url@),
{
    if has_prefix(&chars_of(url), &chars_of("https://")) {
        Ok(())
    } else {
        Err(Failure::plain(&concat("Release asset URL must use HTTPS: ", url)))
    }
}

/// The places of the files with this name.
pub open spec fn assets_named(assets: Seq<ReleaseAsset>, name: Seq<char>) -> Seq<Seq<char>>
    decreases assets.len(),
{
    if assets.len() == 0 {
        Seq::empty()
    } else if assets.last().name@ == name {
        assets_named(assets.drop_last(), name).push(assets.last().browser_download_url@)
    } else {
        assets_named(assets.drop_last(), name)
    }
}

/// Why there is no file to be taken.
pub open spec fn asset_problem(urls: Seq<Seq<char>>, name: Seq<char>) -> Option<Seq<char>> {
    if urls.len() == 0 {
        Some("required Release asset is missing: "@ + name)
    } else if urls.len() > 1 {
        Some("required Release asset is duplicated: "@ + name)
    } else if !is_https(urls[0]) {
        Some("Release asset URL must use HTTPS: "@ + urls[0])
    } else {
        None
    }
}

/// The address of the one file with this name.
pub fn select_release_asset(assets: &Vec<ReleaseAsset>, expected_name: &str) -> (result: Result<
    String,
    Failure,
>)
    ensures
        match asset_problem(assets_named(assets@, expected_name@), expected_name@) {
            Some(words) => result is Err && result->Err_0.says(words),
            None => result is Ok && result->Ok_0@ == assets_named(assets@, expected_name@)[0],
        },
{
    let mut found: Option<String> = None;
    let mut count: usize = 0;
    let mut index: usize = 0;
    assert(assets@.take(0) =~= Seq::<ReleaseAsset>::empty());
    while index < assets.len()
        invariant
            index <= assets.len(),
            count <= index,
            count == assets_named(assets@.take(index as int), expected_name@).len(),
            found is Some <==> count > 0,
            count > 0 ==> found->0@ == assets_named(assets@.take(index as int), expected_name@)[0],
        decreases assets.len() - index,
    {
        assert(assets@.take(index + 1).drop_last() =~= assets@.take(index as int));
        let asset = &assets[index];
        if same_text(&asset.name, expected_name) {
            if count == 0 {
                found = Some(asset.browser_download_url.clone());
            }
            count = count + 1;
        }
        index = index + 1;
    }
    assert(assets@.take(index as int) =~= assets@);
    match found {
        None => Err(Failure::plain(&concat("required Release asset is missing: ", expected_name))),
        Some(url) => {
            if count > 1 {
                return Err(
                    Failure::plain(&concat("required Release asset is duplicated: ", expected_name)),
                );
            }
            match require_https_url(&url) {
                Err(failure) => Err(failure),
                Ok(()) => Ok(url),
            }
        },
    }
}

/// Why the files of a release cannot be taken.
pub open spec fn files_problem(assets: Seq<ReleaseAsset>) -> Option<Seq<char>> {
    let binary = asset_problem(assets_named(assets, BINARY_ASSET_NAME@), BINARY_ASSET_NAME@);
    if binary is Some {
        binary
    } else {
        asset_problem(assets_named(assets, CHECKSUM_ASSET_NAME@), CHECKSUM_ASSET_NAME@)
    }
}

/// The addresses of the program and of its digest.
pub fn select_release_assets(assets: &Vec<ReleaseAsset>) -> (result: Result<
    (String, String),
    Failure,
>)
    ensures
        match files_problem(assets@) {
            Some(words) => result is Err && result->Err_0.says(words),
            None => result is Ok && result->Ok_0.0@ == assets_named(assets@, BINARY_ASSET_NAME@)[0]
                && result->Ok_0.1@ == assets_named(assets@, CHECKSUM_ASSET_NAME@)[0],
        },
{
    match select_release_asset(assets, BINARY_ASSET_NAME) {
        Err(failure) => Err(failure),
        Ok(binary) => match select_release_asset(assets, CHECKSUM_ASSET_NAME) {
            Err(failure) => Err(failure),
            Ok(checksum) => Ok((binary, checksum)),
        },
    }
}

/// What is installed of a release.
pub fn release_info(release: Release, version: String) -> (result: Result<ReleaseInfo, Failure>)
    ensures
        match files_problem(release.assets@) {
            Some(words) => result is Err && result->Err_0.says(words),
            None => {
                &&& result is Ok
                &&& result->Ok_0.version == version
                &&& result->Ok_0.binary_url@ == assets_named(release.assets@, BINARY_ASSET_NAME@)[0]
                &&& result->Ok_0.checksum_url@ == assets_named(
                    release.assets@,
                    CHECKSUM_ASSET_NAME@,
                )[0]
                &&& is_https(result->Ok_0.binary_url@)
                &&& is_https(result->Ok_0.checksum_url@)
            },
        },
{
    match select_release_assets(&release.assets) {
        Err(failure) => Err(failure),
        Ok((binary_url, checksum_url)) => Ok(ReleaseInfo { version, binary_url, checksum_url }),
    }
}

/// Whether the first version is at most the second; a text that is no version is not.
pub fn is_at_most(first: &str, second: &str) -> (yes: bool)
    ensures
        yes == (semver_valid(first@) && semver_valid(second@) && semver_at_most(first@, second@)),
        plain_version(first@) is Some && plain_version(second@) is Some ==> yes == triple_at_most(
            plain_version(first@)->0,
            plain_version(second@)->0,
        ),
        semver_valid(first@) && first@ == second@ ==> yes,
{
    match version_at_most(first, second) {
        Some(answer) => answer,
        None => false,
    }
}

// --------------------------------------------------
// Digests
// --------------------------------------------------

/// The digest that a checksum file states for a file of this name: hexadecimal
/// digits, two blanks, the name and a line break.
pub open spec fn stated_digest(contents: Seq<u8>, name: Seq<char>) -> Option<Seq<u8>> {
    let tail = encode_utf8("  "@ + name + "\n"@);
    if contents.len() == SHA256_HEX_LENGTH + tail.len() && tail.is_suffix_of(contents)
        && is_hex_text(contents.take(SHA256_HEX_LENGTH as int)) {
        Some(hex_decoded(contents.take(SHA256_HEX_LENGTH as int)))
    } else {
        None
    }
}

/// What is said of a checksum file that states no digest: where its shape is right,
/// that its digits are wrong.
pub open spec fn digest_problem(
    contents: Seq<u8>,
    name: Seq<char>,
    format_words: Seq<char>,
    hex_words: Seq<char>,
) -> Seq<char> {
    let tail = encode_utf8("  "@ + name + "\n"@);
    if contents.len() == SHA256_HEX_LENGTH + tail.len() && tail.is_suffix_of(contents) {
        hex_words
    } else {
        format_words
    }
}

/// The digest that a checksum file states for a file of this name.
pub fn digest_for(contents: &[u8], name: &str, format_words: &str, hex_words: &str) -> (result:
    Result<Vec<u8>, Failure>)
    ensures
        match stated_digest(contents@, name@) {
            Some(digest) => result is Ok && result->Ok_0@ == digest && digest.len() == 32,
            None => result is Err && result->Err_0.says(
                digest_problem(contents@, name@, format_words@, hex_words@),
            ),
        },
{
    let mut tail = concat("  ", name);
    tail.append("\n");
    let suffix = text_bytes(&tail);
    if contents.len() < SHA256_HEX_LENGTH || contents.len() - SHA256_HEX_LENGTH != suffix.len()
        || !ends_with(contents, &suffix) {
        return Err(Failure::plain(format_words));
    }
    let digits = vstd::slice::slice_subrange(contents, 0, SHA256_HEX_LENGTH);
    assert(digits@ =~= contents@.take(SHA256_HEX_LENGTH as int));
    if !check_hex(digits) {
        return Err(Failure::plain(hex_words));
    }
    Ok(decode_hex(digits))
}

/// The digest of the program that a checksum file states.
pub fn parse_checksum(text: &str) -> (result: Result<Vec<u8>, Failure>)
    ensures
        match stated_digest(encode_utf8(text@), BINARY_ASSET_NAME@) {
            Some(digest) => result is Ok && result->Ok_0@ == digest && digest.len() == 32,
            None => result is Err && result->Err_0.says(
                digest_problem(
                    encode_utf8(text@),
                    BINARY_ASSET_NAME@,
                    "invalid checksum file format"@,
                    "checksum must be lowercase SHA-256 hexadecimal"@,
                ),
            ),
        },
{
    digest_for(
        &text_bytes(text),
        BINARY_ASSET_NAME,
        "invalid checksum file format",
        "checksum must be lowercase SHA-256 hexadecimal",
    )
}

/// Checks that a file that was read has this digest.
pub fn verify_checksum(contents: &[u8], expected: &[u8]) -> (result: Result<(), Failure>)
    ensures
        result is Ok <==> sha256(contents@) == expected@,
        result is Err ==> result->Err_0.says("downloaded Eiyah checksum does not match"@),
{
    if same_bytes(&sha256_digest(contents), expected) {
        Ok(())
    } else {
        Err(Failure::plain("downloaded Eiyah checksum does not match"))
    }
}

// --------------------------------------------------
// Laws
// --------------------------------------------------

/// Three numbers with points between them are a version, and it has these numbers.
pub proof fn three_numbers_are_a_version(major: u64, minor: u64, patch: u64)
    ensures
        plain_version(
            decimal(major as nat) + seq!['.'] + decimal(minor as nat) + seq!['.'] + decimal(
                patch as nat,
            ),
        ) == Some((major, minor, patch)),
{
    let a = decimal(major as nat);
    let b = decimal(minor as nat);
    let c = decimal(patch as nat);
    numbers_are_read_back(major);
    numbers_are_read_back(minor);
    numbers_are_read_back(patch);
    assert(!a.contains('.') && !b.contains('.') && !c.contains('.'));
    let text = a + seq!['.'] + b + seq!['.'] + c;
    let tail = b.push('.') + c;
    assert(text =~= a.push('.') + tail);
    lemma_split_concat(a, '.', tail);
    lemma_split_concat(b, '.', c);
    lemma_split_single(a, '.');
    lemma_split_single(b, '.');
    lemma_split_single(c, '.');
    assert(split_seq(text, '.') =~= seq![a, b, c]);
}

/// Of two versions of three numbers the one is at most the other whose first number
/// that differs is smaller, or all of whose numbers are the same.
pub proof fn the_first_number_that_differs_decides(
    first: (u64, u64, u64),
    second: (u64, u64, u64),
)
    ensures
        first.0 < second.0 ==> triple_at_most(first, second),
        first.0 > second.0 ==> !triple_at_most(first, second),
        first.0 == second.0 && first.1 < second.1 ==> triple_at_most(first, second),
        first.0 == second.0 && first.1 > second.1 ==> !triple_at_most(first, second),
        first.0 == second.0 && first.1 == second.1 ==> triple_at_most(first, second) == (first.2
            <= second.2),
{
}

/// A tag has a version exactly where it is the letter `v` and a version.
pub proof fn a_tag_is_a_letter_and_a_version(tag: Seq<char>)
    ensures
        tag_version(tag) is Some <==> exists|version: Seq<char>|
            tag == #[trigger] (seq!['v'] + version) && version.len() > 0 && semver_problem(version) is None,
        tag_version(tag) is Some ==> tag == seq!['v'] + tag_version(tag)->0,
{
    if tag_version(tag) is Some {
        assert(tag =~= seq!['v'] + tag.drop_first());
    }
    if exists|version: Seq<char>|
        tag == #[trigger] (seq!['v'] + version) && version.len() > 0 && semver_problem(version) is None {
        let version = choose|version: Seq<char>|
            tag == #[trigger] (seq!['v'] + version) && version.len() > 0 && semver_problem(version) is None;
        assert(tag.drop_first() =~= version);
    }
}

/// The files of a release can be taken exactly where of each of the two names there
/// is one file, at an address of HTTPS.
pub proof fn each_file_is_there_once(assets: Seq<ReleaseAsset>, name: Seq<char>)
    ensures
        assets_named(assets, name).len() == assets.filter(
            |asset: ReleaseAsset| asset.name@ == name,
        ).len(),
        asset_problem(assets_named(assets, name), name) is None <==> assets_named(
            assets,
            name,
        ).len() == 1 && assets_named(assets, name)[0].len() >= 8 && assets_named(assets, name)[0].take(
            8,
        ) == seq!['h', 't', 't', 'p', 's', ':', '/', '/'],
        files_problem(assets) is None <==> asset_problem(
            assets_named(assets, "eiyah-x86_64-unknown-linux-gnu"@),
            "eiyah-x86_64-unknown-linux-gnu"@,
        ) is None && asset_problem(
            assets_named(assets, "eiyah-x86_64-unknown-linux-gnu.sha256"@),
            "eiyah-x86_64-unknown-linux-gnu.sha256"@,
        ) is None,
    decreases assets.len(),
{
    reveal_strlit("https://");
    let https = seq!['h', 't', 't', 'p', 's', ':', '/', '/'];
    assert("https://"@ =~= https);
    let wanted = |asset: ReleaseAsset| asset.name@ == name;
    reveal(Seq::filter);
    if assets.len() > 0 {
        each_file_is_there_once(assets.drop_last(), name);
    }
    let urls = assets_named(assets, name);
    if urls.len() == 1 {
        let url = urls[0];
        if https.is_prefix_of(url) {
            assert(url.take(8) =~= https);
        }
        if url.len() >= 8 && url.take(8) == https {
            assert forall|i: int| 0 <= i < 8 implies https[i] == url[i] by {
                assert(url.take(8)[i] == url[i]);
            }
        }
    }
}

/// A checksum file states a digest exactly where it is the sixty-four lower-case
/// hexadecimal digits of the digest, two blanks, the name and a line feed.
pub proof fn a_stated_digest_is_the_digits_before_the_name(
    contents: Seq<u8>,
    name: Seq<char>,
    digest: Seq<u8>,
)
    requires
        digest.len() == 32,
    ensures
        stated_digest(contents, name) == Some(digest) <==> contents == hex_encoded(digest)
            + encode_utf8("  "@ + name + "\n"@),
        stated_digest(contents, name) is Some ==> stated_digest(contents, name)->0.len() == 32,
{
    let tail = encode_utf8("  "@ + name + "\n"@);
    hex_round_trip(digest);
    if stated_digest(contents, name) is Some {
        let digits = contents.take(64);
        hex_text_round_trip(digits);
        assert(contents =~= digits + tail) by {
            assert(contents.skip(64) =~= tail);
        }
    }
    if contents == hex_encoded(digest) + tail {
        assert(contents.take(64) =~= hex_encoded(digest));
        assert(tail.is_suffix_of(contents)) by {
            assert(contents.subrange(contents.len() - tail.len(), contents.len() as int) =~= tail);
        }
    }
}

} // verus!
