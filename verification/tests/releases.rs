use eiyah::device::{
    device_poll_action, ensure_next_poll_before_deadline, increase_device_poll_interval,
    poll_device_token, write_device_instructions, Authorization, DeviceCodeResponse,
    DevicePollAction, DeviceTokenResponse, PollEvent, SECOND,
};
use eiyah::host::{Fault, FaultKind, Reply};
use eiyah::private_release::{
    fetch_private_release, parse_show_cad_status_checksum, private_asset_url, private_release_info,
    private_release_url, PrivateReleaseAsset, PrivateReleaseResponse, SHOW_CAD_STATUS_ASSET_NAME,
    SHOW_CAD_STATUS_CHECKSUM_ASSET_NAME,
};
use eiyah::release::{
    is_at_most, parse_checksum, parse_release_version, release_info, require_https_url,
    select_release_assets, validate_release_version, verify_checksum, Release, ReleaseAsset,
    BINARY_ASSET_NAME, CHECKSUM_ASSET_NAME, SHA256_HEX_LENGTH,
};
use eiyah::update::validate_eiyah_binary;

fn text(value: &str) -> String {
    value.to_owned()
}

fn release_asset(name: &str) -> ReleaseAsset {
    ReleaseAsset { name: text(name), browser_download_url: format!("https://example.com/{name}") }
}

fn private_release_asset(name: &str, id: u64) -> PrivateReleaseAsset {
    PrivateReleaseAsset { name: text(name), id }
}

fn stable_private_release() -> PrivateReleaseResponse {
    PrivateReleaseResponse {
        tag_name: text("v1.2.3"),
        draft: false,
        prerelease: false,
        assets: vec![
            private_release_asset(SHOW_CAD_STATUS_ASSET_NAME, 101),
            private_release_asset(SHOW_CAD_STATUS_CHECKSUM_ASSET_NAME, 102),
        ],
    }
}

fn stable_release() -> Release {
    Release {
        tag_name: text("v1.2.3"),
        draft: false,
        prerelease: false,
        assets: vec![
            ReleaseAsset {
                name: text(BINARY_ASSET_NAME),
                browser_download_url: text("https://example.com/binary"),
            },
            ReleaseAsset {
                name: text(CHECKSUM_ASSET_NAME),
                browser_download_url: text("https://example.com/checksum"),
            },
        ],
    }
}

fn builds_release_info() {
    let response = stable_release();
    let version = validate_release_version(&response).unwrap();
    let release = release_info(response, version).unwrap();
    assert_eq!(release.version, "1.2.3");
    assert_eq!(release.binary_url, "https://example.com/binary");
    assert_eq!(release.checksum_url, "https://example.com/checksum");
}

#[test]
fn install_builds_release_info_from_stable_response() {
    builds_release_info();
}

#[test]
fn update_builds_release_info_from_stable_response() {
    builds_release_info();
}

#[test]
fn update_rejects_unstable_release_response() {
    for (draft, prerelease) in [(true, false), (false, true)] {
        assert!(validate_release_version(&Release {
            tag_name: text("v1.2.3"),
            draft,
            prerelease,
            assets: Vec::new(),
        })
        .is_err());
    }
}

fn parses_versions() {
    assert_eq!(parse_release_version("v1.2.3").unwrap(), "1.2.3");
    for tag in ["1.2.3", "v", "v1", "vv1.2.3", "v01.2.3"] {
        assert!(parse_release_version(tag).is_err(), "{tag}");
    }
}

#[test]
fn install_parses_release_versions() {
    parses_versions();
}

#[test]
fn update_parses_release_versions() {
    parses_versions();
}

fn rejects_assets() {
    assert!(select_release_assets(&vec![release_asset(BINARY_ASSET_NAME)]).is_err());
    assert!(select_release_assets(&vec![
        release_asset(BINARY_ASSET_NAME),
        release_asset(BINARY_ASSET_NAME),
        release_asset(CHECKSUM_ASSET_NAME),
    ])
    .is_err());
    assert!(select_release_assets(&vec![
        release_asset(BINARY_ASSET_NAME),
        release_asset(CHECKSUM_ASSET_NAME),
        release_asset(CHECKSUM_ASSET_NAME),
    ])
    .is_err());
}

#[test]
fn install_rejects_missing_or_duplicate_release_assets() {
    rejects_assets();
}

#[test]
fn update_rejects_missing_or_duplicate_release_assets() {
    rejects_assets();
}

fn rejects_checksums() {
    let digest = "0".repeat(SHA256_HEX_LENGTH);
    for text in [
        format!("{digest} {BINARY_ASSET_NAME}\n"),
        format!("{digest}  wrong-name\n"),
        format!("{}  {BINARY_ASSET_NAME}\n", "A".repeat(SHA256_HEX_LENGTH)),
        format!("{digest}  {BINARY_ASSET_NAME}"),
        format!("{digest}  {BINARY_ASSET_NAME}\nextra\n"),
    ] {
        assert!(parse_checksum(&text).is_err(), "{text:?}");
    }
}

#[test]
fn install_rejects_invalid_checksum_text() {
    rejects_checksums();
}

#[test]
fn update_rejects_invalid_checksum_text() {
    rejects_checksums();
}

/// The SHA-256 digest of `abc`.
const ABC: &str = "ba7816bf8f01cfea414140de5dae2223b00361a396177a9cb410ff61f20015ad";

#[test]
fn parses_and_verifies_checksum() {
    let checksum = parse_checksum(&format!("{ABC}  {BINARY_ASSET_NAME}\n")).unwrap();
    assert_eq!(checksum.len(), 32);
    assert_eq!(checksum[0], 0xba);
    assert_eq!(checksum[31], 0xad);
    assert!(verify_checksum(b"abc", &checksum).is_ok());
    assert_eq!(
        verify_checksum(b"other", &checksum).unwrap_err().full_text(),
        "downloaded Eiyah checksum does not match"
    );
}

#[test]
fn private_checksums_name_the_status_program() {
    let stated = format!("{ABC}  {SHOW_CAD_STATUS_ASSET_NAME}\n");
    let digest = parse_show_cad_status_checksum(stated.as_bytes()).unwrap();
    assert_eq!(digest[1], 0x78);
    assert!(parse_show_cad_status_checksum(format!("{ABC}  {BINARY_ASSET_NAME}\n").as_bytes()).is_err());
    assert_eq!(
        parse_show_cad_status_checksum(&[0xff, 0x0a]).unwrap_err().full_text(),
        "invalid utf-8 sequence of 1 bytes from index 0"
    );
}

fn exited(success: bool, output: &str) -> Reply {
    Reply::Exited {
        success,
        status: text(if success { "exit status: 0" } else { "exit status: 1" }),
        output: output.as_bytes().to_vec(),
        errors: Vec::new(),
    }
}

fn validates_version() {
    let path = b"/prefix/bin/eiyah";
    assert!(validate_eiyah_binary(path, "1.2.3", exited(true, "eiyah 1.2.3\n")).is_ok());
    assert!(validate_eiyah_binary(path, "1.2.4", exited(true, "eiyah 1.2.3\n")).is_err());
}

#[test]
fn install_validates_candidate_version() {
    validates_version();
}

#[test]
fn update_validates_candidate_version() {
    validates_version();
}

#[test]
fn a_program_has_to_run_and_say_its_version() {
    let path = b"/prefix/bin/eiyah";
    assert!(validate_eiyah_binary(path, "1.2.3", exited(false, "eiyah 1.2.3\n")).is_err());
    assert!(validate_eiyah_binary(path, "1.2.3", exited(true, "eiyah 1.2.3 beta\n")).is_err());
    let fault = Fault { kind: FaultKind::NotFound, text: text("not there") };
    assert!(validate_eiyah_binary(path, "1.2.3", Reply::Failed(fault)).is_err());
}

#[test]
fn versions_are_compared_by_their_numbers() {
    assert!(is_at_most("1.2.3", "1.2.3"));
    assert!(is_at_most("1.2.9", "1.2.10"));
    assert!(!is_at_most("2.0.0", "1.99.99"));
    assert!(is_at_most("1.0.0-rc.1", "1.0.0"));
    assert!(!is_at_most("1.0.0", "1.0.0-rc.1"));
}

#[test]
fn downloads_use_https() {
    assert!(require_https_url("https://example.com/x").is_ok());
    assert_eq!(
        require_https_url("http://example.com/x").unwrap_err().full_text(),
        "Release asset URL must use HTTPS: http://example.com/x"
    );
}

#[test]
fn install_parses_and_displays_device_code_response() {
    let device = DeviceCodeResponse {
        device_code: text("secret-device"),
        user_code: text("ABCD-1234"),
        verification_uri: text("https://github.com/login/device"),
        expires_in: 900,
        interval: 5,
    };
    let output = write_device_instructions(&device, false);
    assert_eq!(
        output,
        "First copy your one-time code: ABCD-1234\nThen open https://github.com/login/device in your browser.\nWaiting for authorization...\n"
    );
    assert!(!output.contains(&device.device_code));
    assert_eq!(
        write_device_instructions(&device, true),
        "First copy your one-time code: \x1b[1mABCD-1234\x1b[0m\nThen open https://github.com/login/device in your browser.\nWaiting for authorization...\n"
    );
}

#[test]
fn install_rejects_poll_at_or_after_device_deadline() {
    let now: u128 = 1_000 * SECOND;
    assert!(ensure_next_poll_before_deadline(now, 5, now + 6 * SECOND).is_ok());
    assert!(ensure_next_poll_before_deadline(now, 5, now + 5 * SECOND).is_err());
    assert!(ensure_next_poll_before_deadline(now, 5, now).is_err());
}

#[test]
fn rejects_poll_at_or_after_device_deadline() {
    let now: u128 = 0;
    assert!(ensure_next_poll_before_deadline(now, 5, now + 6 * SECOND).is_ok());
    assert!(ensure_next_poll_before_deadline(now, 5, now + 5 * SECOND).is_err());
    assert!(ensure_next_poll_before_deadline(now, 5, now).is_err());
}

#[test]
fn install_increases_device_poll_interval_after_slow_down() {
    assert_eq!(increase_device_poll_interval(5).unwrap(), 10);
}

#[test]
fn increases_device_poll_interval_after_slow_down() {
    assert_eq!(increase_device_poll_interval(5).unwrap(), 10);
    assert!(increase_device_poll_interval(u64::MAX).is_err());
}

fn answer(token: Option<&str>, error: Option<&str>, description: Option<&str>) -> DeviceTokenResponse {
    DeviceTokenResponse {
        access_token: token.map(text),
        error: error.map(text),
        error_description: description.map(text),
    }
}

#[test]
fn install_classifies_device_token_responses() {
    match device_poll_action(answer(Some("token"), None, None)).unwrap() {
        DevicePollAction::Authorized(token) => assert_eq!(token, "token"),
        other => panic!("{other:?}"),
    }
    assert!(matches!(
        device_poll_action(answer(None, Some("authorization_pending"), None)),
        Ok(DevicePollAction::Pending)
    ));
    assert!(matches!(
        device_poll_action(answer(None, Some("slow_down"), None)),
        Ok(DevicePollAction::SlowDown)
    ));
    for error in ["expired_token", "access_denied", "unexpected"] {
        assert!(device_poll_action(answer(None, Some(error), Some("detail"))).is_err(), "{error}");
    }
    assert!(device_poll_action(answer(Some(""), None, None)).is_err());
}

#[test]
fn authorization_is_polled_until_it_is_given() {
    let device = DeviceCodeResponse {
        device_code: text("secret"),
        user_code: text("CODE"),
        verification_uri: text("https://github.com/login/device"),
        expires_in: 60,
        interval: 5,
    };
    let start: u128 = 10 * SECOND;
    let mut polling = poll_device_token(&device, start).advance(PollEvent::Now(start));
    assert!(matches!(polling, Authorization::Asking { interval: 5, .. }));
    polling = polling.advance(PollEvent::Answered {
        response: answer(None, Some("slow_down"), None),
        now: start + 5 * SECOND,
    });
    polling = match polling {
        Authorization::Checking { interval, deadline } => {
            assert_eq!(interval, 10);
            assert_eq!(deadline, start + 60 * SECOND);
            Authorization::Checking { interval, deadline }.advance(PollEvent::Now(start + 5 * SECOND))
        }
        other => other,
    };
    polling = polling.advance(PollEvent::Answered {
        response: answer(Some("token"), None, None),
        now: start + 15 * SECOND,
    });
    match polling {
        Authorization::Authorized(token) => assert_eq!(token, "token"),
        other => panic!("{other:?}"),
    }
}

#[test]
fn install_builds_private_release_info() {
    let info = private_release_info(stable_private_release()).unwrap();
    assert_eq!(info.tag_name, "v1.2.3");
    assert_eq!(
        info.archive_url,
        "https://api.github.com/repos/su-ito-lab/eiyah-core/tarball/v1.2.3"
    );
    assert_eq!(info.show_cad_status_asset_id, 101);
    assert_eq!(info.show_cad_status_checksum_asset_id, 102);
}

#[test]
fn install_rejects_invalid_private_release() {
    rejects_private_releases();
}

#[test]
fn rejects_invalid_private_release() {
    rejects_private_releases();
}

fn rejects_private_releases() {
    for (draft, prerelease) in [(true, false), (false, true)] {
        let mut release = stable_private_release();
        release.draft = draft;
        release.prerelease = prerelease;
        assert!(private_release_info(release).is_err());
    }

    let mut missing = stable_private_release();
    missing.assets.pop();
    assert!(private_release_info(missing).is_err());

    let mut duplicate = stable_private_release();
    duplicate.assets.push(private_release_asset(SHOW_CAD_STATUS_CHECKSUM_ASSET_NAME, 103));
    assert!(private_release_info(duplicate).is_err());

    let mut empty_tag = stable_private_release();
    empty_tag.tag_name.clear();
    assert!(private_release_info(empty_tag).is_err());
}

#[test]
fn private_addresses_lie_in_the_repository() {
    assert_eq!(
        private_release_url(),
        "https://api.github.com/repos/su-ito-lab/eiyah-core/releases/latest"
    );
    assert_eq!(
        private_asset_url(101),
        "https://api.github.com/repos/su-ito-lab/eiyah-core/releases/assets/101"
    );
    assert!(fetch_private_release(Ok(stable_private_release())).is_ok());
    assert_eq!(
        fetch_private_release(Err(text("timeout"))).unwrap_err().full_text(),
        "failed to fetch latest configuration release: timeout"
    );
}

#[test]
fn a_tag_without_a_version_is_refused_with_the_reason() {
    for (tag, message) in [
        ("v1.2", "invalid release version: v1.2: unexpected end of input while parsing minor version number"),
        ("v01.2.3", "invalid release version: v01.2.3: invalid leading zero in major version number"),
        ("1.2.3", "release tag must start with v: 1.2.3"),
        ("v", "release tag version is empty"),
    ] {
        assert_eq!(parse_release_version(tag).unwrap_err().full_text(), message);
    }
}
