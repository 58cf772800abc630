use eiyah::config::{
    create_initial_config, create_install_metadata, discover_install_metadata, is_show_cad_status_enabled,
    load_config, load_install_metadata, parse_config, parse_install_metadata, render_config,
    render_install_metadata, required_absolute_environment_path, resolve_paths, xdg_path, Config,
    DiscoverError, Environment, InstallMetadata, LoadError, ResolvedPaths, SchemaError,
};
use eiyah::host::{Fault, FaultKind};

fn bytes(text: &str) -> Vec<u8> {
    text.as_bytes().to_vec()
}

fn missing() -> Fault {
    Fault { kind: FaultKind::NotFound, text: "No such file or directory (os error 2)".to_owned() }
}

fn environment(values: &[(&str, &str)]) -> Environment {
    let find = |name: &str| {
        values.iter().find(|(key, _)| *key == name).map(|(_, value)| bytes(value))
    };
    Environment {
        home: find("HOME"),
        config_home: find("XDG_CONFIG_HOME"),
        data_home: find("XDG_DATA_HOME"),
        state_home: find("XDG_STATE_HOME"),
        cache_home: find("XDG_CACHE_HOME"),
    }
}

fn metadata(config: &str, data: &str, state: &str, cache: &str) -> InstallMetadata {
    InstallMetadata {
        config_home: bytes(config),
        data_home: bytes(data),
        state_home: bytes(state),
        cache_home: bytes(cache),
    }
}

const VALID: &str = "config-home = \"/config\"\ndata-home = \"/data\"\nstate-home = \"/state\"\ncache-home = \"/cache\"\n";

#[test]
fn resolve_paths_uses_xdg_fallbacks() {
    let paths = resolve_paths(environment(&[("HOME", "/home/tester")])).unwrap();
    assert_eq!(paths.config_home, b"/home/tester/.config");
    assert_eq!(paths.data_home, b"/home/tester/.local/share");
    assert_eq!(paths.state_home, b"/home/tester/.local/state");
    assert_eq!(paths.cache_home, b"/home/tester/.cache");
    assert_eq!(paths.eiyah_prefix, b"/home/tester/.local/share/eiyah");
    assert_eq!(paths.eiyah_config, b"/home/tester/.config/eiyah/config.toml");
    assert_eq!(paths.pixi_home, b"/home/tester/.local/share/eiyah/pixi");
}

#[test]
fn resolve_paths_treats_empty_xdg_values_as_unset() {
    let paths = resolve_paths(environment(&[
        ("HOME", "/home/tester"),
        ("XDG_CONFIG_HOME", ""),
        ("XDG_DATA_HOME", ""),
        ("XDG_STATE_HOME", ""),
        ("XDG_CACHE_HOME", ""),
    ]))
    .unwrap();
    assert_eq!(paths.config_home, b"/home/tester/.config");
    assert_eq!(paths.data_home, b"/home/tester/.local/share");
    assert_eq!(paths.state_home, b"/home/tester/.local/state");
    assert_eq!(paths.cache_home, b"/home/tester/.cache");
}

#[test]
fn resolve_paths_preserves_non_utf8_environment_paths() {
    let mut values = environment(&[("HOME", "/home/tester")]);
    values.data_home = Some(b"/xdg/data-\xff".to_vec());
    let paths = resolve_paths(values).unwrap();
    assert_eq!(paths.data_home, b"/xdg/data-\xff");
    assert_eq!(paths.eiyah_prefix, b"/xdg/data-\xff/eiyah");
}

#[test]
fn resolve_paths_uses_absolute_xdg_values() {
    let paths = resolve_paths(environment(&[
        ("HOME", "/home/tester"),
        ("XDG_CONFIG_HOME", "/xdg/config"),
        ("XDG_DATA_HOME", "/xdg/data"),
        ("XDG_STATE_HOME", "/xdg/state"),
        ("XDG_CACHE_HOME", "/xdg/cache"),
    ]))
    .unwrap();
    assert_eq!(paths.config_home, b"/xdg/config");
    assert_eq!(paths.data_home, b"/xdg/data");
    assert_eq!(paths.state_home, b"/xdg/state");
    assert_eq!(paths.cache_home, b"/xdg/cache");
}

#[test]
fn resolve_paths_rejects_invalid_home_and_xdg_values() {
    assert!(resolve_paths(environment(&[])).is_err());
    assert!(resolve_paths(environment(&[("HOME", "")])).is_err());
    assert!(resolve_paths(environment(&[("HOME", "relative")])).is_err());
    assert!(
        resolve_paths(environment(&[("HOME", "/home/tester"), ("XDG_DATA_HOME", "relative")]))
            .is_err()
    );
}

#[test]
fn install_metadata_converts_to_resolved_paths() {
    let paths = ResolvedPaths::from_install_metadata(metadata(
        "/xdg/config",
        "/xdg/data",
        "/xdg/state",
        "/xdg/cache",
    ))
    .unwrap();
    assert_eq!(paths.eiyah_prefix, b"/xdg/data/eiyah");
    assert_eq!(paths.eiyah_config, b"/xdg/config/eiyah/config.toml");
    assert_eq!(paths.pixi_home, b"/xdg/data/eiyah/pixi");
}

#[test]
fn config_round_trips_true_and_false() {
    for value in [true, false] {
        let config = Config { show_cad_status: value };
        let serialized = render_config(&config).unwrap();
        assert_eq!(serialized, format!("show-cad-status = {value}\n"));
        assert_eq!(parse_config(&serialized).unwrap().show_cad_status, value);
    }
}

#[test]
fn config_rejects_missing_unknown_duplicate_and_malformed_fields() {
    assert!(parse_config("").is_err());
    assert!(parse_config("show-cad-status = true\nunknown = 1\n").is_err());
    assert!(parse_config("show-cad-status = true\nshow-cad-status = false\n").is_err());
    assert!(parse_config("show-cad-status = [\n").is_err());
}

#[test]
fn install_metadata_rejects_invalid_toml_and_paths() {
    assert!(parse_install_metadata(VALID).is_ok());
    assert!(parse_install_metadata(&format!("{VALID}unknown = 1\n")).is_err());
    assert!(parse_install_metadata("config-home = \"/config\"\n").is_err());
    assert!(parse_install_metadata(&format!("{VALID}config-home = \"/other-config\"\n")).is_err());

    let relative = metadata("relative", "/data", "/state", "/cache");
    assert!(ResolvedPaths::from_install_metadata(relative).is_err());
    let empty = metadata("", "/data", "/state", "/cache");
    assert!(ResolvedPaths::from_install_metadata(empty).is_err());
}

#[test]
fn load_install_metadata_rejects_empty_and_relative_paths() {
    let empty = "config-home = \"\"\ndata-home = \"/data\"\nstate-home = \"/state\"\ncache-home = \"/cache\"\n";
    assert!(load_install_metadata(Ok(bytes(empty))).is_err());
    let relative = "config-home = \"/config\"\ndata-home = \"relative\"\nstate-home = \"/state\"\ncache-home = \"/cache\"\n";
    assert!(load_install_metadata(Ok(bytes(relative))).is_err());
}

#[test]
fn load_functions_report_missing_files() {
    assert!(load_config(Err(missing())).is_err());
    assert!(load_install_metadata(Err(missing())).is_err());
}

#[test]
fn load_errors_say_what_is_wrong() {
    assert!(matches!(
        parse_config("show-cad-status = true\nunknown = 1\n"),
        Err(LoadError::Schema(SchemaError::Unknown))
    ));
    assert!(matches!(parse_config(""), Err(LoadError::Schema(SchemaError::Missing))));
    assert!(matches!(
        parse_config("show-cad-status = \"yes\"\n"),
        Err(LoadError::Schema(SchemaError::WrongType))
    ));
    let refused = parse_config("").unwrap_err();
    assert_eq!(
        refused.explain("config", b"/c", "missing field `show-cad-status`").full_text(),
        "failed to parse config: /c: missing field `show-cad-status`"
    );
    match parse_config("show-cad-status = [\n") {
        Err(LoadError::Malformed(words)) => {
            assert!(words.starts_with("TOML parse error at line 1, column 20\n"), "{words}");
        }
        other => panic!("{other:?}"),
    }
    assert!(matches!(load_config(Ok(vec![0xff, 0xfe])), Err(LoadError::NotText)));
    assert!(matches!(load_config(Err(missing())), Err(LoadError::Unreadable(_))));
    assert!(matches!(
        load_install_metadata(Ok(bytes(&VALID.replace("/data", "data")))),
        Err(LoadError::Invalid(_))
    ));
}

#[test]
fn metadata_is_read_back_as_it_was_written() {
    let kept = metadata("/home/tester/.config", "/data \"quoted\"", "/state", "/cache\\back");
    let text = render_install_metadata(&kept).unwrap();
    let read = parse_install_metadata(&text).unwrap();
    assert_eq!(read.config_home, kept.config_home);
    assert_eq!(read.data_home, kept.data_home);
    assert_eq!(read.state_home, kept.state_home);
    assert_eq!(read.cache_home, kept.cache_home);
}

#[test]
fn metadata_that_is_no_text_is_not_written() {
    let mut kept = metadata("/config", "/data", "/state", "/cache");
    kept.data_home = b"/data-\xff".to_vec();
    assert!(render_install_metadata(&kept).is_err());
}

#[test]
fn switches_are_read_from_the_settings() {
    assert!(is_show_cad_status_enabled(Ok(bytes("show-cad-status = true\n"))).unwrap());
    assert!(!is_show_cad_status_enabled(Ok(bytes("show-cad-status = false\n"))).unwrap());
    assert!(is_show_cad_status_enabled(Ok(bytes("invalid"))).is_err());
}

#[test]
fn environment_paths_have_to_lead_from_the_root() {
    assert_eq!(
        required_absolute_environment_path("HOME", None).unwrap_err().full_text(),
        "HOME is not set"
    );
    assert!(required_absolute_environment_path("HOME", Some(bytes("here"))).is_err());
    assert_eq!(required_absolute_environment_path("HOME", Some(bytes("/h"))).unwrap(), b"/h");
    assert_eq!(xdg_path("XDG_DATA_HOME", None, b"/h", ".local/share").unwrap(), b"/h/.local/share");
    assert_eq!(xdg_path("XDG_DATA_HOME", Some(bytes("/d")), b"/h", ".local/share").unwrap(), b"/d");
}

#[test]
fn discover_install_metadata_accepts_only_command_links() {
    let entry = b"/home/tester/.local/bin/eiyah";
    let found = discover_install_metadata(entry, Ok(bytes("/prefix/bin/eiyah"))).unwrap();
    assert_eq!(found, b"/prefix/install.toml");
    for target in ["prefix/bin/eiyah", "/prefix/eiyah", "/prefix/bin/other", "/prefix/lib/eiyah"] {
        assert!(matches!(
            discover_install_metadata(entry, Ok(bytes(target))),
            Err(DiscoverError::Shape(_))
        ));
    }
    assert!(matches!(
        discover_install_metadata(entry, Err(missing())),
        Err(DiscoverError::Unreadable(_))
    ));
}

#[test]
fn initial_files_are_written_with_their_contents() {
    let paths = ResolvedPaths::from_install_metadata(metadata("/c", "/d", "/s", "/k")).unwrap();
    let config = create_initial_config(&paths, 7, 1).unwrap();
    assert_eq!(config.target, b"/c/eiyah/config.toml");
    assert_eq!(config.contents, b"show-cad-status = true\n");
    let kept = create_install_metadata(&paths, 7, 2).unwrap();
    assert_eq!(kept.target, b"/d/eiyah/install.toml");
    let read = parse_install_metadata(&String::from_utf8(kept.contents).unwrap()).unwrap();
    assert_eq!(read.data_home, b"/d");
}
