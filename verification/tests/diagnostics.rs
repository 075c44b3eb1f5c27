use shadowsocks_gtk_rs::error::ProfileLoadError;
use shadowsocks_gtk_rs::profile_config::{
    password_omit, BindAddr, BindHost, ConfigFileOptions, MetadataOverride, ProfileConfig,
    ProxyOptions, ServerAddr, ServerHost,
};
use shadowsocks_gtk_rs::scan::{
    listing_has_files, DirScan, EntryKind, ProfileRead, CONFIG_FILE_NAME, LOAD_IGNORE_FILE_NAME,
    SSLOCAL_DEFAULT_LOOKUP_NAME,
};
use shadowsocks_gtk_rs::text::{join_strings, labelled};
use std::io;

fn options(password: &str, extra_args: Option<Vec<String>>) -> ProxyOptions {
    ProxyOptions {
        local_addr: BindAddr { host: BindHost::V4("127.0.0.1".to_string()), port: 1080 },
        server_addr: ServerAddr { host: ServerHost::Other("example.com".to_string()), port: 8388 },
        password: password.to_string(),
        encrypt_method: "aes-256-gcm".to_string(),
        extra_args,
    }
}

#[test]
fn password_is_replaced_by_a_fixed_placeholder() {
    assert_eq!(password_omit("secret"), "*hidden*");
    assert_eq!(password_omit(""), "*hidden*");
    assert_eq!(password_omit("*hidden*"), "*hidden*");
}

#[test]
fn diagnostic_output_of_proxy_options() {
    assert_eq!(
        options("secret", None).debug_string(),
        "ProxyOptions { local_addr: 127.0.0.1:1080, server_addr: example.com:8388, \
         password: *hidden*, encrypt_method: aes-256-gcm, extra_args: None }"
    );
    assert_eq!(
        options("secret", Some(vec!["-v".to_string(), "--fast-open".to_string()])).debug_string(),
        "ProxyOptions { local_addr: 127.0.0.1:1080, server_addr: example.com:8388, \
         password: *hidden*, encrypt_method: aes-256-gcm, extra_args: [-v, --fast-open] }"
    );
    assert_eq!(
        options("secret", Some(vec![])).debug_string(),
        "ProxyOptions { local_addr: 127.0.0.1:1080, server_addr: example.com:8388, \
         password: *hidden*, encrypt_method: aes-256-gcm, extra_args: [] }"
    );
}

#[test]
fn diagnostic_output_tells_nothing_of_the_password() {
    let a = options("correct horse battery staple", None).debug_string();
    let b = options("hunter2", None).debug_string();
    assert_eq!(a, b);
    assert!(!a.contains("correct horse"));
    assert!(!b.contains("hunter2"));
}

#[test]
fn strings_joined_with_a_separator() {
    assert_eq!(join_strings(&vec![], ", "), "");
    assert_eq!(join_strings(&vec!["a".to_string()], ", "), "a");
    let three = vec!["a".to_string(), "b".to_string(), "c".to_string()];
    assert_eq!(join_strings(&three, ", "), "a, b, c");
    assert_eq!(join_strings(&vec!["".to_string(), "".to_string()], "-"), "-");
    assert_eq!(join_strings(&vec!["a".to_string(), "b".to_string()], ""), "ab");
}

#[test]
fn label_and_detail() {
    assert_eq!(labelled("kind: ", "what"), "kind: what");
    assert_eq!(labelled("", "what"), "what");
    assert_eq!(labelled("kind: ", ""), "kind: ");
}

#[test]
fn failure_messages_with_text() {
    assert_eq!(
        ProfileLoadError::NotDirectory("/p/f".to_string()).to_string(),
        "ProfileLoadError-NotDirectory: /p/f"
    );
    assert_eq!(
        ProfileLoadError::NameConflict("home".to_string()).to_string(),
        "ProfileLoadError-NameConflict: home"
    );
    assert_eq!(
        ProfileLoadError::NoConfigFile("/p/d".to_string()).to_string(),
        "ProfileLoadError-NoConfigFile: /p/d"
    );
    assert_eq!(
        ProfileLoadError::EmptyGroup("/p/e".to_string()).to_string(),
        "ProfileLoadError-EmptyGroup: /p/e"
    );
}

#[test]
fn failure_messages_with_an_underlying_error() {
    let io_err = io::Error::new(io::ErrorKind::Other, "boom");
    assert_eq!(ProfileLoadError::IOError(io_err).to_string(), "ProfileLoadError-IOError: boom");
    assert_eq!(
        ProfileLoadError::BadBinary(which::Error::CannotFindBinaryPath).to_string(),
        "ProfileLoadError-BadBinary: cannot find binary path"
    );
    let parse = serde_yaml::from_str::<u8>("[").unwrap_err();
    let text = format!("ProfileLoadError-ConfigParseError: {}", parse);
    assert_eq!(ProfileLoadError::ConfigParseError(parse).to_string(), text);
}

#[test]
fn failures_from_their_causes() {
    let e: ProfileLoadError = io::Error::new(io::ErrorKind::Other, "boom").into();
    assert!(matches!(e, ProfileLoadError::IOError(_)));
    let e: ProfileLoadError = which::Error::CannotFindBinaryPath.into();
    assert!(matches!(e, ProfileLoadError::BadBinary(which::Error::CannotFindBinaryPath)));
    let e: ProfileLoadError = serde_yaml::from_str::<u8>("[").unwrap_err().into();
    assert!(matches!(e, ProfileLoadError::ConfigParseError(_)));
}

#[test]
fn directory_convention() {
    assert_eq!(CONFIG_FILE_NAME, "profile.yaml");
    assert_eq!(LOAD_IGNORE_FILE_NAME, ".ss_ignore");
    assert_eq!(SSLOCAL_DEFAULT_LOOKUP_NAME, "sslocal");
}

fn scanned(is_dir: bool, ignored: bool, has_profile: bool) -> DirScan {
    DirScan {
        path: "/p".to_string(),
        name: "p".to_string(),
        is_dir,
        ignored,
        profile: if has_profile {
            Some(ProfileRead::Unreadable(io::Error::new(io::ErrorKind::Other, "x")))
        } else {
            None
        },
        kinds: Ok(vec![]),
        entries: Ok(vec![]),
    }
}

#[test]
fn scan_decisions() {
    assert!(scanned(true, false, false).wants_profile());
    assert!(scanned(true, false, false).wants_kinds());
    assert!(scanned(true, false, false).wants_entries());
    assert!(scanned(true, false, true).wants_profile());
    assert!(!scanned(true, false, true).wants_kinds());
    assert!(!scanned(true, false, true).wants_entries());
    assert!(!scanned(true, true, false).wants_profile());
    assert!(!scanned(true, true, false).wants_kinds());
    assert!(!scanned(true, true, false).wants_entries());
    assert!(!scanned(false, false, false).wants_profile());
    assert!(!scanned(false, false, false).wants_kinds());
    assert!(!scanned(false, true, true).wants_kinds());
    assert!(!scanned(false, false, false).wants_entries());
}

#[test]
fn entries_are_wanted_only_of_a_listing_without_files() {
    let mut d = scanned(true, false, false);
    d.kinds = Ok(vec![EntryKind::Other, EntryKind::Unreadable]);
    assert!(d.wants_entries());
    d.kinds = Ok(vec![EntryKind::Other, EntryKind::File]);
    assert!(!d.wants_entries());
    d.kinds = Err(io::Error::new(io::ErrorKind::Other, "x"));
    assert!(!d.wants_entries());
}

#[test]
fn regular_files_in_a_listing() {
    assert!(!listing_has_files(&vec![]));
    assert!(!listing_has_files(&vec![EntryKind::Other, EntryKind::Unreadable]));
    assert!(listing_has_files(&vec![EntryKind::File]));
    assert!(listing_has_files(&vec![EntryKind::Other, EntryKind::Unreadable, EntryKind::File]));
    assert!(listing_has_files(&vec![EntryKind::File, EntryKind::Other]));
}

fn document(bin_path: Option<&str>) -> ProfileConfig {
    ProfileConfig::ConfigFile {
        metadata: MetadataOverride {
            display_name: None,
            pwd: None,
            bin_path: bin_path.map(|s| s.to_string()),
        },
        opts: ConfigFileOptions { config_path: "c.json".to_string(), extra_args: None },
    }
}

#[test]
fn no_search_without_a_named_binary() {
    match ProfileRead::parsed(document(None)) {
        ProfileRead::Parsed { config, bin_lookup } => {
            assert!(bin_lookup.is_none());
            assert!(config.get_metadata_override().bin_path.is_none());
        }
        _ => panic!("the document parsed"),
    }
}

#[test]
fn search_for_a_binary_that_is_nowhere() {
    match ProfileRead::parsed(document(Some("/nonexistent-dir-for-tests/no-such-binary"))) {
        ProfileRead::Parsed { config, bin_lookup } => {
            assert!(matches!(bin_lookup, Some(Err(_))));
            assert_eq!(
                config.get_metadata_override().bin_path.as_deref(),
                Some("/nonexistent-dir-for-tests/no-such-binary")
            );
        }
        _ => panic!("the document parsed"),
    }
}

#[test]
fn search_for_a_binary_by_absolute_path() {
    let shell = "/bin/sh";
    if std::path::Path::new(shell).is_file() {
        match ProfileRead::parsed(document(Some(shell))) {
            ProfileRead::Parsed { bin_lookup, .. } => match bin_lookup {
                Some(Ok(found)) => assert!(found.ends_with("sh")),
                other => panic!("{:?}", other),
            },
            _ => panic!("the document parsed"),
        }
    }
}
