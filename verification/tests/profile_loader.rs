use shadowsocks_gtk_rs::error::ProfileLoadError;
use shadowsocks_gtk_rs::profile_config::{
    ConfigFileOptions, MetadataOverride, ProfileConfig, TunOptions,
};
use shadowsocks_gtk_rs::profile_loader::ProfileFolder;
use shadowsocks_gtk_rs::scan::{DirScan, EntryKind, EntryScan, ProfileRead};
use std::io;

fn default_bin() -> Result<String, which::Error> {
    Ok("/usr/bin/sslocal".to_string())
}

fn config(display_name: Option<&str>) -> ProfileConfig {
    ProfileConfig::ConfigFile {
        metadata: MetadataOverride {
            display_name: display_name.map(|s| s.to_string()),
            pwd: None,
            bin_path: None,
        },
        opts: ConfigFileOptions { config_path: "ss.json".to_string(), extra_args: None },
    }
}

fn dir(path: &str) -> DirScan {
    let name = path.rsplit('/').next().unwrap().to_string();
    DirScan {
        path: path.to_string(),
        name,
        is_dir: true,
        ignored: false,
        profile: None,
        kinds: Ok(vec![]),
        entries: Ok(vec![]),
    }
}

fn profile_dir(path: &str, display_name: Option<&str>) -> DirScan {
    let mut d = dir(path);
    d.profile = Some(ProfileRead::Parsed { config: config(display_name), bin_lookup: None });
    d
}

fn group_dir(path: &str, children: Vec<DirScan>) -> DirScan {
    let mut d = dir(path);
    d.kinds = Ok(children.iter().map(|_| EntryKind::Other).collect());
    d.entries = Ok(children.into_iter().map(EntryScan::Found).collect());
    d
}

fn ignored_dir(path: &str) -> DirScan {
    let mut d = dir(path);
    d.ignored = true;
    d
}

fn load(root: DirScan) -> Result<ProfileFolder, ProfileLoadError> {
    ProfileFolder::from_path_recurse("./root".to_string(), Ok(root), &default_bin())
}

fn names(tree: &ProfileFolder) -> Vec<String> {
    tree.get_profiles().iter().map(|p| p.metadata.display_name.clone()).collect()
}

#[test]
fn single_profile_root() {
    let tree = load(profile_dir("/p/home", None)).unwrap_or_else(|e| panic!("{:?}", e));
    match &tree {
        ProfileFolder::Profile(p) => {
            assert_eq!(p.metadata.display_name, "home");
            assert_eq!(p.metadata.pwd, "/p/home");
            assert_eq!(p.metadata.bin_path, "/usr/bin/sslocal");
        }
        ProfileFolder::Group(_) => panic!("a profile directory is a leaf"),
    }
    assert_eq!(tree.profile_count(), 1);
}

#[test]
fn group_keeps_enumeration_order_depth_first() {
    let root = group_dir(
        "/p",
        vec![
            profile_dir("/p/b", None),
            group_dir("/p/g", vec![profile_dir("/p/g/z", None), profile_dir("/p/g/a", None)]),
            profile_dir("/p/c", None),
        ],
    );
    let tree = load(root).unwrap_or_else(|e| panic!("{:?}", e));
    assert_eq!(names(&tree), vec!["b", "z", "a", "c"]);
    assert_eq!(tree.profile_count(), 4);
    match &tree {
        ProfileFolder::Group(g) => {
            assert_eq!(g.display_name, "p");
            assert_eq!(g.content.len(), 3);
            match &g.content[1] {
                ProfileFolder::Group(inner) => {
                    assert_eq!(inner.display_name, "g");
                    assert_eq!(inner.content.len(), 2);
                }
                ProfileFolder::Profile(_) => panic!("the second child is a group"),
            }
        }
        ProfileFolder::Profile(_) => panic!("the root is a group"),
    }
}

#[test]
fn count_equals_flattened_length() {
    let root = group_dir(
        "/p",
        vec![
            group_dir("/p/g", vec![profile_dir("/p/g/a", None), profile_dir("/p/g/b", None)]),
            group_dir("/p/h", vec![group_dir("/p/h/i", vec![profile_dir("/p/h/i/c", None)])]),
            profile_dir("/p/d", None),
        ],
    );
    let tree = load(root).unwrap_or_else(|e| panic!("{:?}", e));
    assert_eq!(tree.profile_count(), 4);
    assert_eq!(tree.profile_count(), tree.get_profiles().len());
}

#[test]
fn loaded_names_are_pairwise_distinct() {
    let root = group_dir(
        "/p",
        vec![
            profile_dir("/p/a", Some("one")),
            group_dir(
                "/p/g",
                vec![profile_dir("/p/g/a", None), profile_dir("/p/g/b", Some("two"))],
            ),
        ],
    );
    let tree = load(root).unwrap_or_else(|e| panic!("{:?}", e));
    let all = names(&tree);
    assert_eq!(all, vec!["one", "a", "two"]);
    for i in 0..all.len() {
        for j in 0..all.len() {
            if i != j {
                assert_ne!(all[i], all[j]);
            }
        }
    }
}

#[test]
fn lookup_finds_exactly_the_named_profiles() {
    let root = group_dir(
        "/p",
        vec![
            profile_dir("/p/a", None),
            group_dir("/p/g", vec![profile_dir("/p/g/b", Some("deep"))]),
        ],
    );
    let tree = load(root).unwrap_or_else(|e| panic!("{:?}", e));
    assert_eq!(tree.lookup("a").unwrap().metadata.pwd, "/p/a");
    assert_eq!(tree.lookup("deep").unwrap().metadata.pwd, "/p/g/b");
    assert!(tree.lookup("b").is_none());
    assert!(tree.lookup("g").is_none());
    assert!(tree.lookup("p").is_none());
    assert!(tree.lookup("").is_none());
    assert!(tree.lookup("A").is_none());
    for p in tree.get_profiles() {
        let found = tree.lookup(&p.metadata.display_name).unwrap();
        assert_eq!(found.metadata.display_name, p.metadata.display_name);
        assert_eq!(found.metadata.pwd, p.metadata.pwd);
    }
}

#[test]
fn ignored_directory_in_a_larger_tree_gives_no_node_and_no_error() {
    let root = group_dir("/p", vec![ignored_dir("/p/skip"), profile_dir("/p/a", None)]);
    let tree = load(root).unwrap_or_else(|e| panic!("{:?}", e));
    assert_eq!(names(&tree), vec!["a"]);
    match &tree {
        ProfileFolder::Group(g) => assert_eq!(g.content.len(), 1),
        ProfileFolder::Profile(_) => panic!("the root is a group"),
    }
}

#[test]
fn ignored_sole_root_is_an_empty_group() {
    let r = ProfileFolder::from_path_recurse(
        "./profiles".to_string(),
        Ok(ignored_dir("/abs/profiles")),
        &default_bin(),
    );
    match r {
        Err(ProfileLoadError::EmptyGroup(p)) => assert_eq!(p, "./profiles"),
        Err(e) => panic!("{:?}", e),
        Ok(_) => panic!("an ignored root gives no tree"),
    }
}

#[test]
fn ignored_profile_directory_is_skipped_before_its_document_is_looked_at() {
    let mut skipped = profile_dir("/p/a", Some("dup"));
    skipped.ignored = true;
    let root = group_dir("/p", vec![profile_dir("/p/b", Some("dup")), skipped]);
    let tree = load(root).unwrap_or_else(|e| panic!("{:?}", e));
    assert_eq!(names(&tree), vec!["dup"]);
}

#[test]
fn group_of_only_ignored_directories_is_empty() {
    let root = group_dir("/p", vec![ignored_dir("/p/x"), ignored_dir("/p/y")]);
    match load(root) {
        Err(ProfileLoadError::EmptyGroup(p)) => assert_eq!(p, "/p"),
        Err(e) => panic!("{:?}", e),
        Ok(_) => panic!("nothing was loadable"),
    }
}

#[test]
fn override_name_conflicts_with_sibling() {
    let root = group_dir("/p", vec![profile_dir("/p/X", None), profile_dir("/p/other", Some("X"))]);
    match load(root) {
        Err(ProfileLoadError::NameConflict(n)) => assert_eq!(n, "X"),
        Err(e) => panic!("{:?}", e),
        Ok(_) => panic!("two profiles share a name"),
    }
}

#[test]
fn name_conflict_across_unrelated_branches() {
    let root = group_dir(
        "/p",
        vec![
            group_dir("/p/g", vec![profile_dir("/p/g/same", None)]),
            group_dir("/p/h", vec![group_dir("/p/h/i", vec![profile_dir("/p/h/i/same", None)])]),
        ],
    );
    match load(root) {
        Err(ProfileLoadError::NameConflict(n)) => assert_eq!(n, "same"),
        Err(e) => panic!("{:?}", e),
        Ok(_) => panic!("two profiles share a name"),
    }
}

#[test]
fn group_may_share_a_name_with_a_profile() {
    let root = group_dir("/p", vec![group_dir("/p/a", vec![profile_dir("/p/a/a", None)])]);
    let tree = load(root).unwrap_or_else(|e| panic!("{:?}", e));
    assert_eq!(names(&tree), vec!["a"]);
}

#[test]
fn malformed_document_aborts_the_enclosing_group() {
    let parse_error = serde_yaml::from_str::<u8>("mode: [").unwrap_err();
    let text = parse_error.to_string();
    let mut bad = dir("/p/g/bad");
    bad.profile = Some(ProfileRead::Malformed(parse_error));
    let root = group_dir(
        "/p",
        vec![profile_dir("/p/a", None), group_dir("/p/g", vec![bad]), profile_dir("/p/z", None)],
    );
    match load(root) {
        Err(ProfileLoadError::ConfigParseError(e)) => assert_eq!(e.to_string(), text),
        Err(e) => panic!("{:?}", e),
        Ok(_) => panic!("a document did not parse"),
    }
}

#[test]
fn unreadable_document_is_an_io_error() {
    let mut bad = dir("/p/bad");
    let denied = io::Error::new(io::ErrorKind::PermissionDenied, "no");
    bad.profile = Some(ProfileRead::Unreadable(denied));
    match load(group_dir("/p", vec![bad])) {
        Err(ProfileLoadError::IOError(e)) => assert_eq!(e.kind(), io::ErrorKind::PermissionDenied),
        Err(e) => panic!("{:?}", e),
        Ok(_) => panic!("a document could not be read"),
    }
}

#[test]
fn unresolvable_root_is_an_io_error() {
    let r = ProfileFolder::from_path_recurse(
        "/nowhere".to_string(),
        Err(io::Error::new(io::ErrorKind::NotFound, "gone")),
        &default_bin(),
    );
    match r {
        Err(ProfileLoadError::IOError(e)) => assert_eq!(e.kind(), io::ErrorKind::NotFound),
        Err(e) => panic!("{:?}", e),
        Ok(_) => panic!("the root did not resolve"),
    }
}

#[test]
fn root_that_is_no_directory() {
    let mut d = dir("/p/file.txt");
    d.is_dir = false;
    match load(d) {
        Err(ProfileLoadError::NotDirectory(p)) => assert_eq!(p, "/p/file.txt"),
        Err(e) => panic!("{:?}", e),
        Ok(_) => panic!("the root is no directory"),
    }
}

#[test]
fn entry_that_is_no_directory_fails_the_group() {
    let mut socket = dir("/p/sock");
    socket.is_dir = false;
    match load(group_dir("/p", vec![profile_dir("/p/a", None), socket])) {
        Err(ProfileLoadError::NotDirectory(p)) => assert_eq!(p, "/p/sock"),
        Err(e) => panic!("{:?}", e),
        Ok(_) => panic!("an entry is neither file nor directory"),
    }
}

#[test]
fn files_without_a_profile_marker() {
    let mut d = dir("/p/loose");
    d.kinds = Ok(vec![EntryKind::Other, EntryKind::Unreadable, EntryKind::File]);
    match load(group_dir("/p", vec![d])) {
        Err(ProfileLoadError::NoConfigFile(p)) => assert_eq!(p, "/p/loose"),
        Err(e) => panic!("{:?}", e),
        Ok(_) => panic!("a directory with files has no profile marker"),
    }
}

#[test]
fn profile_marker_takes_precedence_over_other_files_and_subdirectories() {
    let mut d = profile_dir("/p/a", None);
    d.kinds = Ok(vec![EntryKind::File, EntryKind::File, EntryKind::Other, EntryKind::Unreadable]);
    d.entries = Ok(vec![
        EntryScan::Found(profile_dir("/p/a/nested", Some("a"))),
        EntryScan::Unreadable(io::Error::new(io::ErrorKind::Other, "x")),
    ]);
    let tree = load(d).unwrap_or_else(|e| panic!("{:?}", e));
    assert_eq!(names(&tree), vec!["a"]);
    assert!(matches!(tree, ProfileFolder::Profile(_)));
}

#[test]
fn directory_that_cannot_be_listed_again_is_an_io_error() {
    let mut d = dir("/p/gone");
    d.entries = Err(io::Error::new(io::ErrorKind::NotFound, "gone"));
    match load(group_dir("/p", vec![d])) {
        Err(ProfileLoadError::IOError(e)) => assert_eq!(e.kind(), io::ErrorKind::NotFound),
        Err(e) => panic!("{:?}", e),
        Ok(_) => panic!("a directory could not be listed"),
    }
}

#[test]
fn entries_are_not_looked_into_where_there_are_files() {
    let mut d = dir("/p/loose");
    d.kinds = Ok(vec![EntryKind::File]);
    d.entries = Err(io::Error::new(io::ErrorKind::NotFound, "never read"));
    assert!(!d.wants_entries());
    match load(d) {
        Err(ProfileLoadError::NoConfigFile(p)) => assert_eq!(p, "/p/loose"),
        Err(e) => panic!("{:?}", e),
        Ok(_) => panic!("a directory with files has no profile marker"),
    }
}

#[test]
fn empty_directory_is_an_empty_group() {
    match load(group_dir("/p", vec![group_dir("/p/empty", vec![])])) {
        Err(ProfileLoadError::EmptyGroup(p)) => assert_eq!(p, "/p/empty"),
        Err(e) => panic!("{:?}", e),
        Ok(_) => panic!("an empty directory is no group"),
    }
}

#[test]
fn unlistable_directory_is_an_io_error() {
    let mut d = dir("/p/locked");
    d.kinds = Err(io::Error::new(io::ErrorKind::PermissionDenied, "locked"));
    match load(group_dir("/p", vec![d])) {
        Err(ProfileLoadError::IOError(e)) => assert_eq!(e.kind(), io::ErrorKind::PermissionDenied),
        Err(e) => panic!("{:?}", e),
        Ok(_) => panic!("a directory could not be listed"),
    }
}

#[test]
fn unreadable_entry_fails_the_group_where_it_stands() {
    let mut d = dir("/p");
    d.kinds = Ok(vec![EntryKind::Other, EntryKind::Unreadable, EntryKind::Other]);
    d.entries = Ok(vec![
        EntryScan::Found(profile_dir("/p/a", None)),
        EntryScan::Unreadable(io::Error::new(io::ErrorKind::NotFound, "dangling")),
        EntryScan::Found(profile_dir("/p/a2", Some("a"))),
    ]);
    match load(d) {
        Err(ProfileLoadError::IOError(e)) => assert_eq!(e.kind(), io::ErrorKind::NotFound),
        Err(e) => panic!("{:?}", e),
        Ok(_) => panic!("an entry could not be read"),
    }
}

#[test]
fn first_failure_in_enumeration_order_wins() {
    let mut d = dir("/p");
    d.kinds = Ok(vec![EntryKind::Other, EntryKind::Other, EntryKind::Other]);
    d.entries = Ok(vec![
        EntryScan::Found(profile_dir("/p/a", None)),
        EntryScan::Found(profile_dir("/p/b", Some("a"))),
        EntryScan::Unreadable(io::Error::new(io::ErrorKind::NotFound, "dangling")),
    ]);
    match load(d) {
        Err(ProfileLoadError::NameConflict(n)) => assert_eq!(n, "a"),
        Err(e) => panic!("{:?}", e),
        Ok(_) => panic!("two profiles share a name"),
    }
}

#[test]
fn override_fields_replace_directory_defaults() {
    let mut d = dir("/p/a");
    d.profile = Some(ProfileRead::Parsed {
        config: ProfileConfig::Tun {
            metadata: MetadataOverride {
                display_name: Some("Shown".to_string()),
                pwd: Some("/srv/work".to_string()),
                bin_path: Some("my-sslocal".to_string()),
            },
            opts: TunOptions { extra_args: None },
        },
        bin_lookup: Some(Ok("/opt/bin/my-sslocal".to_string())),
    });
    let tree = load(d).unwrap_or_else(|e| panic!("{:?}", e));
    let p = tree.lookup("Shown").unwrap();
    assert_eq!(p.metadata.pwd, "/srv/work");
    assert_eq!(p.metadata.bin_path, "/opt/bin/my-sslocal");
    assert_eq!(p.config.get_metadata_override().bin_path.as_deref(), Some("my-sslocal"));
    assert!(tree.lookup("a").is_none());
}

#[test]
fn override_binary_that_is_not_found() {
    let mut d = dir("/p/a");
    d.profile = Some(ProfileRead::Parsed {
        config: config(None),
        bin_lookup: Some(Err(which::Error::CannotFindBinaryPath)),
    });
    match load(d) {
        Err(ProfileLoadError::BadBinary(e)) => assert_eq!(e, which::Error::CannotFindBinaryPath),
        Err(e) => panic!("{:?}", e),
        Ok(_) => panic!("the binary was not found"),
    }
}

#[test]
fn missing_default_binary_fails_profiles_that_rely_on_it() {
    let missing: Result<String, which::Error> = Err(which::Error::CannotFindBinaryPath);
    let r = ProfileFolder::from_path_recurse(
        "/p".to_string(),
        Ok(group_dir("/p", vec![profile_dir("/p/a", None)])),
        &missing,
    );
    match r {
        Err(ProfileLoadError::BadBinary(e)) => assert_eq!(e, which::Error::CannotFindBinaryPath),
        Err(e) => panic!("{:?}", e),
        Ok(_) => panic!("the default binary was not found"),
    }
}

#[test]
fn missing_default_binary_does_not_matter_to_a_profile_with_its_own() {
    let missing: Result<String, which::Error> = Err(which::Error::CannotFindBinaryPath);
    let mut d = dir("/p/a");
    d.profile = Some(ProfileRead::Parsed {
        config: config(None),
        bin_lookup: Some(Ok("/bin/own".to_string())),
    });
    let tree = ProfileFolder::from_path_recurse("/p/a".to_string(), Ok(d), &missing)
        .unwrap_or_else(|e| panic!("{:?}", e));
    assert_eq!(tree.lookup("a").unwrap().metadata.bin_path, "/bin/own");
}

#[test]
fn name_conflict_is_found_before_the_binary_is_resolved() {
    let mut second = dir("/p/b");
    second.profile = Some(ProfileRead::Parsed {
        config: config(Some("a")),
        bin_lookup: Some(Err(which::Error::CannotFindBinaryPath)),
    });
    match load(group_dir("/p", vec![profile_dir("/p/a", None), second])) {
        Err(ProfileLoadError::NameConflict(n)) => assert_eq!(n, "a"),
        Err(e) => panic!("{:?}", e),
        Ok(_) => panic!("two profiles share a name"),
    }
}

#[test]
fn seen_names_are_threaded_through_the_recursion() {
    let mut seen = vec!["taken".to_string()];
    let fine = ProfileFolder::from_path_recurse_impl(
        group_dir("/p", vec![profile_dir("/p/a", None), profile_dir("/p/b", None)]),
        &mut seen,
        &default_bin(),
    );
    assert!(matches!(fine, Ok(Some(ProfileFolder::Group(_)))));
    assert_eq!(seen, vec!["taken", "a", "b"]);
    let taken = profile_dir("/q/taken", None);
    let clash = ProfileFolder::from_path_recurse_impl(taken, &mut seen, &default_bin());
    assert!(matches!(clash, Err(ProfileLoadError::NameConflict(_))));
    assert_eq!(seen, vec!["taken", "a", "b"]);
    let skipped =
        ProfileFolder::from_path_recurse_impl(ignored_dir("/q/i"), &mut seen, &default_bin());
    assert!(matches!(skipped, Ok(None)));
    assert_eq!(seen, vec!["taken", "a", "b"]);
}

#[test]
fn copy_of_a_tree_holds_the_same_profiles() {
    let root = group_dir(
        "/p",
        vec![
            profile_dir("/p/a", None),
            group_dir("/p/g", vec![profile_dir("/p/g/b", Some("deep"))]),
        ],
    );
    let tree = load(root).unwrap_or_else(|e| panic!("{:?}", e));
    let copy = tree.clone();
    assert_eq!(names(&copy), names(&tree));
    assert_eq!(copy.profile_count(), 2);
    assert_eq!(copy.lookup("deep").unwrap().metadata.pwd, "/p/g/b");
    match (&tree, &copy) {
        (ProfileFolder::Group(a), ProfileFolder::Group(b)) => {
            assert_eq!(a.display_name, b.display_name);
            assert_eq!(a.content.len(), b.content.len());
        }
        _ => panic!("the root is a group"),
    }
}

#[test]
fn default_binary_serves_every_profile_without_its_own() {
    let mut own = dir("/p/c");
    own.profile = Some(ProfileRead::Parsed {
        config: config(None),
        bin_lookup: Some(Ok("/bin/own".to_string())),
    });
    let root = group_dir("/p", vec![profile_dir("/p/a", None), profile_dir("/p/b", None), own]);
    let tree = load(root).unwrap_or_else(|e| panic!("{:?}", e));
    assert_eq!(tree.lookup("a").unwrap().metadata.bin_path, "/usr/bin/sslocal");
    assert_eq!(tree.lookup("b").unwrap().metadata.bin_path, "/usr/bin/sslocal");
    assert_eq!(tree.lookup("c").unwrap().metadata.bin_path, "/bin/own");
}
