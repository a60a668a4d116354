use myprog_config::configuration::{
    candidate_directories, config_file_path, foo, ConfigError, Configuration, FileConfiguration,
    FileLoad, CONFIG_FILE, FIXED_DIRECTORY,
};
use myprog_config::global::ConfigurationCell;

fn file(verbose: bool, names: &[&str]) -> FileLoad {
    FileLoad::Parsed(FileConfiguration {
        verbose,
        names: names.iter().map(|n| n.to_string()).collect(),
    })
}

fn unreadable_reason(r: Result<Configuration, ConfigError>) -> String {
    match r {
        Err(ConfigError::Unreadable(reason)) => reason,
        Ok(c) => panic!("expected an error, got {:?}", c),
    }
}

#[test]
fn defaults_are_quiet_and_empty() {
    let c = Configuration::default();
    assert!(!c.verbose);
    assert_eq!(c.directory, "");
    let f = FileConfiguration::default();
    assert!(!f.verbose);
    assert!(f.names.is_empty());
}

#[test]
fn no_flags_and_no_files_give_defaults() {
    let loads = vec![FileLoad::NotFound, FileLoad::NotFound, FileLoad::NotFound];
    let c = Configuration::resolve(false, &loads).unwrap();
    assert!(!c.verbose);
    assert_eq!(c.directory, "");
}

#[test]
fn no_candidate_directories_give_defaults() {
    let c = Configuration::resolve(false, &Vec::new()).unwrap();
    assert!(!c.verbose);
    assert_eq!(c.directory, "");
}

#[test]
fn verbose_flag_wins_over_files() {
    let loads = vec![file(false, &[]), FileLoad::NotFound, file(false, &["x"])];
    let c = Configuration::resolve(true, &loads).unwrap();
    assert!(c.verbose);
    let c = Configuration::resolve(true, &vec![FileLoad::NotFound]).unwrap();
    assert!(c.verbose);
}

#[test]
fn well_formed_file_sets_verbose() {
    let loads = vec![FileLoad::NotFound, file(true, &["a"]), FileLoad::NotFound];
    let c = Configuration::resolve(false, &loads).unwrap();
    assert!(c.verbose);
    assert_eq!(c.directory, "");
}

#[test]
fn later_file_overrides_earlier() {
    let c = Configuration::resolve(false, &vec![file(true, &[]), file(false, &[])]).unwrap();
    assert!(!c.verbose);
    let c = Configuration::resolve(false, &vec![file(false, &[]), file(true, &[])]).unwrap();
    assert!(c.verbose);
}

#[test]
fn malformed_file_is_treated_as_absent() {
    let c = Configuration::resolve(false, &vec![FileLoad::Malformed]).unwrap();
    assert!(!c.verbose);
    let c = Configuration::resolve(false, &vec![file(true, &["a"]), FileLoad::Malformed]).unwrap();
    assert!(c.verbose);
}

#[test]
fn unreadable_file_stops_the_build() {
    let loads = vec![
        file(true, &[]),
        FileLoad::Unreadable("permission denied".to_string()),
        FileLoad::Unreadable("second".to_string()),
        file(false, &[]),
    ];
    assert_eq!(unreadable_reason(Configuration::resolve(false, &loads)), "permission denied");
    let loads = vec![FileLoad::Unreadable("denied".to_string())];
    assert_eq!(unreadable_reason(Configuration::resolve(true, &loads)), "denied");
}

#[test]
fn merge_takes_the_file_values() {
    let mut c = Configuration::default();
    c.merge(&FileConfiguration { verbose: true, names: vec!["a".to_string()] });
    assert!(c.verbose);
    assert_eq!(c.directory, "");
    c.merge(&FileConfiguration::default());
    assert!(!c.verbose);
}

#[test]
fn merge_file_config_per_outcome() {
    let mut c = Configuration::default();
    assert!(c.merge_file_config(&file(true, &[])).is_ok());
    assert!(c.verbose);
    assert!(c.merge_file_config(&FileLoad::NotFound).is_ok());
    assert!(c.verbose);
    assert!(c.merge_file_config(&FileLoad::Malformed).is_ok());
    assert!(c.verbose);
    match c.merge_file_config(&FileLoad::Unreadable("busy".to_string())) {
        Err(ConfigError::Unreadable(reason)) => assert_eq!(reason, "busy"),
        Ok(()) => panic!("an unreadable file must be an error"),
    }
    assert!(c.verbose);
}

#[test]
fn command_line_only_raises_verbosity() {
    let mut c = Configuration::default();
    c.apply_command_line(false);
    assert!(!c.verbose);
    c.apply_command_line(true);
    assert!(c.verbose);
    c.apply_command_line(false);
    assert!(c.verbose);
}

#[test]
fn foo_reads_verbosity() {
    let mut c = Configuration::default();
    assert!(!foo(&c));
    c.verbose = true;
    assert!(foo(&c));
}

#[test]
fn config_file_path_joins_components() {
    assert_eq!(CONFIG_FILE, ".myprog.json");
    assert_eq!(config_file_path(""), ".myprog.json");
    assert_eq!(config_file_path("/tmp"), "/tmp/.myprog.json");
    assert_eq!(config_file_path("/tmp/"), "/tmp/.myprog.json");
    assert_eq!(config_file_path("/"), "/.myprog.json");
    assert_eq!(config_file_path("dir/sub"), "dir/sub/.myprog.json");
}

#[test]
fn candidate_directories_in_order() {
    assert_eq!(candidate_directories(None, None), vec![FIXED_DIRECTORY.to_string()]);
    assert_eq!(
        candidate_directories(Some("/opt/bin".to_string()), Some("/home".to_string())),
        vec![FIXED_DIRECTORY.to_string(), "/opt/bin".to_string(), "/home".to_string()]
    );
    assert_eq!(
        candidate_directories(None, Some("/home".to_string())),
        vec![FIXED_DIRECTORY.to_string(), "/home".to_string()]
    );
    assert_eq!(
        candidate_directories(Some("/opt/bin".to_string()), None),
        vec![FIXED_DIRECTORY.to_string(), "/opt/bin".to_string()]
    );
}

#[test]
fn cell_keeps_the_first_configuration() {
    let mut cell = ConfigurationCell::new();
    assert!(!cell.is_initialized());
    assert!(cell.get().is_none());
    cell.initialize(Configuration { verbose: true, directory: "first".to_string() });
    assert!(cell.is_initialized());
    cell.initialize(Configuration { verbose: false, directory: "second".to_string() });
    for _ in 0..3 {
        let c = cell.get().unwrap();
        assert!(c.verbose);
        assert_eq!(c.directory, "first");
    }
}
