use archbelt::blueprint::{Blueprint, RootData};
use archbelt::config::{CommandError, PackageConfig, WatchState, YankConfig};
use archbelt::names::blueprint_file_name;
use archbelt::package::BlueprintMetadata;

fn words(list: &[&str]) -> Vec<String> {
    list.iter().map(|w| w.to_string()).collect()
}

#[test]
fn watch_switch_gives_the_state() {
    assert_eq!(WatchState::from_switch(true), WatchState::Requested);
    assert_eq!(WatchState::from_switch(false), WatchState::Disabled);
}

#[test]
fn is_watch_tells_single_runs_apart() {
    assert!(WatchState::Requested.is_watch());
    assert!(WatchState::Watching.is_watch());
    assert!(!WatchState::Disabled.is_watch());
}

#[test]
fn yank_config_from_switches() {
    let c = YankConfig::new("bp/Ship.json".to_string(), true, true, true);
    assert_eq!(c.file_name, "bp/Ship.json");
    assert!(c.folder);
    assert_eq!(c.watch, WatchState::Requested);
    assert!(c.disable_collate);
    let c = YankConfig::new("x".to_string(), false, false, false);
    assert!(!c.folder);
    assert_eq!(c.watch, WatchState::Disabled);
    assert!(!c.disable_collate);
}

#[test]
fn yank_config_update_switches_the_watch_off_only() {
    let mut c = YankConfig::new("old.json".to_string(), false, true, true);
    c.update("new.json".to_string(), true, true);
    assert_eq!(c.file_name, "new.json");
    assert!(c.folder);
    assert_eq!(c.watch, WatchState::Requested);
    assert!(c.disable_collate);
    c.update("newer.json".to_string(), false, false);
    assert_eq!(c.file_name, "newer.json");
    assert!(!c.folder);
    assert_eq!(c.watch, WatchState::Disabled);
    c.update("newest.json".to_string(), false, true);
    assert_eq!(c.watch, WatchState::Disabled);
}

#[test]
fn yank_config_clone_keeps_everything() {
    let c = YankConfig::new("bp/Ship.json".to_string(), true, false, true).clone();
    assert_eq!(c.file_name, "bp/Ship.json");
    assert!(c.folder);
    assert_eq!(c.watch, WatchState::Disabled);
    assert!(c.disable_collate);
}

#[test]
fn package_config_from_switches_and_update() {
    let mut p = PackageConfig::new("bp/Ship.json".to_string(), true);
    assert_eq!(p.file_name, "bp/Ship.json");
    assert_eq!(p.watch, WatchState::Requested);
    p.update("bp/Tug.json".to_string(), true);
    assert_eq!(p.file_name, "bp/Tug.json");
    assert_eq!(p.watch, WatchState::Requested);
    p.update("bp/Tug.json".to_string(), false);
    assert_eq!(p.watch, WatchState::Disabled);
    let q = p.clone();
    assert_eq!(q.file_name, "bp/Tug.json");
    assert_eq!(q.watch, WatchState::Disabled);
}

#[test]
fn packaging_extracts_into_a_collated_folder() {
    let p = PackageConfig { file_name: "bp/Ship.json".to_string(), watch: WatchState::Watching };
    let y = YankConfig::from(p);
    assert_eq!(y.file_name, "bp/Ship.json");
    assert!(y.folder);
    assert_eq!(y.watch, WatchState::Watching);
    assert!(!y.disable_collate);
}

#[test]
fn command_error_from_a_message() {
    assert_eq!(CommandError::from("no such blueprint"), CommandError);
}

#[test]
fn command_error_from_a_locator_error() {
    let e = steamlocate::Error::MissingExpectedApp { app_id: 2941660 };
    assert_eq!(CommandError::from(e), CommandError);
}

#[test]
fn blueprint_file_name_joins_words_with_spaces() {
    assert_eq!(blueprint_file_name(&words(&["My", "Big", "Ship"])), "My Big Ship.json");
    assert_eq!(blueprint_file_name(&words(&["Ship"])), "Ship.json");
    assert_eq!(blueprint_file_name(&words(&[])), ".json");
    assert_eq!(blueprint_file_name(&words(&["", ""])), " .json");
}

#[test]
fn metadata_default_is_empty() {
    let m = BlueprintMetadata::default();
    assert!(m.name.is_none());
    assert_eq!(m.version, "");
    assert_eq!(m.description, "");
    assert_eq!(m.author, "");
    assert!(m.license.is_none());
    assert!(m.keywords.is_empty());
    assert!(m.dependencies.is_empty());
}

#[test]
fn metadata_set_name_changes_the_name_only() {
    let mut m = BlueprintMetadata::default();
    m.version = "7".to_string();
    m.author = "ada".to_string();
    m.keywords.push("ship".to_string());
    m.set_name("Ship".to_string());
    assert_eq!(m.name.as_deref(), Some("Ship"));
    assert_eq!(m.version, "7");
    assert_eq!(m.author, "ada");
    assert_eq!(m.keywords, vec!["ship".to_string()]);
    m.set_name("Tug".to_string());
    assert_eq!(m.name.as_deref(), Some("Tug"));
}

#[test]
fn metadata_summarizes_a_blueprint() {
    let bp = Blueprint { author: "ada".to_string(), data: RootData { components: vec![] }, version: -12 };
    let m = BlueprintMetadata::summarize(&bp, "1530.5");
    assert!(m.name.is_none());
    assert_eq!(m.version, "-12");
    assert_eq!(m.description, "mass: 1530.5");
    assert_eq!(m.author, "ada");
    assert!(m.license.is_none());
    assert!(m.keywords.is_empty());
    assert!(m.dependencies.is_empty());
}

#[test]
fn metadata_describes_a_named_package() {
    let bp = Blueprint { author: "ada".to_string(), data: RootData { components: vec![] }, version: 4 };
    let m = BlueprintMetadata::describe(&bp, "2", "Ship".to_string());
    assert_eq!(m.name.as_deref(), Some("Ship"));
    assert_eq!(m.version, "4");
    assert_eq!(m.description, "mass: 2");
    assert_eq!(m.author, "ada");
}
