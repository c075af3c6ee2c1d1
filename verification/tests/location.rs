//! Where the studio's database is looked for.

use cherry_usage::location::{
    get_cherry_studio_db_path, PathVariable, Platform, StudioEnvironment,
};
use cherry_usage::protocol::SyncAction;
use cherry_usage::sync::{sync_cherry_studio_usage, SyncState};
use std::path::PathBuf;

fn variable(value: &str) -> Option<PathVariable<PathBuf>> {
    Some(PathVariable {
        value: PathBuf::from(value),
        is_empty: value.is_empty(),
    })
}

fn environment(platform: Platform) -> StudioEnvironment<PathBuf> {
    StudioEnvironment {
        platform,
        cherry_studio_db: None,
        app_data: None,
        xdg_config_home: None,
        home_dir: PathBuf::from("home"),
    }
}

fn located(environment: StudioEnvironment<PathBuf>) -> PathBuf {
    let path = get_cherry_studio_db_path(environment);
    let mut joined = path.base;
    for component in path.components {
        joined.push(component);
    }
    joined
}

#[test]
fn each_platform_has_its_user_data_directory() {
    assert_eq!(
        located(environment(Platform::MacOs)),
        PathBuf::from("home/Library/Application Support/CherryStudio/Data/cherrystudio.sqlite")
    );
    assert_eq!(
        located(environment(Platform::Windows)),
        PathBuf::from("home/AppData/Roaming/CherryStudio/Data/cherrystudio.sqlite")
    );
    assert_eq!(
        located(environment(Platform::Linux)),
        PathBuf::from("home/.config/CherryStudio/Data/cherrystudio.sqlite")
    );
}

#[test]
fn platform_variables_name_the_parent_directory() {
    for platform in [Platform::MacOs, Platform::Windows, Platform::Linux] {
        let mut with = environment(platform);
        with.app_data = variable("roaming");
        with.xdg_config_home = variable("config");
        let expected = match platform {
            Platform::MacOs => "home/Library/Application Support",
            Platform::Windows => "roaming",
            Platform::Linux => "config",
        };
        let expected = PathBuf::from(expected).join("CherryStudio/Data/cherrystudio.sqlite");
        assert_eq!(located(with), expected);
    }
}

#[test]
fn empty_config_home_counts_as_unset() {
    let mut with = environment(Platform::Linux);
    with.xdg_config_home = variable("");
    assert_eq!(
        located(with),
        PathBuf::from("home/.config/CherryStudio/Data/cherrystudio.sqlite")
    );
}

#[test]
fn empty_app_data_is_used() {
    let mut with = environment(Platform::Windows);
    with.app_data = variable("");
    assert_eq!(
        located(with),
        PathBuf::from("CherryStudio/Data/cherrystudio.sqlite")
    );
}

#[test]
fn override_is_the_path_itself() {
    for platform in [Platform::MacOs, Platform::Windows, Platform::Linux] {
        let mut with = environment(platform);
        with.cherry_studio_db = variable("portable/usage.sqlite");
        with.app_data = variable("roaming");
        with.xdg_config_home = variable("config");
        assert_eq!(located(with), PathBuf::from("portable/usage.sqlite"));
    }
}

#[test]
fn empty_override_counts_as_unset() {
    let mut with = environment(Platform::Linux);
    with.cherry_studio_db = variable("");
    assert_eq!(
        located(with),
        PathBuf::from("home/.config/CherryStudio/Data/cherrystudio.sqlite")
    );
}

#[test]
fn synchronisation_begins_at_the_located_database() {
    let mut with = environment(Platform::Linux);
    with.cherry_studio_db = variable("usage.sqlite");
    let (path, state, action) = sync_cherry_studio_usage(with);
    assert_eq!(path.base, PathBuf::from("usage.sqlite"));
    assert!(path.components.is_empty());
    assert!(matches!(state, SyncState::Locating));
    assert!(matches!(action, SyncAction::Locate));
}
