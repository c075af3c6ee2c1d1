//! Where Cherry Studio keeps its usage database.

use crate::text::texts;
use vstd::prelude::*;

verus! {

/// The platforms that Cherry Studio is packaged for.
#[derive(Clone, Copy, Debug, PartialEq, Eq, Structural)]
pub enum Platform {
    MacOs,
    Windows,
    Linux,
}

/// The value of an environment variable that holds a path. `P` is the
/// caller's path type; all that is asked of the value is whether it is empty.
pub struct PathVariable<P> {
    pub value: P,
    pub is_empty: bool,
}

/// What the surroundings say about where the database is. A variable that is
/// not set is `None`.
pub struct StudioEnvironment<P> {
    pub platform: Platform,
    /// `CHERRY_STUDIO_DB`: the database of a portable or relocated
    /// installation.
    pub cherry_studio_db: Option<PathVariable<P>>,
    /// `APPDATA`
    pub app_data: Option<PathVariable<P>>,
    /// `XDG_CONFIG_HOME`
    pub xdg_config_home: Option<PathVariable<P>>,
    pub home_dir: P,
}

/// A path, as the components to be joined to a base, in order.
pub struct StudioPath<P> {
    pub base: P,
    pub components: Vec<String>,
}

/// The components of the studio's user data directory below the home
/// directory, or below the directory that a variable names.
pub open spec fn user_data_components(platform: Platform, below_home: bool) -> Seq<Seq<char>> {
    match (platform, below_home) {
        (Platform::MacOs, _) => seq!["Library"@, "Application Support"@, "CherryStudio"@],
        (Platform::Windows, true) => seq!["AppData"@, "Roaming"@, "CherryStudio"@],
        (Platform::Linux, true) => seq![".config"@, "CherryStudio"@],
        (_, false) => seq!["CherryStudio"@],
    }
}

impl<P> StudioEnvironment<P> {
    /// The variable that names the parent of the user data directory. An
    /// empty `XDG_CONFIG_HOME` counts as unset, an empty `APPDATA` does not.
    pub open spec fn user_data_parent(self) -> Option<P> {
        match self.platform {
            Platform::MacOs => None,
            Platform::Windows => match self.app_data {
                Some(v) => Some(v.value),
                None => None,
            },
            Platform::Linux => match self.xdg_config_home {
                Some(v) => if v.is_empty { None } else { Some(v.value) },
                None => None,
            },
        }
    }

    /// The base and the components of the database's path. A nonempty
    /// `CHERRY_STUDIO_DB` is the path; otherwise it lies in the platform's
    /// user data directory.
    pub open spec fn database_path(self) -> (P, Seq<Seq<char>>) {
        let in_user_data = seq!["Data"@, "cherrystudio.sqlite"@];
        if self.cherry_studio_db is Some && !self.cherry_studio_db->0.is_empty {
            (self.cherry_studio_db->0.value, Seq::empty())
        } else {
            match self.user_data_parent() {
                Some(parent) => (
                    parent,
                    user_data_components(self.platform, false) + in_user_data,
                ),
                None => (
                    self.home_dir,
                    user_data_components(self.platform, true) + in_user_data,
                ),
            }
        }
    }
}

/// Returns Cherry Studio's usage database path.
///
/// `CHERRY_STUDIO_DB` supports portable and relocated installations. Otherwise
/// the platform-standard packaged Electron user-data location is used.
pub fn get_cherry_studio_db_path<P>(environment: StudioEnvironment<P>) -> (path: StudioPath<P>)
    ensures
        path.base == environment.database_path().0,
        texts(path.components@) == environment.database_path().1,
{
    let StudioEnvironment { platform, cherry_studio_db, app_data, xdg_config_home, home_dir } =
        environment;
    if let Some(variable) = cherry_studio_db {
        if !variable.is_empty {
            let path = StudioPath { base: variable.value, components: Vec::new() };
            assert(texts(path.components@) =~= environment.database_path().1);
            return path;
        }
    }
    let parent: Option<P> = match platform {
        Platform::MacOs => None,
        Platform::Windows => match app_data {
            Some(variable) => Some(variable.value),
            None => None,
        },
        Platform::Linux => match xdg_config_home {
            Some(variable) => if variable.is_empty { None } else { Some(variable.value) },
            None => None,
        },
    };
    let mut components: Vec<String> = Vec::new();
    let base = match parent {
        Some(parent) => parent,
        None => {
            match platform {
                Platform::MacOs => {
                    components.push("Library".to_string());
                    components.push("Application Support".to_string());
                },
                Platform::Windows => {
                    components.push("AppData".to_string());
                    components.push("Roaming".to_string());
                },
                Platform::Linux => {
                    components.push(".config".to_string());
                },
            }
            home_dir
        },
    };
    components.push("CherryStudio".to_string());
    components.push("Data".to_string());
    components.push("cherrystudio.sqlite".to_string());
    assert(texts(components@) =~= environment.database_path().1);
    StudioPath { base, components }
}

} // verus!
