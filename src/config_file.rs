//! The project file `mc.toml`: its sections as plain data, and the
//! configuration that a new project starts with.

use std::collections::HashMap;
use vstd::prelude::*;

verus! {

/// The whole configuration of a project.
#[derive(Debug, Clone)]
pub struct McConfig {
    /// Project/Deployment name
    pub name: String,
    /// Version information
    pub versions: Versions,
    /// Installed mods
    pub mods: Mods,
    /// Installed datapacks
    pub datapacks: Datapacks,
    /// Installed resourcepacks
    pub resourcepacks: Resourcepacks,
    /// Console/server configuration
    pub console: Console,
}

/// The versions of the game, the loader and the tool.
#[derive(Debug, Clone)]
pub struct Versions {
    pub mc_version: String,
    pub fabric_version: String,
    pub mc_cli_version: String,
}

/// Installed mods, by slug, with their versions.
#[derive(Debug, Clone)]
pub struct Mods {
    pub installed: HashMap<String, String>,
}

/// Installed datapacks, by name, with their versions.
#[derive(Debug, Clone)]
pub struct Datapacks {
    pub installed: HashMap<String, String>,
}

/// Installed resourcepacks, by name, with their versions.
#[derive(Debug, Clone)]
pub struct Resourcepacks {
    pub installed: HashMap<String, String>,
}

/// How the server is launched.
#[derive(Debug, Clone)]
pub struct Console {
    pub launch_cmd: Vec<String>,
}

/// The command line that a new project launches its server with.
pub open spec fn default_launch_cmd() -> Seq<Seq<char>> {
    seq!["java"@, "-Xmx2G"@, "-Xms2G"@, "-jar"@, "server.jar"@, "nogui"@]
}

impl McConfig {
    /// Create a new default configuration
    pub fn new(name: String) -> (r: McConfig)
        ensures
            r.name@ == name@,
            r.versions.mc_version@ == "1.20.1"@,
            r.versions.fabric_version@ == "0.15.0"@,
            r.versions.mc_cli_version@ == "0.1.0"@,
            r.mods.installed@ == Map::<String, String>::empty(),
            r.datapacks.installed@ == Map::<String, String>::empty(),
            r.resourcepacks.installed@ == Map::<String, String>::empty(),
            r.console.launch_cmd@.map_values(|s: String| s@) == default_launch_cmd(),
    {
        let mut launch_cmd: Vec<String> = Vec::new();
        launch_cmd.push("java".to_owned());
        launch_cmd.push("-Xmx2G".to_owned());
        launch_cmd.push("-Xms2G".to_owned());
        launch_cmd.push("-jar".to_owned());
        launch_cmd.push("server.jar".to_owned());
        launch_cmd.push("nogui".to_owned());
        assert(launch_cmd@.map_values(|s: String| s@) =~= default_launch_cmd());
        McConfig {
            name,
            versions: Versions {
                mc_version: "1.20.1".to_owned(),
                fabric_version: "0.15.0".to_owned(),
                mc_cli_version: "0.1.0".to_owned(),
            },
            mods: Mods { installed: HashMap::new() },
            datapacks: Datapacks { installed: HashMap::new() },
            resourcepacks: Resourcepacks { installed: HashMap::new() },
            console: Console { launch_cmd },
        }
    }
}

} // verus!
