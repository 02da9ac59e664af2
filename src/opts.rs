//! The commands and options of the command line, as plain values.
use crate::text::same_text;
use vstd::prelude::*;

verus! {

/// What the user asked for.
#[derive(Clone, Debug)]
pub enum Commands {
    /// Create a new item from a `module/item_type/name` path.
    Create { path: String },
    /// List the categories, or the items of one category.
    List { category: Option<String> },
    /// Initialize a project configuration from a preset.
    Init { preset: Option<String> },
    /// Run the guided interactive mode.
    Interactive,
}

/// The options of the command line.
#[derive(Clone, Debug)]
pub struct Opts {
    pub config: Option<String>,
    pub source_dir: Option<String>,
    pub commands: Option<Commands>,
}

/// The options of the feature-folder command line.
#[derive(Clone, Debug)]
pub struct Opt {
    pub command: Command,
    pub config_file: String,
}

/// The command of the feature-folder command line.
#[derive(Clone, Debug)]
pub enum Command {
    NewFeature { feature_name: String },
}

/// No path was given: the caller looks for the first of these candidates
/// that exists, in order, and asks the user if none does.
#[derive(Clone, Debug)]
pub struct PathNotGiven {
    pub candidates: Vec<String>,
}

impl Commands {
    /// Whether the configuration is checked before the command runs: for
    /// every command but `Interactive`, which checks it when it starts.
    pub fn needs_early_validation(&self) -> (r: bool)
        ensures
            r == !(self is Interactive),
    {
        match self {
            Commands::Interactive => false,
            _ => true,
        }
    }
}

pub open spec fn config_file_candidates() -> Seq<Seq<char>> {
    seq![
        "config.json"@,
        "config-clean-architecture.json"@,
        "config-module-based.json"@,
    ]
}

/// The configuration file given on the command line, if any.
pub fn get_config_path(config: Option<String>) -> (r: Result<String, PathNotGiven>)
    ensures
        match config {
            Some(c) => r == Ok::<String, PathNotGiven>(c),
            None => r is Err && r->Err_0.candidates@.map_values(|c: String| c@)
                == config_file_candidates(),
        },
{
    match config {
        Some(c) => Ok(c),
        None => {
            let mut candidates: Vec<String> = Vec::new();
            candidates.push("config.json".to_string());
            candidates.push("config-clean-architecture.json".to_string());
            candidates.push("config-module-based.json".to_string());
            assert(candidates@.map_values(|c: String| c@) =~= config_file_candidates());
            Err(PathNotGiven { candidates })
        },
    }
}

pub open spec fn preset_file(preset: Seq<char>) -> Option<Seq<char>> {
    if preset == "clean-architecture"@ {
        Some("config-clean-architecture.json"@)
    } else if preset == "module-based"@ {
        Some("config-module-based.json"@)
    } else {
        None
    }
}

/// The file holding the configuration of a named preset.
pub fn preset_config_file(preset: &str) -> (r: Option<String>)
    ensures
        match r {
            Some(f) => preset_file(preset@) == Some(f@),
            None => preset_file(preset@) is None,
        },
{
    if same_text(preset, "clean-architecture") {
        Some("config-clean-architecture.json".to_string())
    } else if same_text(preset, "module-based") {
        Some("config-module-based.json".to_string())
    } else {
        None
    }
}

pub open spec fn source_dir_candidates() -> Seq<Seq<char>> {
    seq![seq!['s', 'r', 'c'], seq!['a', 'p', 'p'], seq!['l', 'i', 'b']]
}

/// The source directory given on the command line, if any.
pub fn get_source_dir(source_dir: Option<String>) -> (r: Result<String, PathNotGiven>)
    ensures
        match source_dir {
            Some(s) => r == Ok::<String, PathNotGiven>(s),
            None => r is Err && r->Err_0.candidates@.map_values(|c: String| c@)
                == source_dir_candidates(),
        },
{
    match source_dir {
        Some(s) => Ok(s),
        None => {
            proof {
                reveal_strlit("src");
                reveal_strlit("app");
                reveal_strlit("lib");
            }
            let mut candidates: Vec<String> = Vec::new();
            candidates.push("src".to_string());
            candidates.push("app".to_string());
            candidates.push("lib".to_string());
            assert("src"@ =~= seq!['s', 'r', 'c']);
            assert("app"@ =~= seq!['a', 'p', 'p']);
            assert("lib"@ =~= seq!['l', 'i', 'b']);
            assert(candidates@.map_values(|c: String| c@) =~= source_dir_candidates());
            Err(PathNotGiven { candidates })
        },
    }
}

} // verus!
