//! Project configuration: what the surrounding tooling loads from disk
//! and hands to the pipeline. Paths are carried as plain strings; the
//! caller that touches the filesystem resolves them.
use vstd::prelude::*;

verus! {

pub struct Config {
    pub name: String,
    pub version: String,
    pub author: Option<String>,
    pub compiler_options: CompilerOptions,
}

/// Options consumed by the target emitter and the linker.
pub struct CompilerOptions {
    pub optimization_level: OptimizationLevel,
    pub warnings_as_errors: bool,
    pub include_paths: Vec<String>,
    pub library_paths: Vec<String>,
    pub libraries: Vec<String>,
}

pub enum OptimizationLevel {
    Off,
    Less,
    Default,
    Aggressive,
}

impl Default for Config {
    /// The configuration used when no configuration file exists.
    fn default() -> (r: Config)
        ensures
            r.name@ == "tlstuc_project"@,
            r.version@ == "0.1.0"@,
            r.author is None,
            r.compiler_options.optimization_level is Default,
            !r.compiler_options.warnings_as_errors,
            r.compiler_options.include_paths@.len() == 0,
            r.compiler_options.library_paths@.len() == 0,
            r.compiler_options.libraries@.len() == 0,
    {
        Config {
            name: String::from_str("tlstuc_project"),
            version: String::from_str("0.1.0"),
            author: None,
            compiler_options: CompilerOptions {
                optimization_level: OptimizationLevel::Default,
                warnings_as_errors: false,
                include_paths: Vec::new(),
                library_paths: Vec::new(),
                libraries: Vec::new(),
            },
        }
    }
}

} // verus!
