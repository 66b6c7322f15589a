use vstd::prelude::*;

pub mod dev_flake;
pub mod engine;
pub mod language;
pub mod nix_builder;
pub mod package_manager;
pub mod paths;
pub mod structured;
pub mod task_runner;
pub mod text;
pub mod version;

pub use dev_flake::{
    CheckCategory, CheckFile, CheckSpec, CommandInfo, GeneratedFlake, LanguagePackages,
    generate_dev_flake,
};
pub use engine::{DetectionEngine, DetectionScope, ProjectMetadata};
pub use language::{
    Language, LanguageDetection, LanguageDetectionSignal, LanguageDetectionSource, SignalModel,
};
pub use nix_builder::{
    CheckDerivationBuilder, NoticeListBuilder, escape_nix_string, write_attr_with_fallback,
    write_nix_string_binding, write_optional_package,
};
pub use package_manager::{
    PackageManager, PackageManagerDetection, PackageManagerInfo, PackageManagerSource,
};
pub use task_runner::{
    CommandExecutable, TaskCommand, TaskRunner, TaskRunnerCommands, TaskRunnerDetection,
    TaskRunnerFile, TaskRunnerSource,
};
pub use text::push_char;
pub use version::{
    SemanticVersion, VersionConstraint, VersionDetection, VersionInfo, VersionSource,
};

verus! {

/// A single entry of the project tree, captured before detection runs:
/// the full path, whether it is a regular file, and (for files whose
/// name is of interest) its textual content.
pub struct FileEntry {
    pub path: String,
    pub is_file: bool,
    pub content: Option<String>,
}

} // verus!
