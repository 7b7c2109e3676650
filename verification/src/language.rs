//! Shared data model: submitted files, per-language configuration records,
//! the run instructions produced for a submission, and the configuration
//! trait every language descriptor implements.

use vstd::prelude::*;

pub mod c;
pub mod dart;
pub mod erlang;
pub mod mercury;
pub mod swift;

verus! {

/// A handle to one submitted source file, identified by its path.
/// The instruction compiler only ever reads the path, never file contents.
#[derive(Debug, PartialEq, Eq)]
pub struct FileRef {
    pub path: String,
}

impl View for FileRef {
    type V = Seq<char>;

    open spec fn view(&self) -> Seq<char> {
        self.path@
    }
}

impl Clone for FileRef {
    fn clone(&self) -> (r: Self)
        ensures
            r == *self,
    {
        FileRef { path: self.path.clone() }
    }
}

/// Editor surface configuration for a language: pure data consumed by the
/// calling service, neither produced nor validated by the compiler core.
#[derive(Debug, Clone, PartialEq, Eq)]
pub struct EditorConfig {
    pub default_filename: String,
    pub mode: String,
    pub use_soft_tabs: bool,
    pub soft_tab_size: u8,
    pub example_code: String,
}

/// The mathematical value of an [`EditorConfig`].
pub ghost struct EditorConfigView {
    pub default_filename: Seq<char>,
    pub mode: Seq<char>,
    pub use_soft_tabs: bool,
    pub soft_tab_size: u8,
    pub example_code: Seq<char>,
}

impl View for EditorConfig {
    type V = EditorConfigView;

    open spec fn view(&self) -> EditorConfigView {
        EditorConfigView {
            default_filename: self.default_filename@,
            mode: self.mode@,
            use_soft_tabs: self.use_soft_tabs,
            soft_tab_size: self.soft_tab_size,
            example_code: self.example_code@,
        }
    }
}

/// Container configuration: the execution image for a language and the
/// command that probes the installed toolchain's version. Opaque data.
#[derive(Debug, Clone, PartialEq, Eq)]
pub struct RunConfig {
    pub container_image: String,
    pub version_command: String,
}

/// The mathematical value of a [`RunConfig`].
pub ghost struct RunConfigView {
    pub container_image: Seq<char>,
    pub version_command: Seq<char>,
}

impl View for RunConfig {
    type V = RunConfigView;

    open spec fn view(&self) -> RunConfigView {
        RunConfigView {
            container_image: self.container_image@,
            version_command: self.version_command@,
        }
    }
}

/// The output artifact of the instruction compiler: build commands to be
/// executed in order, each of which must succeed before the next runs, and
/// exactly one run command executed last. An empty build list is valid and
/// means "no separate build step".
#[derive(Debug, Clone, PartialEq, Eq)]
pub struct RunInstructions {
    pub build_commands: Vec<String>,
    pub run_command: String,
}

/// The mathematical value of a [`RunInstructions`].
pub ghost struct RunInstructionsView {
    pub build_commands: Seq<Seq<char>>,
    pub run_command: Seq<char>,
}

impl View for RunInstructions {
    type V = RunInstructionsView;

    open spec fn view(&self) -> RunInstructionsView {
        RunInstructionsView {
            build_commands: self.build_commands.deep_view(),
            run_command: self.run_command@,
        }
    }
}

/// Per-language configuration: identity (id, display name, canonical file
/// suffix), editor and container data, and the policy that maps a submission
/// (main file plus auxiliary files) to its run instructions.
///
/// Every method's result is pinned to a spec-level function of the receiver
/// and the arguments alone, so a descriptor is immutable data and its
/// instruction policy is pure: no I/O, no file contents, only paths.
pub trait LanguageConfig: Sized {
    /// The unique lowercase language id.
    spec fn spec_id(&self) -> Seq<char>;

    /// The human-readable display name.
    spec fn spec_name(&self) -> Seq<char>;

    /// The canonical source-file suffix the language claims.
    spec fn spec_file_extension(&self) -> Seq<char>;

    /// The editor configuration record.
    spec fn spec_editor_config(&self) -> EditorConfigView;

    /// The container configuration record.
    spec fn spec_run_config(&self) -> RunConfigView;

    /// The run instructions for a submission with the given main-file path
    /// and auxiliary files.
    spec fn spec_run_instructions(&self, main: Seq<char>, others: Seq<FileRef>) -> RunInstructionsView;

    fn id(&self) -> (r: String)
        ensures
            r@ == self.spec_id(),
    ;

    fn name(&self) -> (r: String)
        ensures
            r@ == self.spec_name(),
    ;

    fn file_extension(&self) -> (r: String)
        ensures
            r@ == self.spec_file_extension(),
    ;

    fn editor_config(&self) -> (r: EditorConfig)
        ensures
            r@ == self.spec_editor_config(),
    ;

    fn run_config(&self) -> (r: RunConfig)
        ensures
            r@ == self.spec_run_config(),
    ;

    fn run_instructions(&self, main_file: FileRef, other_files: Vec<FileRef>) -> (r: RunInstructions)
        ensures
            r@ == self.spec_run_instructions(main_file@, other_files@),
    ;
}

} // verus!
