//! The Mercury language: single joint compilation of the main file together
//! with every auxiliary `.m` file, then execution of the produced binary.

use vstd::prelude::*;
use vstd::string::StringExecFns;
use crate::language::EditorConfig;
use crate::language::EditorConfigView;
use crate::language::FileRef;
use crate::language::LanguageConfig;
use crate::language::RunConfig;
use crate::language::RunConfigView;
use crate::language::RunInstructions;
use crate::language::RunInstructionsView;
use crate::utils;

verus! {

/// Descriptor for the Mercury language.
#[derive(Debug, Clone, Copy, PartialEq, Eq, Hash)]
pub struct Mercury;

/// The single joint mmc invocation for a submission: the main file's path
/// followed by the space-joined paths of the auxiliary `.m` files.
pub open spec fn mmc_command(main: Seq<char>, others: Seq<FileRef>) -> Seq<char> {
    "mmc -o a.out "@ + main + " "@ + utils::joined_paths(utils::filter_matching(others, "m"@))
}

impl LanguageConfig for Mercury {
    open spec fn spec_id(&self) -> Seq<char> {
        "mercury"@
    }

    open spec fn spec_name(&self) -> Seq<char> {
        "Mercury"@
    }

    open spec fn spec_file_extension(&self) -> Seq<char> {
        "m"@
    }

    open spec fn spec_editor_config(&self) -> EditorConfigView {
        EditorConfigView {
            default_filename: "main.m"@,
            mode: "ace/mode/plain_text"@,
            use_soft_tabs: true,
            soft_tab_size: 4,
            example_code: ":- module main.\n:- interface.\n:- import_module io.\n\n:- pred main(io::di, io::uo) is det.\n\n:- implementation.\n\nmain(!IO) :-\n    io.write_string(\"Hello World!\", !IO)."@,
        }
    }

    open spec fn spec_run_config(&self) -> RunConfigView {
        RunConfigView {
            container_image: "glot/mercury:latest"@,
            version_command: "mmc --version | head -n 1"@,
        }
    }

    open spec fn spec_run_instructions(&self, main: Seq<char>, others: Seq<FileRef>) -> RunInstructionsView {
        RunInstructionsView {
            build_commands: seq![mmc_command(main, others)],
            run_command: "./a.out"@,
        }
    }

    fn id(&self) -> (r: String) {
        "mercury".to_owned()
    }

    fn name(&self) -> (r: String) {
        "Mercury".to_owned()
    }

    fn file_extension(&self) -> (r: String) {
        "m".to_owned()
    }

    fn editor_config(&self) -> (r: EditorConfig) {
        EditorConfig {
            default_filename: "main.m".to_owned(),
            mode: "ace/mode/plain_text".to_owned(),
            use_soft_tabs: true,
            soft_tab_size: 4,
            example_code: ":- module main.\n:- interface.\n:- import_module io.\n\n:- pred main(io::di, io::uo) is det.\n\n:- implementation.\n\nmain(!IO) :-\n    io.write_string(\"Hello World!\", !IO).".to_owned(),
        }
    }

    fn run_config(&self) -> (r: RunConfig) {
        RunConfig {
            container_image: "glot/mercury:latest".to_owned(),
            version_command: "mmc --version | head -n 1".to_owned(),
        }
    }

    fn run_instructions(&self, main_file: FileRef, other_files: Vec<FileRef>) -> (r: RunInstructions) {
        let ghost others0 = other_files@;
        let other_source_files = utils::filter_by_extension(other_files, "m");
        let joined = utils::join_files(&other_source_files);
        let build = "mmc -o a.out ".to_owned().concat(main_file.path.as_str()).concat(
            " ",
        ).concat(joined.as_str());
        let result = RunInstructions {
            build_commands: vec![build],
            run_command: "./a.out".to_owned(),
        };
        proof {
            assert(result.build_commands.deep_view() =~= seq![mmc_command(main_file@, others0)]);
        }
        result
    }
}

} // verus!
