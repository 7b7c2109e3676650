//! The C language: single joint compilation of the main file together with
//! every auxiliary `.c` file, then execution of the produced binary.

use vstd::prelude::*;
use vstd::string::StringExecFns;
use crate::language::EditorConfig;
use crate::language::EditorConfigView;
use crate::language::FileRef;
use crate::language::LanguageConfig;
use crate::language::RunConfig;
use crate::language::RunConfigView;
use crate::language::RunInstructions;
use crate::language::RunInstructionsView;
use crate::utils;

verus! {

/// Descriptor for the C language.
#[derive(Debug, Clone, Copy, PartialEq, Eq, Hash)]
pub struct C;

/// The single joint clang invocation for a submission: the main file's path
/// followed by the space-joined paths of the auxiliary `.c` files.
pub open spec fn clang_command(main: Seq<char>, others: Seq<FileRef>) -> Seq<char> {
    "clang -o a.out -lm "@ + main + " "@ + utils::joined_paths(
        utils::filter_matching(others, "c"@),
    )
}

impl LanguageConfig for C {
    open spec fn spec_id(&self) -> Seq<char> {
        "c"@
    }

    open spec fn spec_name(&self) -> Seq<char> {
        "C"@
    }

    open spec fn spec_file_extension(&self) -> Seq<char> {
        "c"@
    }

    open spec fn spec_editor_config(&self) -> EditorConfigView {
        EditorConfigView {
            default_filename: "main.c"@,
            mode: "ace/mode/c_cpp"@,
            use_soft_tabs: true,
            soft_tab_size: 4,
            example_code: "#include <stdio.h>\n\nint main(void) {\n    printf(\"Hello World!\\n\");\n    return 0;\n}"@,
        }
    }

    open spec fn spec_run_config(&self) -> RunConfigView {
        RunConfigView {
            container_image: "glot/clang:latest"@,
            version_command: "clang --version | head -n 1"@,
        }
    }

    open spec fn spec_run_instructions(&self, main: Seq<char>, others: Seq<FileRef>) -> RunInstructionsView {
        RunInstructionsView {
            build_commands: seq![clang_command(main, others)],
            run_command: "./a.out"@,
        }
    }

    fn id(&self) -> (r: String) {
        "c".to_owned()
    }

    fn name(&self) -> (r: String) {
        "C".to_owned()
    }

    fn file_extension(&self) -> (r: String) {
        "c".to_owned()
    }

    fn editor_config(&self) -> (r: EditorConfig) {
        EditorConfig {
            default_filename: "main.c".to_owned(),
            mode: "ace/mode/c_cpp".to_owned(),
            use_soft_tabs: true,
            soft_tab_size: 4,
            example_code: "#include <stdio.h>\n\nint main(void) {\n    printf(\"Hello World!\\n\");\n    return 0;\n}".to_owned(),
        }
    }

    fn run_config(&self) -> (r: RunConfig) {
        RunConfig {
            container_image: "glot/clang:latest".to_owned(),
            version_command: "clang --version | head -n 1".to_owned(),
        }
    }

    fn run_instructions(&self, main_file: FileRef, other_files: Vec<FileRef>) -> (r: RunInstructions) {
        let ghost others0 = other_files@;
        let other_source_files = utils::filter_by_extension(other_files, "c");
        let joined = utils::join_files(&other_source_files);
        let build = "clang -o a.out -lm ".to_owned().concat(main_file.path.as_str()).concat(
            " ",
        ).concat(joined.as_str());
        let result = RunInstructions {
            build_commands: vec![build],
            run_command: "./a.out".to_owned(),
        };
        proof {
            assert(result.build_commands.deep_view() =~= seq![clang_command(main_file@, others0)]);
        }
        result
    }
}

} // verus!
