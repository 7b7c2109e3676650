//! The Swift language: no build step; the interpreter is invoked on the main
//! file alone and resolves auxiliary files itself at run time.

use vstd::prelude::*;
use vstd::string::StringExecFns;
use crate::language::EditorConfig;
use crate::language::EditorConfigView;
use crate::language::FileRef;
use crate::language::LanguageConfig;
use crate::language::RunConfig;
use crate::language::RunConfigView;
use crate::language::RunInstructions;
use crate::language::RunInstructionsView;

verus! {

/// Descriptor for the Swift language.
#[derive(Debug, Clone, Copy, PartialEq, Eq, Hash)]
pub struct Swift;

/// Swift needs no separate build step: whatever the auxiliary set, the
/// build command list is empty and the run command names only the main
/// file's path. Auxiliary files are resolved by the interpreter at run time.
pub proof fn lemma_swift_no_build_step(main: Seq<char>, others: Seq<FileRef>)
    ensures
        Swift.spec_run_instructions(main, others).build_commands == Seq::<Seq<char>>::empty(),
        Swift.spec_run_instructions(main, others).run_command == "swift "@ + main,
{
}

impl LanguageConfig for Swift {
    open spec fn spec_id(&self) -> Seq<char> {
        "swift"@
    }

    open spec fn spec_name(&self) -> Seq<char> {
        "Swift"@
    }

    open spec fn spec_file_extension(&self) -> Seq<char> {
        "swift"@
    }

    open spec fn spec_editor_config(&self) -> EditorConfigView {
        EditorConfigView {
            default_filename: "main.swift"@,
            mode: "ace/mode/swift"@,
            use_soft_tabs: true,
            soft_tab_size: 4,
            example_code: "print(\"Hello World!\")"@,
        }
    }

    open spec fn spec_run_config(&self) -> RunConfigView {
        RunConfigView {
            container_image: "glot/swift:latest"@,
            version_command: "swift --version | head -n 1"@,
        }
    }

    open spec fn spec_run_instructions(&self, main: Seq<char>, others: Seq<FileRef>) -> RunInstructionsView {
        RunInstructionsView {
            build_commands: Seq::empty(),
            run_command: "swift "@ + main,
        }
    }

    fn id(&self) -> (r: String) {
        "swift".to_owned()
    }

    fn name(&self) -> (r: String) {
        "Swift".to_owned()
    }

    fn file_extension(&self) -> (r: String) {
        "swift".to_owned()
    }

    fn editor_config(&self) -> (r: EditorConfig) {
        EditorConfig {
            default_filename: "main.swift".to_owned(),
            mode: "ace/mode/swift".to_owned(),
            use_soft_tabs: true,
            soft_tab_size: 4,
            example_code: "print(\"Hello World!\")".to_owned(),
        }
    }

    fn run_config(&self) -> (r: RunConfig) {
        RunConfig {
            container_image: "glot/swift:latest".to_owned(),
            version_command: "swift --version | head -n 1".to_owned(),
        }
    }

    fn run_instructions(&self, main_file: FileRef, other_files: Vec<FileRef>) -> (r: RunInstructions) {
        let result = RunInstructions {
            build_commands: Vec::new(),
            run_command: "swift ".to_owned().concat(main_file.path.as_str()),
        };
        proof {
            assert(result.build_commands.deep_view() =~= Seq::<Seq<char>>::empty());
        }
        result
    }
}

} // verus!
