//! The Dart language: no build step; the interpreter is invoked on the main
//! file alone and resolves auxiliary files itself at run time.

use vstd::prelude::*;
use vstd::string::StringExecFns;
use crate::language::EditorConfig;
use crate::language::EditorConfigView;
use crate::language::FileRef;
use crate::language::LanguageConfig;
use crate::language::RunConfig;
use crate::language::RunConfigView;
use crate::language::RunInstructions;
use crate::language::RunInstructionsView;

verus! {

/// Descriptor for the Dart language.
#[derive(Debug, Clone, Copy, PartialEq, Eq, Hash)]
pub struct Dart;

/// Dart needs no separate build step: whatever the auxiliary set, the build
/// command list is empty and the run command names only the main file's
/// path. Auxiliary files are resolved by the interpreter at run time.
pub proof fn lemma_dart_no_build_step(main: Seq<char>, others: Seq<FileRef>)
    ensures
        Dart.spec_run_instructions(main, others).build_commands == Seq::<Seq<char>>::empty(),
        Dart.spec_run_instructions(main, others).run_command == "dart "@ + main,
{
}

impl LanguageConfig for Dart {
    open spec fn spec_id(&self) -> Seq<char> {
        "dart"@
    }

    open spec fn spec_name(&self) -> Seq<char> {
        "Dart"@
    }

    open spec fn spec_file_extension(&self) -> Seq<char> {
        "dart"@
    }

    open spec fn spec_editor_config(&self) -> EditorConfigView {
        EditorConfigView {
            default_filename: "main.dart"@,
            mode: "ace/mode/dart"@,
            use_soft_tabs: true,
            soft_tab_size: 4,
            example_code: "void main() {\n    print('Hello World!');\n}"@,
        }
    }

    open spec fn spec_run_config(&self) -> RunConfigView {
        RunConfigView {
            container_image: "glot/dart:latest"@,
            version_command: "dart --version"@,
        }
    }

    open spec fn spec_run_instructions(&self, main: Seq<char>, others: Seq<FileRef>) -> RunInstructionsView {
        RunInstructionsView {
            build_commands: Seq::empty(),
            run_command: "dart "@ + main,
        }
    }

    fn id(&self) -> (r: String) {
        "dart".to_owned()
    }

    fn name(&self) -> (r: String) {
        "Dart".to_owned()
    }

    fn file_extension(&self) -> (r: String) {
        "dart".to_owned()
    }

    fn editor_config(&self) -> (r: EditorConfig) {
        EditorConfig {
            default_filename: "main.dart".to_owned(),
            mode: "ace/mode/dart".to_owned(),
            use_soft_tabs: true,
            soft_tab_size: 4,
            example_code: "void main() {\n    print('Hello World!');\n}".to_owned(),
        }
    }

    fn run_config(&self) -> (r: RunConfig) {
        RunConfig {
            container_image: "glot/dart:latest".to_owned(),
            version_command: "dart --version".to_owned(),
        }
    }

    fn run_instructions(&self, main_file: FileRef, other_files: Vec<FileRef>) -> (r: RunInstructions) {
        let result = RunInstructions {
            build_commands: Vec::new(),
            run_command: "dart ".to_owned().concat(main_file.path.as_str()),
        };
        proof {
            assert(result.build_commands.deep_view() =~= Seq::<Seq<char>>::empty());
        }
        result
    }
}

} // verus!
