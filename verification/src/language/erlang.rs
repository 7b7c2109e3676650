//! The Erlang language: each auxiliary `.erl` module is compiled on its own
//! in submission order, then escript interprets the main file alone.

use vstd::prelude::*;
use vstd::string::StringExecFns;
use crate::language::EditorConfig;
use crate::language::EditorConfigView;
use crate::language::FileRef;
use crate::language::LanguageConfig;
use crate::language::RunConfig;
use crate::language::RunConfigView;
use crate::language::RunInstructions;
use crate::language::RunInstructionsView;
use crate::utils;

verus! {

/// Descriptor for the Erlang language.
#[derive(Debug, Clone, Copy, PartialEq, Eq, Hash)]
pub struct Erlang;

/// One independent erlc invocation per file, in the order given.
pub open spec fn erlc_commands(files: Seq<FileRef>) -> Seq<Seq<char>>
    decreases files.len(),
{
    if files.len() == 0 {
        Seq::empty()
    } else {
        erlc_commands(files.drop_last()).push("erlc "@ + files.last()@)
    }
}

/// `erlc_commands` holds one command per file: the `i`-th command compiles
/// exactly the `i`-th file.
pub proof fn lemma_erlc_commands_pointwise(files: Seq<FileRef>)
    ensures
        erlc_commands(files).len() == files.len(),
        forall|i: int|
            0 <= i < files.len() ==> #[trigger] erlc_commands(files)[i] == "erlc "@ + files[i]@,
    decreases files.len(),
{
    if files.len() > 0 {
        lemma_erlc_commands_pointwise(files.drop_last());
    }
}

impl LanguageConfig for Erlang {
    open spec fn spec_id(&self) -> Seq<char> {
        "erlang"@
    }

    open spec fn spec_name(&self) -> Seq<char> {
        "Erlang"@
    }

    open spec fn spec_file_extension(&self) -> Seq<char> {
        "erl"@
    }

    open spec fn spec_editor_config(&self) -> EditorConfigView {
        EditorConfigView {
            default_filename: "main.erl"@,
            mode: "ace/mode/erlang"@,
            use_soft_tabs: true,
            soft_tab_size: 4,
            example_code: "% escript will ignore the first line\n\nmain(_) ->\n    io:format(\"Hello World!~n\")."@,
        }
    }

    open spec fn spec_run_config(&self) -> RunConfigView {
        RunConfigView {
            container_image: "glot/erlang:latest"@,
            version_command: "erl -version 2>&1"@,
        }
    }

    open spec fn spec_run_instructions(&self, main: Seq<char>, others: Seq<FileRef>) -> RunInstructionsView {
        RunInstructionsView {
            build_commands: erlc_commands(utils::filter_matching(others, "erl"@)),
            run_command: "escript "@ + main,
        }
    }

    fn id(&self) -> (r: String) {
        "erlang".to_owned()
    }

    fn name(&self) -> (r: String) {
        "Erlang".to_owned()
    }

    fn file_extension(&self) -> (r: String) {
        "erl".to_owned()
    }

    fn editor_config(&self) -> (r: EditorConfig) {
        EditorConfig {
            default_filename: "main.erl".to_owned(),
            mode: "ace/mode/erlang".to_owned(),
            use_soft_tabs: true,
            soft_tab_size: 4,
            example_code: "% escript will ignore the first line\n\nmain(_) ->\n    io:format(\"Hello World!~n\").".to_owned(),
        }
    }

    fn run_config(&self) -> (r: RunConfig) {
        RunConfig {
            container_image: "glot/erlang:latest".to_owned(),
            version_command: "erl -version 2>&1".to_owned(),
        }
    }

    fn run_instructions(&self, main_file: FileRef, other_files: Vec<FileRef>) -> (r: RunInstructions) {
        let ghost others0 = other_files@;
        let other_source_files = utils::filter_by_extension(other_files, "erl");
        let mut build_commands: Vec<String> = Vec::new();
        let mut i: usize = 0;
        while i < other_source_files.len()
            invariant
                i <= other_source_files@.len(),
                build_commands.deep_view() == erlc_commands(other_source_files@.subrange(0, i as int)),
            decreases other_source_files@.len() - i,
        {
            let command = "erlc ".to_owned().concat(other_source_files[i].path.as_str());
            build_commands.push(command);
            proof {
                let s1 = other_source_files@.subrange(0, i as int);
                let s2 = other_source_files@.subrange(0, i as int + 1);
                assert(s2.drop_last() =~= s1);
                assert(s2.last() == other_source_files@[i as int]);
                assert(build_commands.deep_view() =~= erlc_commands(s2));
            }
            i += 1;
        }
        proof {
            assert(other_source_files@.subrange(0, other_source_files@.len() as int)
                =~= other_source_files@);
        }
        let result = RunInstructions {
            build_commands,
            run_command: "escript ".to_owned().concat(main_file.path.as_str()),
        };
        result
    }
}

} // verus!
