//! The language registry: a fixed, read-only lookup table from language id
//! to language descriptor, built from a statically known set of languages.

use vstd::prelude::*;
use crate::language::c::C;
use crate::language::dart::Dart;
use crate::language::erlang::Erlang;
use crate::language::mercury::Mercury;
use crate::language::swift::Swift;
use crate::language::EditorConfig;
use crate::language::EditorConfigView;
use crate::language::FileRef;
use crate::language::LanguageConfig;
use crate::language::RunConfig;
use crate::language::RunConfigView;
use crate::language::RunInstructions;
use crate::language::RunInstructionsView;
use crate::utils;

verus! {

/// One registered language descriptor, dispatched over the closed set of
/// supported languages.
#[derive(Debug, Clone, Copy, PartialEq, Eq, Hash)]
pub enum Language {
    C(C),
    Dart(Dart),
    Erlang(Erlang),
    Mercury(Mercury),
    Swift(Swift),
}

/// Lookup failure: the id names no registered language. Surfaced to the
/// caller as a request rejection, never as a default descriptor.
#[derive(Debug, Clone, Copy, PartialEq, Eq, Hash)]
pub struct UnknownLanguage;

/// Whether some registered descriptor carries this id.
pub open spec fn spec_registered(id: Seq<char>) -> bool {
    ||| id == "c"@
    ||| id == "dart"@
    ||| id == "erlang"@
    ||| id == "mercury"@
    ||| id == "swift"@
}

/// The registry lookup, as a function of the id alone.
pub open spec fn spec_get_language(id: Seq<char>) -> Result<Language, UnknownLanguage> {
    if id == "c"@ {
        Ok(Language::C(C))
    } else if id == "dart"@ {
        Ok(Language::Dart(Dart))
    } else if id == "erlang"@ {
        Ok(Language::Erlang(Erlang))
    } else if id == "mercury"@ {
        Ok(Language::Mercury(Mercury))
    } else if id == "swift"@ {
        Ok(Language::Swift(Swift))
    } else {
        Err(UnknownLanguage)
    }
}

/// Looks the id up in the registry: the descriptor for a registered id,
/// `UnknownLanguage` for any other id.
pub fn get_language(id: &str) -> (r: Result<Language, UnknownLanguage>)
    ensures
        r == spec_get_language(id@),
        r is Ok <==> spec_registered(id@),
{
    if utils::str_eq(id, "c") {
        Ok(Language::C(C))
    } else if utils::str_eq(id, "dart") {
        Ok(Language::Dart(Dart))
    } else if utils::str_eq(id, "erlang") {
        Ok(Language::Erlang(Erlang))
    } else if utils::str_eq(id, "mercury") {
        Ok(Language::Mercury(Mercury))
    } else if utils::str_eq(id, "swift") {
        Ok(Language::Swift(Swift))
    } else {
        Err(UnknownLanguage)
    }
}

impl Language {
    /// The id of the wrapped descriptor.
    pub open spec fn spec_id(&self) -> Seq<char> {
        match self {
            Language::C(l) => l.spec_id(),
            Language::Dart(l) => l.spec_id(),
            Language::Erlang(l) => l.spec_id(),
            Language::Mercury(l) => l.spec_id(),
            Language::Swift(l) => l.spec_id(),
        }
    }

    /// The display name of the wrapped descriptor.
    pub open spec fn spec_name(&self) -> Seq<char> {
        match self {
            Language::C(l) => l.spec_name(),
            Language::Dart(l) => l.spec_name(),
            Language::Erlang(l) => l.spec_name(),
            Language::Mercury(l) => l.spec_name(),
            Language::Swift(l) => l.spec_name(),
        }
    }

    /// The canonical source-file suffix of the wrapped descriptor.
    pub open spec fn spec_file_extension(&self) -> Seq<char> {
        match self {
            Language::C(l) => l.spec_file_extension(),
            Language::Dart(l) => l.spec_file_extension(),
            Language::Erlang(l) => l.spec_file_extension(),
            Language::Mercury(l) => l.spec_file_extension(),
            Language::Swift(l) => l.spec_file_extension(),
        }
    }

    /// The editor configuration of the wrapped descriptor.
    pub open spec fn spec_editor_config(&self) -> EditorConfigView {
        match self {
            Language::C(l) => l.spec_editor_config(),
            Language::Dart(l) => l.spec_editor_config(),
            Language::Erlang(l) => l.spec_editor_config(),
            Language::Mercury(l) => l.spec_editor_config(),
            Language::Swift(l) => l.spec_editor_config(),
        }
    }

    /// The container configuration of the wrapped descriptor.
    pub open spec fn spec_run_config(&self) -> RunConfigView {
        match self {
            Language::C(l) => l.spec_run_config(),
            Language::Dart(l) => l.spec_run_config(),
            Language::Erlang(l) => l.spec_run_config(),
            Language::Mercury(l) => l.spec_run_config(),
            Language::Swift(l) => l.spec_run_config(),
        }
    }

    /// The run instructions the wrapped descriptor produces for a submission.
    pub open spec fn spec_run_instructions(&self, main: Seq<char>, others: Seq<FileRef>) -> RunInstructionsView {
        match self {
            Language::C(l) => l.spec_run_instructions(main, others),
            Language::Dart(l) => l.spec_run_instructions(main, others),
            Language::Erlang(l) => l.spec_run_instructions(main, others),
            Language::Mercury(l) => l.spec_run_instructions(main, others),
            Language::Swift(l) => l.spec_run_instructions(main, others),
        }
    }

    /// The unique lowercase language id.
    pub fn id(&self) -> (r: String)
        ensures
            r@ == self.spec_id(),
    {
        match self {
            Language::C(l) => l.id(),
            Language::Dart(l) => l.id(),
            Language::Erlang(l) => l.id(),
            Language::Mercury(l) => l.id(),
            Language::Swift(l) => l.id(),
        }
    }

    /// The human-readable display name.
    pub fn name(&self) -> (r: String)
        ensures
            r@ == self.spec_name(),
    {
        match self {
            Language::C(l) => l.name(),
            Language::Dart(l) => l.name(),
            Language::Erlang(l) => l.name(),
            Language::Mercury(l) => l.name(),
            Language::Swift(l) => l.name(),
        }
    }

    /// The canonical source-file suffix the language claims.
    pub fn file_extension(&self) -> (r: String)
        ensures
            r@ == self.spec_file_extension(),
    {
        match self {
            Language::C(l) => l.file_extension(),
            Language::Dart(l) => l.file_extension(),
            Language::Erlang(l) => l.file_extension(),
            Language::Mercury(l) => l.file_extension(),
            Language::Swift(l) => l.file_extension(),
        }
    }

    /// The editor configuration record.
    pub fn editor_config(&self) -> (r: EditorConfig)
        ensures
            r@ == self.spec_editor_config(),
    {
        match self {
            Language::C(l) => l.editor_config(),
            Language::Dart(l) => l.editor_config(),
            Language::Erlang(l) => l.editor_config(),
            Language::Mercury(l) => l.editor_config(),
            Language::Swift(l) => l.editor_config(),
        }
    }

    /// The container configuration record.
    pub fn run_config(&self) -> (r: RunConfig)
        ensures
            r@ == self.spec_run_config(),
    {
        match self {
            Language::C(l) => l.run_config(),
            Language::Dart(l) => l.run_config(),
            Language::Erlang(l) => l.run_config(),
            Language::Mercury(l) => l.run_config(),
            Language::Swift(l) => l.run_config(),
        }
    }

    /// The run instructions for a submission: the main file plus the
    /// auxiliary files, in their submitted order.
    pub fn run_instructions(&self, main_file: FileRef, other_files: Vec<FileRef>) -> (r: RunInstructions)
        ensures
            r@ == self.spec_run_instructions(main_file@, other_files@),
    {
        match self {
            Language::C(l) => l.run_instructions(main_file, other_files),
            Language::Dart(l) => l.run_instructions(main_file, other_files),
            Language::Erlang(l) => l.run_instructions(main_file, other_files),
            Language::Mercury(l) => l.run_instructions(main_file, other_files),
            Language::Swift(l) => l.run_instructions(main_file, other_files),
        }
    }
}

/// A successful lookup returns the descriptor whose id equals the lookup
/// key; an unregistered id fails with `UnknownLanguage` and yields no
/// descriptor at all.
pub proof fn lemma_get_language_id_matches(id: Seq<char>)
    ensures
        spec_registered(id) ==> spec_get_language(id) is Ok
            && spec_get_language(id)->Ok_0.spec_id() == id,
        !spec_registered(id) ==> spec_get_language(id) == Err::<Language, UnknownLanguage>(
            UnknownLanguage,
        ),
{
}

/// The instruction compiler is deterministic: any two run instructions
/// produced for the same (main, others) submission agree.
pub proof fn lemma_run_instructions_deterministic(
    lang: Language,
    main: FileRef,
    others: Seq<FileRef>,
    r1: RunInstructions,
    r2: RunInstructions,
)
    requires
        r1@ == lang.spec_run_instructions(main@, others),
        r2@ == lang.spec_run_instructions(main@, others),
    ensures
        r1@ == r2@,
{
}

/// Every language's run command is fixed by the main file alone: it is
/// independent of the auxiliary-file set.
pub proof fn lemma_run_command_independent_of_other_files(
    lang: Language,
    main: Seq<char>,
    others1: Seq<FileRef>,
    others2: Seq<FileRef>,
)
    ensures
        lang.spec_run_instructions(main, others1).run_command == lang.spec_run_instructions(
            main,
            others2,
        ).run_command,
{
}

} // verus!


