use glot_languages::language::c::C;
use glot_languages::language::dart::Dart;
use glot_languages::language::erlang::Erlang;
use glot_languages::language::mercury::Mercury;
use glot_languages::language::swift::Swift;
use glot_languages::language::FileRef;
use glot_languages::language::LanguageConfig;

fn file(path: &str) -> FileRef {
    FileRef { path: path.to_string() }
}

#[test]
fn c_compiles_matching_files_jointly() {
    let r = C.run_instructions(file("main.c"), vec![file("helper.c"), file("notes.txt")]);
    assert_eq!(
        r.build_commands,
        vec!["clang -o a.out -lm main.c helper.c".to_string()]
    );
    assert_eq!(r.run_command, "./a.out");
}

#[test]
fn c_with_no_auxiliary_files() {
    let r = C.run_instructions(file("main.c"), Vec::new());
    assert_eq!(r.build_commands, vec!["clang -o a.out -lm main.c ".to_string()]);
    assert_eq!(r.run_command, "./a.out");
}

#[test]
fn c_run_command_independent_of_auxiliary_set() {
    let r1 = C.run_instructions(file("main.c"), Vec::new());
    let r2 = C.run_instructions(file("main.c"), vec![file("x.c"), file("y.c")]);
    assert_eq!(r1.run_command, r2.run_command);
}

#[test]
fn mercury_compiles_matching_files_jointly() {
    let r = Mercury.run_instructions(file("main.m"), vec![file("lib.m"), file("readme.md")]);
    assert_eq!(r.build_commands, vec!["mmc -o a.out main.m lib.m".to_string()]);
    assert_eq!(r.run_command, "./a.out");
}

#[test]
fn erlang_compiles_each_module_separately() {
    let r = Erlang.run_instructions(
        file("main.erl"),
        vec![file("a.erl"), file("b.erl"), file("readme.md")],
    );
    assert_eq!(
        r.build_commands,
        vec!["erlc a.erl".to_string(), "erlc b.erl".to_string()]
    );
    assert_eq!(r.run_command, "escript main.erl");
}

#[test]
fn erlang_with_no_matching_files_has_no_build_step() {
    let r = Erlang.run_instructions(file("main.erl"), vec![file("readme.md")]);
    assert!(r.build_commands.is_empty());
    assert_eq!(r.run_command, "escript main.erl");
}

#[test]
fn dart_runs_the_main_file_directly() {
    let r = Dart.run_instructions(file("main.dart"), vec![file("util.dart"), file("x.txt")]);
    assert!(r.build_commands.is_empty());
    assert_eq!(r.run_command, "dart main.dart");
}

#[test]
fn swift_runs_the_main_file_directly() {
    let r = Swift.run_instructions(file("main.swift"), vec![file("util.swift")]);
    assert!(r.build_commands.is_empty());
    assert_eq!(r.run_command, "swift main.swift");
}

#[test]
fn compile_is_deterministic() {
    let r1 = C.run_instructions(file("main.c"), vec![file("a.c"), file("b.txt")]);
    let r2 = C.run_instructions(file("main.c"), vec![file("a.c"), file("b.txt")]);
    assert_eq!(r1, r2);
    let e1 = Erlang.run_instructions(file("m.erl"), vec![file("a.erl")]);
    let e2 = Erlang.run_instructions(file("m.erl"), vec![file("a.erl")]);
    assert_eq!(e1, e2);
}

#[test]
fn language_identities() {
    assert_eq!(C.id(), "c");
    assert_eq!(C.name(), "C");
    assert_eq!(C.file_extension(), "c");
    assert_eq!(Dart.id(), "dart");
    assert_eq!(Dart.name(), "Dart");
    assert_eq!(Dart.file_extension(), "dart");
    assert_eq!(Erlang.id(), "erlang");
    assert_eq!(Erlang.name(), "Erlang");
    assert_eq!(Erlang.file_extension(), "erl");
    assert_eq!(Mercury.id(), "mercury");
    assert_eq!(Mercury.name(), "Mercury");
    assert_eq!(Mercury.file_extension(), "m");
    assert_eq!(Swift.id(), "swift");
    assert_eq!(Swift.name(), "Swift");
    assert_eq!(Swift.file_extension(), "swift");
}

#[test]
fn c_editor_and_run_config() {
    let e = C.editor_config();
    assert_eq!(e.default_filename, "main.c");
    assert_eq!(e.mode, "ace/mode/c_cpp");
    assert!(e.use_soft_tabs);
    assert_eq!(e.soft_tab_size, 4);
    assert_eq!(
        e.example_code,
        "#include <stdio.h>\n\nint main(void) {\n    printf(\"Hello World!\\n\");\n    return 0;\n}"
    );
    let r = C.run_config();
    assert_eq!(r.container_image, "glot/clang:latest");
    assert_eq!(r.version_command, "clang --version | head -n 1");
}

#[test]
fn erlang_editor_and_run_config() {
    let e = Erlang.editor_config();
    assert_eq!(e.default_filename, "main.erl");
    assert_eq!(e.mode, "ace/mode/erlang");
    assert_eq!(
        e.example_code,
        "% escript will ignore the first line\n\nmain(_) ->\n    io:format(\"Hello World!~n\")."
    );
    let r = Erlang.run_config();
    assert_eq!(r.container_image, "glot/erlang:latest");
    assert_eq!(r.version_command, "erl -version 2>&1");
}

#[test]
fn dart_editor_and_run_config() {
    let e = Dart.editor_config();
    assert_eq!(e.default_filename, "main.dart");
    assert_eq!(e.mode, "ace/mode/dart");
    assert_eq!(e.example_code, "void main() {\n    print('Hello World!');\n}");
    let r = Dart.run_config();
    assert_eq!(r.container_image, "glot/dart:latest");
    assert_eq!(r.version_command, "dart --version");
}

#[test]
fn mercury_editor_and_run_config() {
    let e = Mercury.editor_config();
    assert_eq!(e.default_filename, "main.m");
    assert_eq!(e.mode, "ace/mode/plain_text");
    assert_eq!(
        e.example_code,
        ":- module main.\n:- interface.\n:- import_module io.\n\n:- pred main(io::di, io::uo) is det.\n\n:- implementation.\n\nmain(!IO) :-\n    io.write_string(\"Hello World!\", !IO)."
    );
    let r = Mercury.run_config();
    assert_eq!(r.container_image, "glot/mercury:latest");
    assert_eq!(r.version_command, "mmc --version | head -n 1");
}

#[test]
fn swift_editor_and_run_config() {
    let e = Swift.editor_config();
    assert_eq!(e.default_filename, "main.swift");
    assert_eq!(e.mode, "ace/mode/swift");
    assert_eq!(e.example_code, "print(\"Hello World!\")");
    let r = Swift.run_config();
    assert_eq!(r.container_image, "glot/swift:latest");
    assert_eq!(r.version_command, "swift --version | head -n 1");
}
