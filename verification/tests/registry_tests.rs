use glot_languages::language::FileRef;
use glot_languages::registry::get_language;
use glot_languages::registry::Language;
use glot_languages::registry::UnknownLanguage;

fn file(path: &str) -> FileRef {
    FileRef { path: path.to_string() }
}

#[test]
fn lookup_returns_descriptor_with_matching_id() {
    for id in ["c", "dart", "erlang", "mercury", "swift"] {
        let lang = get_language(id).expect("registered id");
        assert_eq!(lang.id(), id);
    }
}

#[test]
fn lookup_of_unknown_id_fails() {
    assert_eq!(get_language("cobol"), Err(UnknownLanguage));
    assert_eq!(get_language(""), Err(UnknownLanguage));
    assert_eq!(get_language("C"), Err(UnknownLanguage));
    assert_eq!(get_language("erl"), Err(UnknownLanguage));
}

#[test]
fn lookup_picks_the_right_variant() {
    assert!(matches!(get_language("c"), Ok(Language::C(_))));
    assert!(matches!(get_language("dart"), Ok(Language::Dart(_))));
    assert!(matches!(get_language("erlang"), Ok(Language::Erlang(_))));
    assert!(matches!(get_language("mercury"), Ok(Language::Mercury(_))));
    assert!(matches!(get_language("swift"), Ok(Language::Swift(_))));
}

#[test]
fn dispatch_through_the_registry() {
    let lang = get_language("erlang").expect("registered id");
    let r = lang.run_instructions(file("main.erl"), vec![file("a.erl")]);
    assert_eq!(r.build_commands, vec!["erlc a.erl".to_string()]);
    assert_eq!(r.run_command, "escript main.erl");

    let lang = get_language("swift").expect("registered id");
    let r = lang.run_instructions(file("main.swift"), vec![file("a.swift")]);
    assert!(r.build_commands.is_empty());
    assert_eq!(r.run_command, "swift main.swift");
}

#[test]
fn registry_surface_of_each_descriptor() {
    let names: Vec<String> = ["c", "dart", "erlang", "mercury", "swift"]
        .iter()
        .map(|id| get_language(id).expect("registered id").name())
        .collect();
    assert_eq!(names, vec!["C", "Dart", "Erlang", "Mercury", "Swift"]);
    let exts: Vec<String> = ["c", "dart", "erlang", "mercury", "swift"]
        .iter()
        .map(|id| get_language(id).expect("registered id").file_extension())
        .collect();
    assert_eq!(exts, vec!["c", "dart", "erl", "m", "swift"]);
}
