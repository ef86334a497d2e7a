use aria_parser::ast::{ImportPath, Location, SourceBuffer, SourcePointer};

fn here() -> SourcePointer {
    SourceBuffer::stdin("import a.b.c;").pointer(Location { start: 7, stop: 12 })
}

fn names(path: &ImportPath) -> Vec<String> {
    path.entries.iter().map(|e| e.value.clone()).collect()
}

#[test]
fn dotted_string_splits_on_dots() {
    let path = ImportPath::from_dotted_string(here(), "aria.core.list");
    assert_eq!(names(&path), vec!["aria", "core", "list"]);
    assert_eq!(path.loc, here());
    for entry in &path.entries {
        assert_eq!(entry.loc, here());
    }
}

#[test]
fn dotted_string_without_dots_is_one_entry() {
    let path = ImportPath::from_dotted_string(here(), "single");
    assert_eq!(names(&path), vec!["single"]);
}

#[test]
fn dotted_string_keeps_empty_pieces() {
    let path = ImportPath::from_dotted_string(here(), ".a..b.");
    assert_eq!(names(&path), vec!["", "a", "", "b", ""]);
}

#[test]
fn empty_dotted_string_is_one_empty_entry() {
    let path = ImportPath::from_dotted_string(here(), "");
    assert_eq!(names(&path), vec![""]);
}

#[test]
fn dotted_string_with_multibyte_names() {
    let path = ImportPath::from_dotted_string(here(), "café.naïve");
    assert_eq!(names(&path), vec!["café", "naïve"]);
}

#[test]
fn to_dotted_string_joins_with_dots() {
    let path = ImportPath::from_dotted_string(here(), "x.y.z");
    assert_eq!(path.to_dotted_string(), "x.y.z");
}

#[test]
fn to_path_string_joins_with_slashes() {
    let path = ImportPath::from_dotted_string(here(), "aria.core.list");
    assert_eq!(path.to_path_string(), "aria/core/list");
}

#[test]
fn dotted_round_trip_gives_back_the_string() {
    for dotted in ["a.b", "", ".", "..x..", "long.path.to.module", "ü.ß"] {
        let path = ImportPath::from_dotted_string(here(), dotted);
        assert_eq!(path.to_dotted_string(), dotted);
    }
}

#[test]
fn path_string_of_empty_pieces() {
    let path = ImportPath::from_dotted_string(here(), "a..b");
    assert_eq!(path.to_path_string(), "a//b");
}

#[test]
fn clone_of_import_path_is_equal() {
    let path = ImportPath::from_dotted_string(here(), "m.n");
    assert_eq!(path.clone(), path);
}

#[test]
fn path_read_back_from_its_dotted_string() {
    let names = ["aria", "collections", "vec"];
    let entries = names
        .iter()
        .map(|n| aria_parser::ast::Identifier { loc: here(), value: n.to_string() })
        .collect();
    let path = ImportPath { loc: here(), entries };
    let back = ImportPath::from_dotted_string(here(), &path.to_dotted_string());
    assert_eq!(back, path);
}
