use texpand::engine::Engine;
use texpand::machine::Status;
use texpand::table::{MacroError, MacroTable};

#[test]
fn new_engine_runs_with_nothing_written() {
    let engine = Engine::new(MacroTable::new(), "abc");
    assert_eq!(engine.status(), Status::Running);
    assert_eq!(engine.output(), "");
    assert_eq!(engine.include_path(), None);
}

#[test]
fn each_move_reads_one_scalar() {
    let mut engine = Engine::new(MacroTable::new(), "abc");
    engine.step();
    assert_eq!(engine.output(), "a");
    engine.step();
    engine.step();
    assert_eq!(engine.output(), "abc");
    assert_eq!(engine.status(), Status::Running);
    engine.step();
    assert_eq!(engine.status(), Status::Done);
    engine.step();
    assert_eq!(engine.status(), Status::Done);
    assert_eq!(engine.output(), "abc");
}

#[test]
fn fuel_bounds_the_moves() {
    let mut engine = Engine::new(MacroTable::new(), "abcdef");
    assert_eq!(engine.process_str(0), Status::Running);
    assert_eq!(engine.output(), "");
    assert_eq!(engine.process_str(2), Status::Running);
    assert_eq!(engine.output(), "ab");
    assert_eq!(engine.process_str(4), Status::Running);
    assert_eq!(engine.output(), "abcdef");
    assert_eq!(engine.process_str(1), Status::Done);
    assert_eq!(engine.process_str(100), Status::Done);
    assert_eq!(engine.output(), "abcdef");
}

#[test]
fn endless_expansion_keeps_running() {
    let mut engine = Engine::new(MacroTable::new(), "\\def{a}{\\a{}}\\a{}");
    assert_eq!(engine.process_str(100_000), Status::Running);
    assert_eq!(engine.process_str(100_000), Status::Running);
    assert_eq!(engine.output(), "");
}

#[test]
fn include_waits_for_the_named_file() {
    let mut engine = Engine::new(MacroTable::new(), "a\\include{dir/file.tex}b");
    assert_eq!(engine.process_str(1000), Status::Reading);
    assert_eq!(engine.include_path(), Some("dir/file.tex".to_string()));
    assert_eq!(engine.process_str(1000), Status::Reading);
    engine.supply_include(Some("X % note\n   Y".to_string()));
    assert_eq!(engine.include_path(), None);
    assert_eq!(engine.process_str(1000), Status::Done);
    assert_eq!(engine.output(), "aX Yb");
}

#[test]
fn included_text_is_read_like_source() {
    let mut engine = Engine::new(MacroTable::new(), "\\include{defs}\\hi{you}");
    assert_eq!(engine.process_str(1000), Status::Reading);
    engine.supply_include(Some("\\def{hi}{Hello, #!}% trailing\n".to_string()));
    assert_eq!(engine.process_str(1000), Status::Done);
    assert_eq!(engine.output(), "Hello, you!");
    assert!(engine.table().contains("hi"));
}

#[test]
fn include_path_is_taken_as_written() {
    let mut engine = Engine::new(MacroTable::new(), "\\include{a{b}c}");
    assert_eq!(engine.process_str(1000), Status::Reading);
    assert_eq!(engine.include_path(), Some("a{b}c".to_string()));
    let mut engine = Engine::new(MacroTable::new(), "\\def{d}{x}\\include{\\d{}/f\\}#}");
    assert_eq!(engine.process_str(1000), Status::Reading);
    assert_eq!(engine.include_path(), Some("\\d{}/f\\}#".to_string()));
}

#[test]
fn failed_read_fails_the_expansion() {
    let mut engine = Engine::new(MacroTable::new(), "a\\include{nowhere}b");
    assert_eq!(engine.process_str(1000), Status::Reading);
    engine.supply_include(None);
    assert_eq!(engine.status(), Status::Failed(MacroError::IncludeFailed));
    assert_eq!(engine.process_str(1000), Status::Failed(MacroError::IncludeFailed));
}

#[test]
fn text_supplied_unasked_is_ignored() {
    let mut engine = Engine::new(MacroTable::new(), "ab");
    engine.supply_include(Some("zzz".to_string()));
    assert_eq!(engine.process_str(1000), Status::Done);
    assert_eq!(engine.output(), "ab");
    engine.supply_include(None);
    assert_eq!(engine.status(), Status::Done);
}

#[test]
fn include_inside_second_group_of_expandafter() {
    let mut engine = Engine::new(MacroTable::new(), "\\expandafter{<}{\\include{f}}>");
    assert_eq!(engine.process_str(1000), Status::Reading);
    engine.supply_include(Some("in".to_string()));
    assert_eq!(engine.process_str(1000), Status::Done);
    assert_eq!(engine.output(), "<in>");
}

#[test]
fn engine_starts_from_given_bindings() {
    let mut table = MacroTable::new();
    table.insert("hi".to_string(), "Hello, #!".to_string());
    let mut engine = Engine::new(table, "\\hi{you}\\ifdef{hi}{+}{-}\\undef{hi}");
    assert_eq!(engine.process_str(1000), Status::Done);
    assert_eq!(engine.output(), "Hello, you!+");
    assert!(!engine.table().contains("hi"));
}

#[test]
fn table_shows_what_was_defined() {
    let mut engine = Engine::new(MacroTable::new(), "\\def{a}{x{#}\\#}");
    assert_eq!(engine.process_str(1000), Status::Done);
    assert_eq!(engine.table().body("a"), Some(&"x{#}\\#".to_string()));
    assert_eq!(engine.table().body("b"), None);
}

#[test]
fn every_error_has_its_message() {
    assert_eq!(MacroError::BadCallName.message(), "Non-alphanumeric in macro name");
    assert_eq!(MacroError::BadDefName.message(), "Non-alphanumeric while defining macro name.");
    assert_eq!(MacroError::BadUndefName.message(), "Non-alphanumeric in un-define.");
    assert_eq!(MacroError::AlreadyDefined.message(), "Macro already defined.");
    assert_eq!(MacroError::NotDefined.message(), "Macro not defined.");
    assert_eq!(MacroError::Incomplete.message(), "Incomplete macro.");
    assert_eq!(MacroError::IncludeFailed.message(), "Include error.");
}

#[test]
fn failure_names_its_kind() {
    let mut engine = Engine::new(MacroTable::new(), "ok\\def{a}{1}\\def{a}{2}tail");
    assert_eq!(engine.process_str(1000), Status::Failed(MacroError::AlreadyDefined));
    assert_eq!(engine.output(), "ok");
    let mut engine = Engine::new(MacroTable::new(), "\\a b");
    assert_eq!(engine.process_str(1000), Status::Failed(MacroError::BadCallName));
    let mut engine = Engine::new(MacroTable::new(), "\\undef{a b}");
    assert_eq!(engine.process_str(1000), Status::Failed(MacroError::BadUndefName));
    let mut engine = Engine::new(MacroTable::new(), "\\def{a b}{}");
    assert_eq!(engine.process_str(1000), Status::Failed(MacroError::BadDefName));
    let mut engine = Engine::new(MacroTable::new(), "\\x{}");
    assert_eq!(engine.process_str(1000), Status::Failed(MacroError::NotDefined));
    let mut engine = Engine::new(MacroTable::new(), "\\x{");
    assert_eq!(engine.process_str(1000), Status::Failed(MacroError::Incomplete));
}
