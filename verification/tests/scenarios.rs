use texpand::comments::preproc_text;
use texpand::engine::Engine;
use texpand::machine::Status;
use texpand::table::MacroTable;

fn expand(source: &str) -> Result<String, String> {
    let cleaned = preproc_text(source.to_string());
    let mut engine = Engine::new(MacroTable::new(), cleaned.as_str());
    loop {
        match engine.process_str(1_000_000) {
            Status::Done => return Ok(engine.output()),
            Status::Failed(e) => return Err(e.message()),
            Status::Reading => engine.supply_include(None),
            Status::Running => panic!("expansion did not end"),
        }
    }
}

fn ok(text: &str) -> Result<String, String> {
    Ok(text.to_string())
}

fn err(text: &str) -> Result<String, String> {
    Err(text.to_string())
}

#[test]
fn greeting_takes_its_argument() {
    assert_eq!(expand("\\def{greet}{Hello, #!}\\greet{world}"), ok("Hello, world!"));
}

#[test]
fn nested_call_in_body_is_rescanned() {
    assert_eq!(expand("\\def{a}{A}\\def{b}{\\a{}}\\b{}"), ok("A"));
}

#[test]
fn comment_takes_the_next_lines_indentation() {
    assert_eq!(expand("A% comment\n  B"), ok("AB"));
    assert_eq!(expand("A % comment\n  B"), ok("A B"));
}

#[test]
fn if_chooses_by_emptiness() {
    assert_eq!(expand("\\if{}{yes}{no}\\if{x}{yes}{no}"), ok("noyes"));
}

#[test]
fn ifdef_follows_def_and_undef() {
    assert_eq!(expand("\\def{m}{X}\\ifdef{m}{Y}{Z}\\undef{m}\\ifdef{m}{Y}{Z}"), ok("YZ"));
}

#[test]
fn expandafter_expands_second_group_first() {
    assert_eq!(expand("\\def{id}{#}\\expandafter{\\id}{{raw}}"), ok("raw"));
}

#[test]
fn expandafter_requeues_groups_without_their_braces() {
    assert_eq!(expand("\\def{id}{#}\\expandafter{\\id}{raw}"), err("Incomplete macro."));
    assert_eq!(
        expand("\\def{B}{buffalo}\\expandafter{\\def{B}{bison}}{\\B{}} \\B{}"),
        err("Macro already defined.")
    );
    assert_eq!(
        expand("\\def{B}{buffalo}\\expandafter{\\undef{B}\\def{B}{bison}}{\\B{}} \\B{}"),
        ok("buffalo bison")
    );
}

#[test]
fn expandafter_second_group_sees_bindings_before_first_runs() {
    assert_eq!(
        expand("\\def{x}{old}\\expandafter{\\undef{x}\\def{x}{new}}{\\x{}}/\\x{}"),
        ok("old/new")
    );
}

#[test]
fn nested_expandafter_defers_in_turn() {
    assert_eq!(
        expand("\\def{a}{1}\\expandafter{<}{\\expandafter{[}{\\a{}}}"),
        ok("<[1")
    );
}

#[test]
fn failure_inside_second_group_fails_the_whole() {
    assert_eq!(expand("ab\\expandafter{x}{\\nope{}}"), err("Macro not defined."));
    assert_eq!(expand("ab\\expandafter{x}{\\def{a}{"), err("Incomplete macro."));
}

#[test]
fn text_between_expandafter_groups_joins_the_second() {
    assert_eq!(expand("\\expandafter{A}x{B}"), ok("Ax{B"));
}

#[test]
fn second_def_is_refused() {
    assert_eq!(expand("\\def{a}{1}\\def{a}{2}"), err("Macro already defined."));
}

#[test]
fn undef_of_unbound_name_is_refused() {
    assert_eq!(expand("\\undef{z}"), err("Macro not defined."));
}

#[test]
fn open_body_at_end_is_incomplete() {
    assert_eq!(expand("\\def{a}{x"), err("Incomplete macro."));
}

#[test]
fn unreadable_include_is_an_error() {
    assert_eq!(expand("\\include{/no/such/file}"), err("Include error."));
}

#[test]
fn plain_text_expands_to_itself() {
    assert_eq!(expand("plain text, no markers!\n"), ok("plain text, no markers!\n"));
    assert_eq!(expand(""), ok(""));
}

#[test]
fn call_after_def_and_undef_is_undefined() {
    assert_eq!(expand("\\def{m}{B}\\undef{m}\\m{arg}"), err("Macro not defined."));
}

#[test]
fn undef_makes_room_for_a_new_def() {
    assert_eq!(expand("\\def{a}{1}\\undef{a}\\def{a}{2}\\a{}"), ok("2"));
}

#[test]
fn if_counts_inner_braces_as_content() {
    assert_eq!(expand("\\if{{}}{T}{E}"), ok("T"));
}

#[test]
fn if_after_ifdef_with_nested_group_still_sees_empty_condition() {
    assert_eq!(expand("\\ifdef{a{b}}{T}{E}\\if{}{yes}{no}"), ok("Eno"));
}

#[test]
fn branch_taken_is_rescanned() {
    assert_eq!(expand("\\def{a}{A}\\if{x}{\\a{}}{no}"), ok("A"));
    assert_eq!(expand("\\def{a}{A}\\ifdef{zz}{no}{\\a{}{}}"), ok("A{}"));
}

#[test]
fn branches_keep_inner_braces() {
    assert_eq!(expand("\\if{c}{a{b}c}{d{e}f}"), ok("a{b}c"));
    assert_eq!(expand("\\if{}{a{b}c}{d{e}f}"), ok("d{e}f"));
}

#[test]
fn missing_branch_is_incomplete() {
    assert_eq!(expand("\\if{x}yes"), err("Incomplete macro."));
    assert_eq!(expand("\\if{x}{yes}no"), err("Incomplete macro."));
    assert_eq!(expand("\\if{x}{yes}"), err("Incomplete macro."));
    assert_eq!(expand("\\ifdef{x}{yes}}"), err("Incomplete macro."));
    assert_eq!(expand("\\if{x}}"), err("Incomplete macro."));
}

#[test]
fn body_must_follow_name_at_once() {
    assert_eq!(expand("\\def{a} {x}"), err("Incomplete macro."));
    assert_eq!(expand("\\def{a}}"), err("Incomplete macro."));
    assert_eq!(expand("\\def{a}"), err("Incomplete macro."));
}

#[test]
fn def_name_must_be_alphanumeric_and_not_empty() {
    assert_eq!(expand("\\def{a b}{x}"), err("Non-alphanumeric while defining macro name."));
    assert_eq!(expand("\\def{a{b}}{x}"), err("Non-alphanumeric while defining macro name."));
    assert_eq!(expand("\\def{}{x}"), err("Non-alphanumeric while defining macro name."));
}

#[test]
fn undef_name_must_be_alphanumeric() {
    assert_eq!(expand("\\def{a}{x}\\undef{a-b}"), err("Non-alphanumeric in un-define."));
    assert_eq!(expand("\\undef{}"), err("Macro not defined."));
}

#[test]
fn called_name_must_be_alphanumeric() {
    assert_eq!(expand("\\ab cd{x}"), err("Non-alphanumeric in macro name"));
    assert_eq!(expand("\\a\\b{x}"), err("Non-alphanumeric in macro name"));
}

#[test]
fn call_of_unbound_name_is_undefined() {
    assert_eq!(expand("\\nope{x}"), err("Macro not defined."));
}

#[test]
fn name_left_open_at_end_is_incomplete() {
    assert_eq!(expand("\\abc"), err("Incomplete macro."));
    assert_eq!(expand("\\abc{x"), err("Incomplete macro."));
    assert_eq!(expand("\\undef{a"), err("Incomplete macro."));
    assert_eq!(expand("\\include{a"), err("Incomplete macro."));
    assert_eq!(expand("\\expandafter{a}{b"), err("Incomplete macro."));
    assert_eq!(expand("\\expandafter{a}}"), err("Incomplete macro."));
}

#[test]
fn escapes_give_the_literal_scalar() {
    assert_eq!(expand("\\\\"), ok("\\"));
    assert_eq!(expand("\\#"), ok("#"));
    assert_eq!(expand("\\%"), ok("%"));
    assert_eq!(expand("\\{"), ok("{"));
    assert_eq!(expand("\\}"), ok("}"));
    assert_eq!(expand("a\\{b\\}c\\\\d"), ok("a{b}c\\d"));
}

#[test]
fn backslash_before_other_punctuation_stays() {
    assert_eq!(expand("\\ x"), ok("\\ x"));
    assert_eq!(expand("a\\.b\\\n"), ok("a\\.b\\\n"));
}

#[test]
fn lone_backslash_at_end_stands_for_itself() {
    assert_eq!(expand("abc\\"), ok("abc\\"));
    assert_eq!(expand("\\"), ok("\\"));
}

#[test]
fn unescaped_braces_in_plain_text_are_copied() {
    assert_eq!(expand("a{b}c}"), ok("a{b}c}"));
}

#[test]
fn escaped_hash_in_body_is_not_the_argument() {
    assert_eq!(expand("\\def{m}{#\\##}\\m{x}"), ok("x#x"));
}

#[test]
fn argument_is_expanded_on_rescan() {
    assert_eq!(expand("\\def{a}{A}\\def{w}{[#]}\\w{\\a{}}"), ok("[A]"));
}

#[test]
fn argument_keeps_escaped_and_nested_braces() {
    assert_eq!(expand("\\def{w}{#}\\w{a\\}b}"), ok("a}b"));
    assert_eq!(expand("\\def{w}{#}\\w{a{b}c}"), ok("a{b}c"));
}

#[test]
fn body_may_define_macros() {
    assert_eq!(expand("\\def{mk}{\\def{#}{made}}\\mk{x}\\x{}"), ok("made"));
}

#[test]
fn names_may_hold_letters_and_digits_beyond_ascii() {
    assert_eq!(expand("\\def{\u{e9}t\u{e9}2}{x}\\\u{e9}t\u{e9}2{}"), ok("x"));
    assert_eq!(expand("\\def{\u{661}}{one}\\\u{661}{}"), ok("one"));
}

#[test]
fn punctuation_beyond_ascii_is_no_name() {
    assert_eq!(
        expand("\\def{a\u{2192}b}{x}"),
        err("Non-alphanumeric while defining macro name.")
    );
    assert_eq!(expand("\\\u{2192}"), ok("\\\u{2192}"));
}

#[test]
fn escaped_percent_on_a_continuation_line_survives_in_a_body() {
    assert_eq!(expand("\\def{p}{%\n  \\% of total}\\p{}"), ok("% of total"));
}
