use vstd::prelude::*;
use crate::groups::{all_alnum, balanced, lemma_capture, lemma_enter, lemma_literal_is_balanced};
use crate::groups::lemma_read_name;
use crate::machine::{is_directive, Machine, Mode, Scan, Status, Suspended};
use crate::machine::{word_def, word_expandafter, word_if, word_ifdef, word_include, word_undef};
use crate::runs::{is_literal, lemma_halted_stays, lemma_literal_rest_is_written};
use crate::runs::{lemma_halted_for_good, lemma_step_reads, lemma_steps_add};
use crate::table::{substitute, MacroError};
use crate::text::{is_alnum, is_escapable, is_name};

verus! {

/// The text `s` between braces.
pub open spec fn group(s: Seq<char>) -> Seq<char> {
    seq!['{'] + s + seq!['}']
}

/// The call of `name` with the group `arg`: `\name{arg}`.
pub open spec fn call_text(name: Seq<char>, arg: Seq<char>) -> Seq<char> {
    seq!['\\'] + name + group(arg)
}

/// `\def{name}{body}`.
pub open spec fn def_text(name: Seq<char>, body: Seq<char>) -> Seq<char> {
    call_text(word_def(), name) + group(body)
}

/// `\undef{name}`.
pub open spec fn undef_text(name: Seq<char>) -> Seq<char> {
    call_text(word_undef(), name)
}

/// `\if{cond}{first}{second}`.
pub open spec fn if_text(cond: Seq<char>, first: Seq<char>, second: Seq<char>) -> Seq<char> {
    call_text(word_if(), cond) + group(first) + group(second)
}

/// `\ifdef{name}{first}{second}`.
pub open spec fn ifdef_text(name: Seq<char>, first: Seq<char>, second: Seq<char>) -> Seq<char> {
    call_text(word_ifdef(), name) + group(first) + group(second)
}

/// `\expandafter{first}{second}`.
pub open spec fn expandafter_text(first: Seq<char>, second: Seq<char>) -> Seq<char> {
    call_text(word_expandafter(), first) + group(second)
}

/// `\include{path}`.
pub open spec fn include_text(path: Seq<char>) -> Seq<char> {
    call_text(word_include(), path)
}

/// Text that holds none of `\`, `#`, `%`, `{` and `}` expands to itself: the
/// machine started on it ends with that text as its output and with the
/// bindings it was given.
pub proof fn law_plain_text_expands_to_itself(table: Map<Seq<char>, Seq<char>>, text: Seq<char>)
    requires
        is_literal(text),
    ensures
        Machine::start(table, text).steps(text.len() + 1).status == Status::Done,
        Machine::start(table, text).steps(text.len() + 1).out == text,
        Machine::start(table, text).steps(text.len() + 1).table == table,
        Machine::start(table, text).yields(text),
{
    let m = Machine::start(table, text);
    lemma_literal_rest_is_written(m, text);
}

/// Between two constructs, a backslash before one of `\`, `#`, `%`, `{` and
/// `}` writes that scalar alone; before any other scalar that no name can
/// hold, it is written out with that scalar behind it.
pub proof fn law_backslash_escapes(m: Machine, c: char, tail: Seq<char>)
    requires
        m.at_rest(),
        m.rest == seq!['\\', c] + tail,
        !is_alnum(c),
    ensures
        m.steps(2).at_rest(),
        m.steps(2).rest == tail,
        m.steps(2).outer == m.outer,
        m.steps(2).table == m.table,
        is_escapable(c) ==> m.steps(2).out == m.out.push(c),
        !is_escapable(c) ==> m.steps(2).out == m.out.push('\\').push(c),
{
    let t1 = seq![c] + tail;
    assert(m.rest =~= seq!['\\'] + t1);
    lemma_step_reads(m, '\\', t1);
    let m1 = m.step();
    lemma_step_reads(m1, c, tail);
    lemma_steps_add(m, 1, 1);
}

/// A lone backslash at the very end of the input stands for itself.
pub proof fn law_backslash_at_the_end_is_kept(m: Machine)
    requires
        m.at_rest(),
        m.rest == seq!['\\'],
        m.outer.len() == 0,
    ensures
        m.steps(2).status == Status::Done,
        m.steps(2).out == m.out.push('\\'),
        m.steps(2).table == m.table,
{
    lemma_step_reads(m, '\\', Seq::empty());
    lemma_steps_add(m, 1, 1);
    reveal_with_fuel(Machine::steps, 2);
}

/// Between two constructs, `\def{name}{body}` binds `name` to `body` and
/// leaves nothing else behind; where `name` is bound already, it fails.
pub proof fn law_def_binds_once(m: Machine, name: Seq<char>, body: Seq<char>, tail: Seq<char>)
    requires
        m.at_rest(),
        m.rest == def_text(name, body) + tail,
        is_name(name),
        balanced(body),
    ensures
        m.table.contains_key(name) ==> m.steps(def_text(name, body).len()).status
            == Status::Failed(MacroError::AlreadyDefined) && m.steps(
            def_text(name, body).len(),
        ).table == m.table,
        !m.table.contains_key(name) ==> m.steps(def_text(name, body).len()).resumes(m, tail)
            && m.steps(def_text(name, body).len()).table == m.table.insert(name, body),
{
    let t5 = seq!['}'] + tail;
    let t4 = body + t5;
    let t3 = seq!['{'] + t4;
    let t2 = seq!['}'] + t3;
    let t1 = name + t2;
    assert(m.rest =~= seq!['\\'] + word_def() + seq!['{'] + t1);
    lemma_enter(m, word_def(), t1);
    let m1 = m.entered(word_def(), t1);
    lemma_read_name(m1, name, t2);
    let m2 = m1.named(name, t2);
    lemma_step_reads(m2, '}', t3);
    let m3 = m2.step();
    lemma_step_reads(m3, '{', t4);
    let m4 = m3.step();
    lemma_capture(m4, body, t5);
    let m5 = m4.absorbed(body, t5);
    lemma_step_reads(m5, '}', tail);
    let n1 = (word_def().len() + 2) as nat;
    lemma_steps_add(m, n1, name.len());
    lemma_steps_add(m, n1 + name.len(), 1);
    lemma_steps_add(m, n1 + name.len() + 1, 1);
    lemma_steps_add(m, n1 + name.len() + 2, body.len());
    lemma_steps_add(m, n1 + name.len() + 2 + body.len(), 1);
}

/// Between two constructs, `\undef{name}` drops the binding of `name` and
/// leaves nothing else behind; where `name` is not bound, it fails.
pub proof fn law_undef_unbinds(m: Machine, name: Seq<char>, tail: Seq<char>)
    requires
        m.at_rest(),
        m.rest == undef_text(name) + tail,
        is_name(name),
    ensures
        !m.table.contains_key(name) ==> m.steps(undef_text(name).len()).status == Status::Failed(
            MacroError::NotDefined,
        ) && m.steps(undef_text(name).len()).table == m.table,
        m.table.contains_key(name) ==> m.steps(undef_text(name).len()).resumes(m, tail) && m.steps(
            undef_text(name).len(),
        ).table == m.table.remove(name),
{
    let t2 = seq!['}'] + tail;
    let t1 = name + t2;
    assert(m.rest =~= seq!['\\'] + word_undef() + seq!['{'] + t1);
    lemma_enter(m, word_undef(), t1);
    let m1 = m.entered(word_undef(), t1);
    lemma_read_name(m1, name, t2);
    let m2 = m1.named(name, t2);
    lemma_step_reads(m2, '}', tail);
    let n1 = (word_undef().len() + 2) as nat;
    lemma_steps_add(m, n1, name.len());
    lemma_steps_add(m, n1 + name.len(), 1);
}

/// Between two constructs, the call `\name{arg}` of a bound user macro puts
/// the macro's body, with `arg` in place of each unescaped `#`, in front of
/// the input, where it is read like source text; the call of an unbound name
/// fails.
pub proof fn law_call_is_rescanned(m: Machine, name: Seq<char>, arg: Seq<char>, tail: Seq<char>)
    requires
        m.at_rest(),
        m.rest == call_text(name, arg) + tail,
        is_name(name),
        !is_directive(name),
        balanced(arg),
    ensures
        !m.table.contains_key(name) ==> m.steps(call_text(name, arg).len()).status
            == Status::Failed(MacroError::NotDefined) && m.steps(
            call_text(name, arg).len(),
        ).table == m.table,
        m.table.contains_key(name) ==> m.steps(call_text(name, arg).len()).resumes(
            m,
            substitute(m.table[name], arg) + tail,
        ) && m.steps(call_text(name, arg).len()).table == m.table,
{
    let t2 = seq!['}'] + tail;
    let t1 = arg + t2;
    assert(m.rest =~= seq!['\\'] + name + seq!['{'] + t1);
    lemma_enter(m, name, t1);
    let m1 = m.entered(name, t1);
    lemma_capture(m1, arg, t2);
    let m2 = m1.absorbed(arg, t2);
    lemma_step_reads(m2, '}', tail);
    let n1 = (name.len() + 2) as nat;
    lemma_steps_add(m, n1, arg.len());
    lemma_steps_add(m, n1 + arg.len(), 1);
}

/// Defining a name twice in a row fails at the second `\def`, whatever the
/// bindings were before: the first `\def` binds the name unless it was bound
/// already, and a `\def` of a bound name is refused.
pub proof fn law_second_def_fails(
    m: Machine,
    name: Seq<char>,
    body1: Seq<char>,
    body2: Seq<char>,
    tail: Seq<char>,
)
    requires
        m.at_rest(),
        m.rest == def_text(name, body1) + def_text(name, body2) + tail,
        is_name(name),
        balanced(body1),
        balanced(body2),
    ensures
        m.steps(def_text(name, body1).len() + def_text(name, body2).len()).status
            == Status::Failed(MacroError::AlreadyDefined),
        m.table.contains_key(name) ==> m.steps(
            def_text(name, body1).len() + def_text(name, body2).len(),
        ).table == m.table,
        !m.table.contains_key(name) ==> m.steps(
            def_text(name, body1).len() + def_text(name, body2).len(),
        ).table == m.table.insert(name, body1),
        m.fails_with(MacroError::AlreadyDefined),
{
    let n1 = def_text(name, body1).len();
    let n2 = def_text(name, body2).len();
    assert(m.rest =~= def_text(name, body1) + (def_text(name, body2) + tail));
    law_def_binds_once(m, name, body1, def_text(name, body2) + tail);
    let mid = m.steps(n1);
    lemma_steps_add(m, n1, n2);
    if m.table.contains_key(name) {
        lemma_halted_stays(mid, n2);
    } else {
        law_def_binds_once(mid, name, body2, tail);
    }
}

/// After `\def{name}{body}\undef{name}` the name is unbound again: a call of
/// it fails as undefined. This is said of a name that is not bound at the
/// outset and that is not the name of a directive.
pub proof fn law_call_after_undef_fails(
    m: Machine,
    name: Seq<char>,
    body: Seq<char>,
    arg: Seq<char>,
    tail: Seq<char>,
)
    requires
        m.at_rest(),
        m.rest == def_text(name, body) + undef_text(name) + call_text(name, arg) + tail,
        is_name(name),
        !is_directive(name),
        !m.table.contains_key(name),
        balanced(body),
        balanced(arg),
    ensures
        m.steps(
            def_text(name, body).len() + undef_text(name).len() + call_text(name, arg).len(),
        ).status == Status::Failed(MacroError::NotDefined),
        m.steps(
            def_text(name, body).len() + undef_text(name).len() + call_text(name, arg).len(),
        ).table == m.table,
        m.fails_with(MacroError::NotDefined),
{
    let n1 = def_text(name, body).len();
    let n2 = undef_text(name).len();
    let n3 = call_text(name, arg).len();
    let t2 = call_text(name, arg) + tail;
    let t1 = undef_text(name) + t2;
    assert(m.rest =~= def_text(name, body) + t1);
    law_def_binds_once(m, name, body, t1);
    let m1 = m.steps(n1);
    law_undef_unbinds(m1, name, t2);
    let m2 = m1.steps(n2);
    assert(m2.table =~= m.table);
    law_call_is_rescanned(m2, name, arg, tail);
    lemma_steps_add(m, n1, n2);
    lemma_steps_add(m, n1 + n2, n3);
}

/// Only `\undef` takes a binding away, and no move changes the body of a
/// bound name.
pub proof fn law_bindings_last_until_undef(m: Machine, name: Seq<char>)
    requires
        m.table.contains_key(name),
    ensures
        m.step().table.contains_key(name) ==> m.step().table[name] == m.table[name],
        !m.step().table.contains_key(name) ==> m.scan.mode == Mode::Undef && m.scan.name == name,
{
}

/// The two branches of a conditional, read once the condition has closed:
/// the one that the condition chose is put in front of the input.
proof fn lemma_branches(m: Machine, first: Seq<char>, second: Seq<char>, tail: Seq<char>)
    requires
        m.status == Status::Running,
        m.scan.mode == Mode::Then,
        m.scan.prev == Mode::IfCond || m.scan.prev == Mode::IfDefCond,
        m.scan.depth == 0,
        !m.scan.escape,
        m.scan.name.len() == 0,
        m.scan.arg.len() == 0,
        m.scan.cond_count == 0,
        m.rest == group(first) + group(second) + tail,
        balanced(first),
        balanced(second),
    ensures
        m.steps(first.len() + second.len() + 4).resumes(
            m,
            if m.scan.cond_empty {
                second
            } else {
                first
            } + tail,
        ),
        m.steps(first.len() + second.len() + 4).table == m.table,
{
    let t4 = seq!['}'] + tail;
    let t3 = second + t4;
    let t2 = seq!['{'] + t3;
    let t1 = seq!['}'] + t2;
    let t0 = first + t1;
    assert(m.rest =~= seq!['{'] + t0);
    lemma_step_reads(m, '{', t0);
    let m1 = m.step();
    lemma_capture(m1, first, t1);
    let m2 = m1.absorbed(first, t1);
    lemma_step_reads(m2, '}', t2);
    let m3 = m2.step();
    lemma_step_reads(m3, '{', t3);
    let m4 = m3.step();
    lemma_capture(m4, second, t4);
    let m5 = m4.absorbed(second, t4);
    lemma_step_reads(m5, '}', tail);
    assert(m5.scan.name =~= if m.scan.cond_empty {
        second
    } else {
        first
    });
    lemma_steps_add(m, 1, first.len());
    lemma_steps_add(m, 1 + first.len(), 1);
    lemma_steps_add(m, 1 + first.len() + 1, 1);
    lemma_steps_add(m, 1 + first.len() + 2, second.len());
    lemma_steps_add(m, 1 + first.len() + 2 + second.len(), 1);
}

/// Between two constructs, `\if{cond}{first}{second}` is replaced by exactly
/// one of its branches, which is read next: `first` if `cond` holds at least
/// one scalar, `second` if it holds none.
pub proof fn law_if_takes_one_branch(
    m: Machine,
    cond: Seq<char>,
    first: Seq<char>,
    second: Seq<char>,
    tail: Seq<char>,
)
    requires
        m.at_rest(),
        m.rest == if_text(cond, first, second) + tail,
        balanced(cond),
        balanced(first),
        balanced(second),
    ensures
        m.steps(if_text(cond, first, second).len()).resumes(
            m,
            if cond.len() > 0 {
                first
            } else {
                second
            } + tail,
        ),
        m.steps(if_text(cond, first, second).len()).table == m.table,
{
    let t2 = group(first) + group(second) + tail;
    let t1 = seq!['}'] + t2;
    let t0 = cond + t1;
    assert(m.rest =~= seq!['\\'] + word_if() + seq!['{'] + t0);
    lemma_enter(m, word_if(), t0);
    let m1 = m.entered(word_if(), t0);
    lemma_capture(m1, cond, t1);
    let m2 = m1.absorbed(cond, t1);
    lemma_step_reads(m2, '}', t2);
    let m3 = m2.step();
    lemma_branches(m3, first, second, tail);
    let n1 = (word_if().len() + 2) as nat;
    lemma_steps_add(m, n1, cond.len());
    lemma_steps_add(m, n1 + cond.len(), 1);
    lemma_steps_add(m, n1 + cond.len() + 1, first.len() + second.len() + 4);
    assert(if_text(cond, first, second).len() == n1 + cond.len() + 1 + first.len() + second.len()
        + 4);
}

/// The output of `\if{cond}{first}{second}` by itself, where the branches
/// are literal text, is exactly one of them: `first` if `cond` holds at
/// least one scalar, `second` if it holds none.
pub proof fn law_if_yields_one_branch(
    table: Map<Seq<char>, Seq<char>>,
    cond: Seq<char>,
    first: Seq<char>,
    second: Seq<char>,
)
    requires
        balanced(cond),
        is_literal(first),
        is_literal(second),
    ensures
        ({
            let taken = if cond.len() > 0 {
                first
            } else {
                second
            };
            let source = if_text(cond, first, second);
            let end = Machine::start(table, source).steps(source.len() + taken.len() + 1);
            &&& end.status == Status::Done && end.out == taken && end.table == table
            &&& Machine::start(table, source).yields(taken)
        }),
{
    let taken = if cond.len() > 0 {
        first
    } else {
        second
    };
    let source = if_text(cond, first, second);
    let m = Machine::start(table, source);
    lemma_literal_is_balanced(first);
    lemma_literal_is_balanced(second);
    law_if_takes_one_branch(m, cond, first, second, Seq::empty());
    let mid = m.steps(source.len());
    lemma_literal_rest_is_written(mid, taken);
    lemma_steps_add(m, source.len(), taken.len() + 1);
}

/// Between two constructs, `\ifdef{name}{first}{second}` is replaced by
/// exactly one of its branches, which is read next: `first` if `name` is
/// bound at that moment, `second` if it is not.
pub proof fn law_ifdef_follows_the_table(
    m: Machine,
    name: Seq<char>,
    first: Seq<char>,
    second: Seq<char>,
    tail: Seq<char>,
)
    requires
        m.at_rest(),
        m.rest == ifdef_text(name, first, second) + tail,
        all_alnum(name),
        balanced(first),
        balanced(second),
    ensures
        m.steps(ifdef_text(name, first, second).len()).resumes(
            m,
            if m.table.contains_key(name) {
                first
            } else {
                second
            } + tail,
        ),
        m.steps(ifdef_text(name, first, second).len()).table == m.table,
{
    let t2 = group(first) + group(second) + tail;
    let t1 = seq!['}'] + t2;
    let t0 = name + t1;
    assert(m.rest =~= seq!['\\'] + word_ifdef() + seq!['{'] + t0);
    lemma_enter(m, word_ifdef(), t0);
    let m1 = m.entered(word_ifdef(), t0);
    lemma_read_name(m1, name, t1);
    let m2 = m1.named(name, t1);
    lemma_step_reads(m2, '}', t2);
    let m3 = m2.step();
    lemma_branches(m3, first, second, tail);
    let n1 = (word_ifdef().len() + 2) as nat;
    lemma_steps_add(m, n1, name.len());
    lemma_steps_add(m, n1 + name.len(), 1);
    lemma_steps_add(m, n1 + name.len() + 1, first.len() + second.len() + 4);
    assert(ifdef_text(name, first, second).len() == n1 + name.len() + 1 + first.len()
        + second.len() + 4);
}

/// The output of `\ifdef{name}{first}{second}` by itself, where the branches
/// are literal text, is exactly one of them: `first` if `name` is bound,
/// `second` if it is not.
pub proof fn law_ifdef_yields_one_branch(
    table: Map<Seq<char>, Seq<char>>,
    name: Seq<char>,
    first: Seq<char>,
    second: Seq<char>,
)
    requires
        all_alnum(name),
        is_literal(first),
        is_literal(second),
    ensures
        ({
            let taken = if table.contains_key(name) {
                first
            } else {
                second
            };
            let source = ifdef_text(name, first, second);
            let end = Machine::start(table, source).steps(source.len() + taken.len() + 1);
            &&& end.status == Status::Done && end.out == taken && end.table == table
            &&& Machine::start(table, source).yields(taken)
        }),
{
    let taken = if table.contains_key(name) {
        first
    } else {
        second
    };
    let source = ifdef_text(name, first, second);
    let m = Machine::start(table, source);
    lemma_literal_is_balanced(first);
    lemma_literal_is_balanced(second);
    law_ifdef_follows_the_table(m, name, first, second, Seq::empty());
    let mid = m.steps(source.len());
    lemma_literal_rest_is_written(mid, taken);
    lemma_steps_add(m, source.len(), taken.len() + 1);
}

/// Between two constructs, `\expandafter{first}{second}` sets the expansion
/// under way aside, holding `first` back, and starts an expansion of
/// `second` by itself with the same bindings.
pub proof fn law_expandafter_expands_second_group_alone(
    m: Machine,
    first: Seq<char>,
    second: Seq<char>,
    tail: Seq<char>,
)
    requires
        m.at_rest(),
        m.rest == expandafter_text(first, second) + tail,
        balanced(first),
        balanced(second),
    ensures
        m.steps(expandafter_text(first, second).len()) == (Machine {
            scan: Scan::idle(Mode::ExpandAfterArg2),
            rest: second,
            out: Seq::empty(),
            outer: m.outer.push(Suspended { rest: tail, out: m.out, held: first }),
            ..m
        }),
{
    let t4 = seq!['}'] + tail;
    let t3 = second + t4;
    let t2 = seq!['{'] + t3;
    let t1 = seq!['}'] + t2;
    let t0 = first + t1;
    assert(m.rest =~= seq!['\\'] + word_expandafter() + seq!['{'] + t0);
    lemma_enter(m, word_expandafter(), t0);
    let m1 = m.entered(word_expandafter(), t0);
    lemma_capture(m1, first, t1);
    let m2 = m1.absorbed(first, t1);
    lemma_step_reads(m2, '}', t2);
    let m3 = m2.step();
    lemma_step_reads(m3, '{', t3);
    let m4 = m3.step();
    lemma_capture(m4, second, t4);
    let m5 = m4.absorbed(second, t4);
    lemma_step_reads(m5, '}', tail);
    let n1 = (word_expandafter().len() + 2) as nat;
    lemma_steps_add(m, n1, first.len());
    lemma_steps_add(m, n1 + first.len(), 1);
    lemma_steps_add(m, n1 + first.len() + 1, 1);
    lemma_steps_add(m, n1 + first.len() + 2, second.len());
    lemma_steps_add(m, n1 + first.len() + 2 + second.len(), 1);
    assert(expandafter_text(first, second).len() == n1 + first.len() + 2 + second.len() + 1);
}

/// When an expansion that others wait for has used up its input in plain
/// mode, the one that waited last goes on: it reads the group it held back,
/// then the inner expansion's output, then what was left of its own input.
pub proof fn law_inner_output_is_read_behind_held_group(m: Machine)
    requires
        m.at_rest(),
        m.rest.len() == 0,
        m.outer.len() > 0,
    ensures
        m.step().resumes(
            Machine { out: m.outer.last().out, outer: m.outer.drop_last(), ..m },
            m.outer.last().held + m.out + m.outer.last().rest,
        ),
        m.step().table == m.table,
{
}

/// Between two constructs, `\include{path}` makes the engine wait for the
/// file named `path`, taken as it is written, and changes nothing else.
pub proof fn law_include_waits_for_the_file(m: Machine, path: Seq<char>, tail: Seq<char>)
    requires
        m.at_rest(),
        m.rest == include_text(path) + tail,
        balanced(path),
    ensures
        m.steps(include_text(path).len()).status == Status::Reading,
        m.steps(include_text(path).len()).scan.arg == path,
        m.steps(include_text(path).len()).rest == tail,
        m.steps(include_text(path).len()).out == m.out,
        m.steps(include_text(path).len()).outer == m.outer,
        m.steps(include_text(path).len()).table == m.table,
{
    let t1 = seq!['}'] + tail;
    let t0 = path + t1;
    assert(m.rest =~= seq!['\\'] + word_include() + seq!['{'] + t0);
    lemma_enter(m, word_include(), t0);
    let m1 = m.entered(word_include(), t0);
    lemma_capture(m1, path, t1);
    let m2 = m1.absorbed(path, t1);
    assert(m2.scan.arg =~= path);
    lemma_step_reads(m2, '}', tail);
    let n1 = (word_include().len() + 2) as nat;
    lemma_steps_add(m, n1, path.len());
    lemma_steps_add(m, n1 + path.len(), 1);
    assert(include_text(path).len() == n1 + path.len() + 1);
}

/// Expansion has one outcome: a machine cannot end with two different
/// outputs, nor fail for two different reasons, nor both end and fail.
pub proof fn law_outcome_is_unique(
    m: Machine,
    out1: Seq<char>,
    out2: Seq<char>,
    e1: MacroError,
    e2: MacroError,
)
    ensures
        m.yields(out1) && m.yields(out2) ==> out1 == out2,
        m.fails_with(e1) && m.fails_with(e2) ==> e1 == e2,
        !(m.yields(out1) && m.fails_with(e1)),
{
    if m.yields(out1) && m.yields(out2) {
        let a = choose|n: nat| #[trigger] m.steps(n).status == Status::Done && m.steps(n).out == out1;
        let b = choose|n: nat| #[trigger] m.steps(n).status == Status::Done && m.steps(n).out == out2;
        if a <= b {
            lemma_halted_for_good(m, a, b);
        } else {
            lemma_halted_for_good(m, b, a);
        }
    }
    if m.fails_with(e1) && m.fails_with(e2) {
        let a = choose|n: nat| #[trigger] m.steps(n).status == Status::Failed(e1);
        let b = choose|n: nat| #[trigger] m.steps(n).status == Status::Failed(e2);
        if a <= b {
            lemma_halted_for_good(m, a, b);
        } else {
            lemma_halted_for_good(m, b, a);
        }
    }
    if m.yields(out1) && m.fails_with(e1) {
        let a = choose|n: nat| #[trigger] m.steps(n).status == Status::Done && m.steps(n).out == out1;
        let b = choose|n: nat| #[trigger] m.steps(n).status == Status::Failed(e1);
        if a <= b {
            lemma_halted_for_good(m, a, b);
        } else {
            lemma_halted_for_good(m, b, a);
        }
    }
}

/// Every bound name is a macro name.
pub open spec fn names_valid(table: Map<Seq<char>, Seq<char>>) -> bool {
    forall|k: Seq<char>| table.contains_key(k) ==> is_name(k)
}

impl Machine {
    /// Every bound name is a macro name, and so will the name be that a
    /// `\def` under way is about to bind.
    pub open spec fn names_inv(self) -> bool {
        &&& names_valid(self.table)
        &&& self.scan.mode == Mode::DefMacroName ==> all_alnum(self.scan.name)
        &&& self.scan.mode == Mode::DefArg ==> is_name(self.scan.name)
    }
}

/// The engine binds nothing but macro names: nonempty and alphanumeric.
pub proof fn law_names_stay_valid(m: Machine, n: nat)
    requires
        m.names_inv(),
    ensures
        m.steps(n).names_inv(),
    decreases n,
{
    if n > 0 {
        let next = m.step();
        if m.status == Status::Running && m.rest.len() > 0 {
            let c = m.rest[0];
            if m.scan.mode == Mode::DefMacroName && is_alnum(c) && c != '}' {
                let grown = m.scan.name.push(c);
                assert forall|i: int| 0 <= i < grown.len() implies is_alnum(#[trigger] grown[i]) by {
                    if i < m.scan.name.len() {
                        assert(grown[i] == m.scan.name[i]);
                    }
                }
            }
        }
        assert(next.names_inv());
        law_names_stay_valid(next, (n - 1) as nat);
    }
}

/// A machine started on a table of macro names binds nothing but macro
/// names.
pub proof fn law_names_valid_at_start(table: Map<Seq<char>, Seq<char>>, text: Seq<char>)
    requires
        names_valid(table),
    ensures
        Machine::start(table, text).names_inv(),
{
}

/// Handing the machine the text of an included file, or the news that there
/// is none, binds nothing.
pub proof fn law_names_valid_after_include(m: Machine, contents: Option<Seq<char>>)
    requires
        m.names_inv(),
    ensures
        m.supply(contents).names_inv(),
{
}

impl Machine {
    /// In plain mode no group is open and no register holds anything, and
    /// the same when a backslash has just been read there.
    pub open spec fn tidy(self) -> bool {
        &&& self.scan.mode == Mode::Plain ==> self.scan.is_idle()
        &&& self.scan.mode == Mode::CallMacro && self.scan.escape ==> self.scan == (Scan {
            mode: Mode::CallMacro,
            escape: true,
            ..Scan::idle(Mode::Plain)
        })
    }
}

/// Whenever the engine is back in plain mode, every group that was opened
/// has been closed and nothing is left in the registers.
pub proof fn law_plain_mode_keeps_nothing(m: Machine, n: nat)
    requires
        m.tidy(),
    ensures
        m.steps(n).tidy(),
    decreases n,
{
    if n > 0 {
        assert(m.step().tidy());
        law_plain_mode_keeps_nothing(m.step(), (n - 1) as nat);
    }
}

/// A machine starts with nothing open and nothing kept.
pub proof fn law_tidy_at_start(table: Map<Seq<char>, Seq<char>>, text: Seq<char>)
    ensures
        Machine::start(table, text).tidy(),
{
}

/// A machine that is handed the text of an included file, or the news that
/// there is none, has nothing open and nothing kept.
pub proof fn law_tidy_after_include(m: Machine, contents: Option<Seq<char>>)
    requires
        m.tidy(),
    ensures
        m.supply(contents).tidy(),
{
}

/// The engine is done only when its input is used up in plain mode with no
/// group open, or after a lone backslash at the very end, which then stands
/// for itself in the output.
pub proof fn law_done_only_at_the_end(m: Machine)
    requires
        m.status == Status::Running,
        m.step().status == Status::Done,
    ensures
        m.rest.len() == 0,
        m.outer.len() == 0,
        m.may_end(),
        m.step().out == m.final_out(),
{
}

} // verus!
