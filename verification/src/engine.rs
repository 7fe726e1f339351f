use vstd::prelude::*;
use vstd::string::*;
use crate::comments::preproc_text;
use crate::runs::lemma_halted_stays;
use crate::machine::{Machine, Mode, Scan, Status, Suspended};
use crate::machine::{is_directive, mode_for};
use crate::machine::{word_def, word_expandafter, word_if, word_ifdef, word_include, word_undef};
use crate::table::{expand_macro, MacroError, MacroTable};
use crate::text::{is_alphanumeric, lemma_reverse_pop, push_reversed, to_chars, to_string};

verus! {

/// The scanner's registers, as the engine holds them.
pub struct Scanner {
    mode: Mode,
    prev: Mode,
    depth: usize,
    name: Vec<char>,
    arg: Vec<char>,
    cond_empty: bool,
    cond_count: usize,
    escape: bool,
}

impl View for Scanner {
    type V = Scan;

    closed spec fn view(&self) -> Scan {
        Scan {
            mode: self.mode,
            prev: self.prev,
            depth: self.depth as nat,
            name: self.name@,
            arg: self.arg@,
            cond_empty: self.cond_empty,
            cond_count: self.cond_count as nat,
            escape: self.escape,
        }
    }
}

/// An expansion set aside while an inner one runs. Its input is kept last
/// scalar first.
pub struct Frame {
    stack: Vec<char>,
    out: Vec<char>,
    held: Vec<char>,
}

impl View for Frame {
    type V = Suspended;

    closed spec fn view(&self) -> Suspended {
        Suspended { rest: self.stack@.reverse(), out: self.out@, held: self.held@ }
    }
}

/// The expansion engine. It holds the input as a stack of scalars with the
/// next one on top, so that an expansion pushed onto it is read next.
pub struct Engine {
    scan: Scanner,
    stack: Vec<char>,
    out: Vec<char>,
    outer: Vec<Frame>,
    table: MacroTable,
    status: Status,
}

impl View for Engine {
    type V = Machine;

    closed spec fn view(&self) -> Machine {
        Machine {
            scan: self.scan@,
            rest: self.stack@.reverse(),
            out: self.out@,
            outer: self.outer@.map_values(|f: Frame| f@),
            table: self.table@,
            status: self.status,
        }
    }
}

/// Whether `name` spells `word`.
fn spells(name: &Vec<char>, word: &str) -> (same: bool)
    ensures
        same == (name@ == word@),
{
    let mut i: usize = 0;
    for c in it: word.chars()
        invariant
            it.seq() == word@,
            i == it.index(),
            i <= name.len(),
            name@.take(i as int) == word@.take(i as int),
    {
        if i >= name.len() || name[i] != c {
            proof {
                if i < name.len() {
                    assert(name@[i as int] != word@[i as int]);
                }
            }
            return false;
        }
        proof {
            assert(name@.take(i + 1) == name@.take(i as int).push(name@[i as int]));
            assert(word@.take(i + 1) == word@.take(i as int).push(word@[i as int]));
        }
        i += 1;
    }
    proof {
        assert(word@.take(word@.len() as int) == word@);
        if i == name.len() {
            assert(name@.take(name@.len() as int) == name@);
        }
    }
    i == name.len()
}

/// The mode that a directive's first group is read in, if `name` is a
/// directive.
fn directive_mode(name: &Vec<char>) -> (found: Option<Mode>)
    ensures
        found == if is_directive(name@) {
            Some(mode_for(name@))
        } else {
            None
        },
{
    proof {
        reveal_strlit("def");
        reveal_strlit("undef");
        reveal_strlit("include");
        reveal_strlit("expandafter");
        reveal_strlit("if");
        reveal_strlit("ifdef");
        assert("def"@ =~= word_def());
        assert("undef"@ =~= word_undef());
        assert("include"@ =~= word_include());
        assert("expandafter"@ =~= word_expandafter());
        assert("if"@ =~= word_if());
        assert("ifdef"@ =~= word_ifdef());
    }
    if spells(name, "def") {
        Some(Mode::DefMacroName)
    } else if spells(name, "undef") {
        Some(Mode::Undef)
    } else if spells(name, "include") {
        Some(Mode::Include)
    } else if spells(name, "expandafter") {
        Some(Mode::ExpandAfterArg1)
    } else if spells(name, "if") {
        Some(Mode::IfCond)
    } else if spells(name, "ifdef") {
        Some(Mode::IfDefCond)
    } else {
        None
    }
}

impl Engine {
    /// The counters cannot overflow: a group is no deeper, and a condition no
    /// longer, than the input that was read to get there.
    pub closed spec fn wf(&self) -> bool {
        &&& self.scan.depth + self.stack.len() <= usize::MAX
        &&& self.scan.cond_count + self.stack.len() <= usize::MAX
    }

    /// `wf` with room for the scalar that was just popped.
    closed spec fn roomy(&self) -> bool {
        &&& self.scan.depth + self.stack.len() < usize::MAX
        &&& self.scan.cond_count + self.stack.len() < usize::MAX
    }

    /// An engine about to expand `source` with the bindings of `table`.
    pub fn new(table: MacroTable, source: &str) -> (engine: Engine)
        ensures
            engine.wf(),
            engine@ == Machine::start(table@, source@),
    {
        let text = to_chars(source);
        let mut stack: Vec<char> = Vec::new();
        push_reversed(&mut stack, &text);
        let engine = Engine {
            scan: Scanner {
                mode: Mode::Plain,
                prev: Mode::Plain,
                depth: 0,
                name: Vec::new(),
                arg: Vec::new(),
                cond_empty: false,
                cond_count: 0,
                escape: false,
            },
            stack,
            out: Vec::new(),
            outer: Vec::new(),
            table,
            status: Status::Running,
        };
        proof {
            assert(engine@.rest =~= source@);
            assert(engine@.outer =~= Seq::empty());
        }
        engine
    }

    /// Gives the expansion up for `e`.
    fn fail(&mut self, e: MacroError)
        requires
            old(self).roomy(),
        ensures
            final(self).roomy(),
            final(self)@ == old(self)@.fail(e),
    {
        self.status = Status::Failed(e);
    }

    /// Clears the registers for plain mode.
    fn rest_scan(&mut self)
        ensures
            final(self).wf(),
            final(self)@ == old(self)@.rested(),
    {
        self.scan.mode = Mode::Plain;
        self.scan.depth = 0;
        self.scan.name.clear();
        self.scan.arg.clear();
        self.scan.cond_empty = false;
        self.scan.cond_count = 0;
        self.scan.escape = false;
    }

    /// Reads `c` in plain mode.
    fn on_plain(&mut self, c: char)
        requires
            old(self).roomy(),
        ensures
            final(self).wf(),
            final(self)@ == old(self)@.on_plain(c),
    {
        if c == '\\' && !self.scan.escape {
            self.scan.mode = Mode::CallMacro;
        } else {
            self.out.push(c);
        }
    }

    /// Reads `c` behind a backslash: an escape, or part of a name.
    fn on_call_macro(&mut self, c: char)
        requires
            old(self).roomy(),
        ensures
            final(self).wf(),
            final(self)@ == old(self)@.on_call_macro(c),
    {
        if self.scan.escape {
            if c == '\\' || c == '#' || c == '%' || c == '{' || c == '}' {
                self.out.push(c);
                self.scan.mode = Mode::Plain;
            } else if !is_alphanumeric(c) {
                self.out.push('\\');
                self.out.push(c);
                self.scan.mode = Mode::Plain;
            } else if self.scan.prev == Mode::Plain {
                self.scan.name.push(c);
            }
        } else if c == '{' {
            self.scan.depth = self.scan.depth + 1;
            match directive_mode(&self.scan.name) {
                Some(mode) => {
                    self.scan.name.clear();
                    self.scan.mode = mode;
                },
                None => {
                    self.scan.mode = Mode::CustomMacroArg;
                },
            }
        } else if is_alphanumeric(c) {
            self.scan.name.push(c);
        } else {
            self.fail(MacroError::BadCallName);
        }
    }

    /// Reads `c` in the name group of `\def`.
    fn on_def_macro_name(&mut self, c: char)
        requires
            old(self).roomy(),
        ensures
            final(self).wf(),
            final(self)@ == old(self)@.on_def_macro_name(c),
    {
        if c == '}' {
            if self.scan.depth == 0 {
                self.fail(MacroError::Incomplete);
            } else if self.scan.name.len() == 0 {
                self.fail(MacroError::BadDefName);
            } else {
                self.scan.depth = self.scan.depth - 1;
                self.scan.mode = Mode::DefArg;
            }
        } else if is_alphanumeric(c) {
            self.scan.name.push(c);
        } else {
            self.fail(MacroError::BadDefName);
        }
    }

    /// Reads `c` in the body group of `\def`.
    fn on_def_arg(&mut self, c: char)
        requires
            old(self).roomy(),
        ensures
            final(self).wf(),
            final(self)@ == old(self)@.on_def_arg(c),
    {
        if c == '}' && !self.scan.escape {
            if self.scan.depth == 0 {
                self.fail(MacroError::Incomplete);
            } else if self.scan.depth == 1 {
                let name = to_string(&self.scan.name);
                if self.table.contains(name.as_str()) {
                    self.fail(MacroError::AlreadyDefined);
                } else {
                    let body = to_string(&self.scan.arg);
                    self.table.insert(name, body);
                    self.rest_scan();
                }
            } else {
                self.scan.depth = self.scan.depth - 1;
                self.scan.arg.push(c);
            }
        } else if c == '{' && !self.scan.escape {
            self.scan.depth = self.scan.depth + 1;
            if self.scan.prev != Mode::DefMacroName {
                self.scan.arg.push(c);
            }
        } else if self.scan.prev == Mode::DefMacroName {
            self.fail(MacroError::Incomplete);
        } else {
            self.scan.arg.push(c);
        }
    }

    /// Reads `c` in the argument group of a user macro.
    fn on_custom_macro_arg(&mut self, c: char)
        requires
            old(self).roomy(),
        ensures
            final(self).wf(),
            final(self)@ == old(self)@.on_custom_macro_arg(c),
    {
        if c == '}' && !self.scan.escape {
            if self.scan.depth == 0 {
                self.fail(MacroError::Incomplete);
            } else if self.scan.depth == 1 {
                let name = to_string(&self.scan.name);
                let arg = to_string(&self.scan.arg);
                match expand_macro(&self.table, &name, &arg) {
                    Ok(expanded) => {
                        let text = to_chars(expanded.as_str());
                        push_reversed(&mut self.stack, &text);
                        self.rest_scan();
                    },
                    Err(_) => {
                        self.fail(MacroError::NotDefined);
                    },
                }
            } else {
                self.scan.depth = self.scan.depth - 1;
                self.scan.arg.push(c);
            }
        } else if c == '{' && !self.scan.escape {
            self.scan.depth = self.scan.depth + 1;
            self.scan.arg.push(c);
        } else {
            self.scan.arg.push(c);
        }
    }

    /// Reads `c` in the name group of `\undef`.
    fn on_undef(&mut self, c: char)
        requires
            old(self).roomy(),
        ensures
            final(self).wf(),
            final(self)@ == old(self)@.on_undef(c),
    {
        if c == '}' && !self.scan.escape {
            if self.scan.depth != 1 {
                self.fail(MacroError::Incomplete);
            } else {
                let name = to_string(&self.scan.name);
                if self.table.contains(name.as_str()) {
                    self.table.remove(name.as_str());
                    self.rest_scan();
                } else {
                    self.fail(MacroError::NotDefined);
                }
            }
        } else if is_alphanumeric(c) {
            self.scan.name.push(c);
        } else {
            self.fail(MacroError::BadUndefName);
        }
    }

    /// Reads `c` in the path group of `\include`.
    fn on_include(&mut self, c: char)
        requires
            old(self).roomy(),
        ensures
            final(self).wf(),
            final(self)@ == old(self)@.on_include(c),
    {
        if c == '}' && !self.scan.escape {
            if self.scan.depth == 0 {
                self.fail(MacroError::Incomplete);
            } else if self.scan.depth == 1 {
                self.scan.depth = 0;
                self.status = Status::Reading;
            } else {
                self.scan.depth = self.scan.depth - 1;
                self.scan.arg.push(c);
            }
        } else if c == '{' && !self.scan.escape {
            self.scan.depth = self.scan.depth + 1;
            self.scan.arg.push(c);
        } else {
            self.scan.arg.push(c);
        }
    }

    /// Reads `c` in the first group of `\expandafter`.
    fn on_expand_after_arg1(&mut self, c: char)
        requires
            old(self).roomy(),
        ensures
            final(self).wf(),
            final(self)@ == old(self)@.on_expand_after_arg1(c),
    {
        if c == '}' && !self.scan.escape {
            if self.scan.depth == 0 {
                self.fail(MacroError::Incomplete);
            } else if self.scan.depth == 1 {
                self.scan.depth = 0;
                self.scan.mode = Mode::ExpandAfterArg2;
            } else {
                self.scan.depth = self.scan.depth - 1;
                self.scan.name.push(c);
            }
        } else if c == '{' && !self.scan.escape {
            self.scan.depth = self.scan.depth + 1;
            self.scan.name.push(c);
        } else {
            self.scan.name.push(c);
        }
    }

    /// Reads `c` in the second group of `\expandafter`.
    fn on_expand_after_arg2(&mut self, c: char)
        requires
            old(self).roomy(),
        ensures
            final(self).wf(),
            final(self)@ == old(self)@.on_expand_after_arg2(c),
    {
        if c == '}' && !self.scan.escape {
            if self.scan.depth == 0 {
                self.fail(MacroError::Incomplete);
            } else if self.scan.depth == 1 {
                let mut stack: Vec<char> = Vec::new();
                push_reversed(&mut stack, &self.scan.arg);
                let mut out: Vec<char> = Vec::new();
                let mut held: Vec<char> = Vec::new();
                core::mem::swap(&mut self.stack, &mut stack);
                core::mem::swap(&mut self.out, &mut out);
                core::mem::swap(&mut self.scan.name, &mut held);
                self.outer.push(Frame { stack, out, held });
                self.rest_scan();
                proof {
                    let pushed = old(self)@.outer.push(
                        Suspended {
                            rest: old(self)@.rest,
                            out: old(self)@.out,
                            held: old(self)@.scan.name,
                        },
                    );
                    assert(self@.outer =~= pushed);
                    assert(self@.rest =~= old(self)@.scan.arg);
                }
            } else {
                self.scan.depth = self.scan.depth - 1;
                self.scan.arg.push(c);
            }
        } else if c == '{' && !self.scan.escape {
            self.scan.depth = self.scan.depth + 1;
            if self.scan.prev != Mode::ExpandAfterArg1 {
                self.scan.arg.push(c);
            }
        } else {
            self.scan.arg.push(c);
        }
    }

    /// Reads `c` in the condition group of `\if`.
    fn on_if_cond(&mut self, c: char)
        requires
            old(self).roomy(),
        ensures
            final(self).wf(),
            final(self)@ == old(self)@.on_if_cond(c),
    {
        if c == '}' && !self.scan.escape {
            if self.scan.depth == 0 {
                self.fail(MacroError::Incomplete);
            } else if self.scan.depth == 1 {
                self.scan.cond_empty = self.scan.cond_count == 0;
                self.scan.cond_count = 0;
                self.scan.depth = 0;
                self.scan.mode = Mode::Then;
            } else {
                self.scan.depth = self.scan.depth - 1;
                self.scan.cond_count = self.scan.cond_count + 1;
            }
        } else if c == '{' && !self.scan.escape {
            self.scan.depth = self.scan.depth + 1;
            self.scan.cond_count = self.scan.cond_count + 1;
        } else {
            self.scan.cond_count = self.scan.cond_count + 1;
        }
    }

    /// Reads `c` in the name group of `\ifdef`.
    fn on_ifdef_cond(&mut self, c: char)
        requires
            old(self).roomy(),
        ensures
            final(self).wf(),
            final(self)@ == old(self)@.on_ifdef_cond(c),
    {
        if c == '}' && !self.scan.escape {
            if self.scan.depth == 0 {
                self.fail(MacroError::Incomplete);
            } else if self.scan.depth == 1 {
                let name = to_string(&self.scan.name);
                self.scan.cond_empty = !self.table.contains(name.as_str());
                self.scan.name.clear();
                self.scan.depth = 0;
                self.scan.mode = Mode::Then;
            } else {
                self.scan.depth = self.scan.depth - 1;
            }
        } else if c == '{' && !self.scan.escape {
            self.scan.depth = self.scan.depth + 1;
            self.scan.name.push(c);
        } else {
            self.scan.name.push(c);
        }
    }

    /// Keeps `c` if the branch being read is the one that the condition chose.
    fn keep(&mut self, c: char)
        requires
            old(self).wf(),
            old(self).scan.mode == Mode::Then || old(self).scan.mode == Mode::Else,
        ensures
            final(self).wf(),
            final(self)@ == old(self)@.keep(c),
    {
        let wanted = match self.scan.mode {
            Mode::Then => !self.scan.cond_empty,
            _ => self.scan.cond_empty,
        };
        if wanted {
            self.scan.name.push(c);
        }
    }

    /// Reads `c` in a branch of a conditional. `before` tells whether the
    /// branch has not been opened yet.
    fn on_branch(&mut self, c: char, before: bool)
        requires
            old(self).roomy(),
            old(self).scan.mode == Mode::Then || old(self).scan.mode == Mode::Else,
            before == old(self)@.before_branch(),
        ensures
            final(self).wf(),
            old(self).scan.mode == Mode::Then ==> final(self)@ == old(self)@.on_then(c),
            old(self).scan.mode == Mode::Else ==> final(self)@ == old(self)@.on_else(c),
    {
        if c == '}' && !self.scan.escape {
            if self.scan.depth == 0 {
                self.fail(MacroError::Incomplete);
            } else if self.scan.depth == 1 {
                match self.scan.mode {
                    Mode::Then => {
                        self.scan.depth = 0;
                        self.scan.mode = Mode::Else;
                    },
                    _ => {
                        push_reversed(&mut self.stack, &self.scan.name);
                        self.rest_scan();
                    },
                }
            } else {
                self.scan.depth = self.scan.depth - 1;
                self.keep(c);
            }
        } else if c == '{' && !self.scan.escape {
            self.scan.depth = self.scan.depth + 1;
            if !before {
                self.keep(c);
            }
        } else if before {
            self.fail(MacroError::Incomplete);
        } else {
            self.keep(c);
        }
    }

    /// Judges the end of the input.
    fn finish(&mut self)
        requires
            old(self).wf(),
            old(self).stack@.len() == 0,
        ensures
            final(self).wf(),
            final(self)@ == old(self)@.finish(),
    {
        let plain = self.scan.mode == Mode::Plain && self.scan.depth == 0;
        if !plain && !(self.scan.mode == Mode::CallMacro && self.scan.escape) {
            self.status = Status::Failed(MacroError::Incomplete);
            return ;
        }
        if !plain {
            self.out.push('\\');
        }
        match self.outer.pop() {
            None => {
                self.status = Status::Done;
                proof {
                    assert(self@.outer =~= old(self)@.outer);
                }
            },
            Some(frame) => {
                let Frame { stack, out, held } = frame;
                let mut text = out;
                core::mem::swap(&mut self.out, &mut text);
                self.stack = stack;
                push_reversed(&mut self.stack, &text);
                push_reversed(&mut self.stack, &held);
                self.rest_scan();
                self.scan.prev = Mode::ExpandAfterArg2;
                proof {
                    let waiting = old(self)@.outer.last();
                    assert(self@.outer =~= old(self)@.outer.drop_last());
                    assert(self@.rest =~= waiting.held + old(self)@.final_out() + waiting.rest);
                }
            },
        }
    }

    /// One move of the engine: reads the next scalar, or judges the end of the
    /// input. An engine that waits or has ended stays as it is.
    pub fn step(&mut self)
        requires
            old(self).wf(),
        ensures
            final(self).wf(),
            final(self)@ == old(self)@.step(),
    {
        match self.status {
            Status::Running => {},
            _ => {
                return ;
            },
        }
        match self.stack.pop() {
            None => {
                self.finish();
            },
            Some(c) => {
                proof {
                    lemma_reverse_pop(old(self).stack@);
                }
                let mode = self.scan.mode;
                let escape = self.scan.escape;
                match mode {
                    Mode::Plain => self.on_plain(c),
                    Mode::CallMacro => self.on_call_macro(c),
                    Mode::DefMacroName => self.on_def_macro_name(c),
                    Mode::DefArg => self.on_def_arg(c),
                    Mode::CustomMacroArg => self.on_custom_macro_arg(c),
                    Mode::Undef => self.on_undef(c),
                    Mode::Include => self.on_include(c),
                    Mode::ExpandAfterArg1 => self.on_expand_after_arg1(c),
                    Mode::ExpandAfterArg2 => self.on_expand_after_arg2(c),
                    Mode::IfCond => self.on_if_cond(c),
                    Mode::Then => {
                        let before = self.scan.prev == Mode::IfCond || self.scan.prev
                            == Mode::IfDefCond;
                        self.on_branch(c, before)
                    },
                    Mode::Else => {
                        let before = self.scan.prev == Mode::Then;
                        self.on_branch(c, before)
                    },
                    Mode::IfDefCond => self.on_ifdef_cond(c),
                }
                match self.status {
                    Status::Failed(_) => {},
                    _ => {
                        self.scan.prev = mode;
                        self.scan.escape = c == '\\' && !escape;
                    },
                }
            },
        }
    }

    /// Hands the engine the text of the file that it waits for, or `None` if
    /// the file could not be read. The text is stripped of its comments and
    /// read next. An engine that does not wait for a file stays as it is.
    pub fn supply_include(&mut self, contents: Option<String>)
        requires
            old(self).wf(),
        ensures
            final(self).wf(),
            final(self)@ == old(self)@.supply(
                match contents {
                    Some(text) => Some(text@),
                    None => None,
                },
            ),
    {
        match self.status {
            Status::Reading => {},
            _ => {
                return ;
            },
        }
        match contents {
            Some(text) => {
                let cleaned = to_chars(preproc_text(text).as_str());
                push_reversed(&mut self.stack, &cleaned);
                self.rest_scan();
                self.scan.prev = Mode::Include;
                self.status = Status::Running;
            },
            None => {
                self.status = Status::Failed(MacroError::IncludeFailed);
            },
        }
    }

    /// Runs the engine for `fuel` moves, or until it waits or ends if that
    /// comes first, and tells how it stands then. Expansion need not end: a
    /// caller that sets no bound calls again for as long as the engine runs.
    pub fn process_str(&mut self, fuel: u64) -> (status: Status)
        requires
            old(self).wf(),
        ensures
            final(self).wf(),
            final(self)@ == old(self)@.steps(fuel as nat),
            status == final(self)@.status,
            status == Status::Done ==> old(self)@.yields(final(self)@.out),
            status matches Status::Failed(e) ==> old(self)@.fails_with(e),
    {
        let mut left: u64 = fuel;
        loop
            invariant
                self.wf(),
                self@.steps(left as nat) == old(self)@.steps(fuel as nat),
            decreases left,
        {
            match self.status {
                Status::Running => {},
                _ => {
                    proof {
                        lemma_halted_stays(self@, left as nat);
                    }
                    return self.status;
                },
            }
            if left == 0 {
                return self.status;
            }
            self.step();
            left = left - 1;
        }
    }

    /// How the engine stands.
    pub fn status(&self) -> (status: Status)
        ensures
            status == self@.status,
    {
        self.status
    }

    /// The output so far; all of it once the engine is done.
    pub fn output(&self) -> (text: String)
        ensures
            text@ == self@.out,
    {
        to_string(&self.out)
    }

    /// The path of the file that the engine waits for.
    pub fn include_path(&self) -> (path: Option<String>)
        ensures
            path is Some <==> self@.status == Status::Reading,
            path is Some ==> path->0@ == self@.scan.arg,
    {
        match self.status {
            Status::Reading => Some(to_string(&self.scan.arg)),
            _ => None,
        }
    }

    /// The bindings as they stand.
    pub fn table(&self) -> (table: &MacroTable)
        ensures
            table@ == self@.table,
    {
        &self.table
    }
}

} // verus!
