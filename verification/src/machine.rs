use vstd::prelude::*;
use crate::comments::strip_comments;
use crate::table::{substitute, MacroError};
use crate::text::{is_alnum, is_escapable};

verus! {

/// What the scanner is in the middle of.
#[derive(Clone, Copy, Debug, PartialEq, Eq, Structural)]
pub enum Mode {
    /// Copying text to the output.
    Plain,
    /// After a backslash: reading an escape or the name of what is called.
    CallMacro,
    /// Reading the name group of `\def`.
    DefMacroName,
    /// Reading the body group of `\def`.
    DefArg,
    /// Reading the argument group of a user macro.
    CustomMacroArg,
    /// Reading the name group of `\undef`.
    Undef,
    /// Reading the path group of `\include`.
    Include,
    /// Reading the first group of `\expandafter`.
    ExpandAfterArg1,
    /// Reading the second group of `\expandafter`.
    ExpandAfterArg2,
    /// Reading the condition group of `\if`.
    IfCond,
    /// Reading the first branch of `\if` or `\ifdef`.
    Then,
    /// Reading the second branch of `\if` or `\ifdef`.
    Else,
    /// Reading the name group of `\ifdef`.
    IfDefCond,
}

/// Whether the engine can go on by itself.
#[derive(Clone, Copy, Debug, PartialEq, Eq, Structural)]
pub enum Status {
    /// There is more to scan, or the end of the input is yet to be judged.
    Running,
    /// An `\include` group has closed; the engine waits for the file's text.
    Reading,
    /// The input is used up and the output is complete.
    Done,
    /// Expansion has been given up.
    Failed(MacroError),
}

/// The scanner's registers.
pub struct Scan {
    /// The mode in which the next scalar is read.
    pub mode: Mode,
    /// The mode in which the last scalar was read.
    pub prev: Mode,
    /// How many groups are open.
    pub depth: nat,
    /// A name being read, or the text kept of a group that is re-queued.
    pub name: Seq<char>,
    /// The text of an argument group.
    pub arg: Seq<char>,
    /// Whether the condition of the conditional being read was false.
    pub cond_empty: bool,
    /// How many scalars the condition of an `\if` has shown so far.
    pub cond_count: nat,
    /// Whether the last scalar was a backslash that escapes the next one.
    pub escape: bool,
}

impl Scan {
    /// The registers between two constructs: plain mode, nothing open, nothing
    /// kept. `prev` is the mode that read the last scalar.
    pub open spec fn idle(prev: Mode) -> Scan {
        Scan {
            mode: Mode::Plain,
            prev,
            depth: 0,
            name: Seq::empty(),
            arg: Seq::empty(),
            cond_empty: false,
            cond_count: 0,
            escape: false,
        }
    }

    /// The registers are those of plain mode between two constructs.
    pub open spec fn is_idle(self) -> bool {
        self == Scan::idle(self.prev)
    }
}

/// An expansion that waits for the second group of an `\expandafter` to be
/// expanded by itself.
pub struct Suspended {
    /// Its input still to be read.
    pub rest: Seq<char>,
    /// Its output so far.
    pub out: Seq<char>,
    /// The first group, to be read again ahead of the expanded second one.
    pub held: Seq<char>,
}

/// The name of the directive that binds a macro.
pub open spec fn word_def() -> Seq<char> {
    seq!['d', 'e', 'f']
}

/// The name of the directive that drops a binding.
pub open spec fn word_undef() -> Seq<char> {
    seq!['u', 'n', 'd', 'e', 'f']
}

/// The name of the directive that reads a file in.
pub open spec fn word_include() -> Seq<char> {
    seq!['i', 'n', 'c', 'l', 'u', 'd', 'e']
}

/// The name of the directive that expands its second group first.
pub open spec fn word_expandafter() -> Seq<char> {
    seq!['e', 'x', 'p', 'a', 'n', 'd', 'a', 'f', 't', 'e', 'r']
}

/// The name of the directive that chooses by emptiness.
pub open spec fn word_if() -> Seq<char> {
    seq!['i', 'f']
}

/// The name of the directive that chooses by definedness.
pub open spec fn word_ifdef() -> Seq<char> {
    seq!['i', 'f', 'd', 'e', 'f']
}

/// Whether `name` is one of the six directives.
pub open spec fn is_directive(name: Seq<char>) -> bool {
    name == word_def() || name == word_undef() || name == word_include() || name
        == word_expandafter() || name == word_if() || name == word_ifdef()
}

/// The mode that reads the first group after `name` and its opening brace.
pub open spec fn mode_for(name: Seq<char>) -> Mode {
    if name == word_def() {
        Mode::DefMacroName
    } else if name == word_undef() {
        Mode::Undef
    } else if name == word_include() {
        Mode::Include
    } else if name == word_expandafter() {
        Mode::ExpandAfterArg1
    } else if name == word_if() {
        Mode::IfCond
    } else if name == word_ifdef() {
        Mode::IfDefCond
    } else {
        Mode::CustomMacroArg
    }
}

/// The whole state of an expansion: the engine seen as a mathematical value.
pub struct Machine {
    /// The scanner's registers.
    pub scan: Scan,
    /// The input still to be read, next scalar first. Expansions are put in
    /// front of it and read like source text.
    pub rest: Seq<char>,
    /// The output so far.
    pub out: Seq<char>,
    /// The expansions that wait for this one, the innermost last.
    pub outer: Seq<Suspended>,
    /// The bindings of names to bodies.
    pub table: Map<Seq<char>, Seq<char>>,
    /// Whether the engine runs, waits, or has ended.
    pub status: Status,
}

impl Machine {
    /// The machine about to expand `text` with the bindings of `table`.
    pub open spec fn start(table: Map<Seq<char>, Seq<char>>, text: Seq<char>) -> Machine {
        Machine {
            scan: Scan::idle(Mode::Plain),
            rest: text,
            out: Seq::empty(),
            outer: Seq::empty(),
            table,
            status: Status::Running,
        }
    }

    /// The machine runs and stands between two constructs.
    pub open spec fn at_rest(self) -> bool {
        self.status == Status::Running && self.scan.is_idle()
    }

    /// The machine stands between two constructs like `before`, with the same
    /// output and the same suspended expansions, and reads `rest` next.
    pub open spec fn resumes(self, before: Machine, rest: Seq<char>) -> bool {
        &&& self.at_rest()
        &&& self.rest == rest
        &&& self.out == before.out
        &&& self.outer == before.outer
    }

    /// Expansion is given up for `e`. Nothing else changes.
    pub open spec fn fail(self, e: MacroError) -> Machine {
        Machine { status: Status::Failed(e), ..self }
    }

    /// The next scalar is read in `mode`.
    pub open spec fn enter(self, mode: Mode) -> Machine {
        Machine { scan: Scan { mode, ..self.scan }, ..self }
    }

    /// `c` is written to the output.
    pub open spec fn emit(self, c: char) -> Machine {
        Machine { out: self.out.push(c), ..self }
    }

    /// One more group is open.
    pub open spec fn deeper(self) -> Machine {
        Machine { scan: Scan { depth: self.scan.depth + 1, ..self.scan }, ..self }
    }

    /// One group fewer is open.
    pub open spec fn shallower(self) -> Machine {
        Machine { scan: Scan { depth: (self.scan.depth - 1) as nat, ..self.scan }, ..self }
    }

    /// `c` is added to the name register.
    pub open spec fn name_push(self, c: char) -> Machine {
        Machine { scan: Scan { name: self.scan.name.push(c), ..self.scan }, ..self }
    }

    /// `c` is added to the argument register.
    pub open spec fn arg_push(self, c: char) -> Machine {
        Machine { scan: Scan { arg: self.scan.arg.push(c), ..self.scan }, ..self }
    }

    /// The name register is emptied.
    pub open spec fn clear_name(self) -> Machine {
        Machine { scan: Scan { name: Seq::empty(), ..self.scan }, ..self }
    }

    /// The condition has shown one more scalar.
    pub open spec fn count(self) -> Machine {
        Machine { scan: Scan { cond_count: self.scan.cond_count + 1, ..self.scan }, ..self }
    }

    /// Back to plain mode with every register cleared.
    pub open spec fn rested(self) -> Machine {
        Machine { scan: Scan::idle(self.scan.prev), ..self }
    }

    /// Puts `text` in front of the input, to be read next.
    pub open spec fn requeue(self, text: Seq<char>) -> Machine {
        Machine { rest: text + self.rest, ..self }
    }

    /// Whether `c` closes a group: a `}` that no backslash escapes.
    pub open spec fn closes(self, c: char) -> bool {
        c == '}' && !self.scan.escape
    }

    /// Whether `c` opens a group: a `{` that no backslash escapes.
    pub open spec fn opens(self, c: char) -> bool {
        c == '{' && !self.scan.escape
    }

    /// Plain mode: a backslash that is not escaped starts a call or an
    /// escape; every other scalar is written to the output.
    pub open spec fn on_plain(self, c: char) -> Machine {
        if c == '\\' && !self.scan.escape {
            self.enter(Mode::CallMacro)
        } else {
            self.emit(c)
        }
    }

    /// After a backslash. Right behind it, one of `\ # % { }` is written out
    /// alone, any other scalar that no name can hold is written out behind the
    /// backslash, and both lead back to plain mode. Otherwise alphanumeric
    /// scalars make up a name until an opening brace tells what is called: a
    /// directive, whose first group is then read, or a user macro, whose
    /// argument is. Anything else in a name is an error.
    pub open spec fn on_call_macro(self, c: char) -> Machine {
        if self.scan.escape {
            if is_escapable(c) {
                self.emit(c).enter(Mode::Plain)
            } else if !is_alnum(c) {
                self.emit('\\').emit(c).enter(Mode::Plain)
            } else if self.scan.prev == Mode::Plain {
                self.name_push(c)
            } else {
                self
            }
        } else if c == '{' {
            if is_directive(self.scan.name) {
                self.deeper().clear_name().enter(mode_for(self.scan.name))
            } else {
                self.deeper().enter(Mode::CustomMacroArg)
            }
        } else if is_alnum(c) {
            self.name_push(c)
        } else {
            self.fail(MacroError::BadCallName)
        }
    }

    /// The name group of `\def`: alphanumeric scalars up to the closing brace,
    /// and at least one of them. The body group is read next.
    pub open spec fn on_def_macro_name(self, c: char) -> Machine {
        if c == '}' {
            if self.scan.depth == 0 {
                self.fail(MacroError::Incomplete)
            } else if self.scan.name.len() == 0 {
                self.fail(MacroError::BadDefName)
            } else {
                self.shallower().enter(Mode::DefArg)
            }
        } else if is_alnum(c) {
            self.name_push(c)
        } else {
            self.fail(MacroError::BadDefName)
        }
    }

    /// The body group of `\def`, which must open right behind the name group.
    /// Braces inside it are part of the body and must match. The brace that
    /// closes it binds the name to the body, unless the name is bound.
    pub open spec fn on_def_arg(self, c: char) -> Machine {
        if self.closes(c) {
            if self.scan.depth == 0 {
                self.fail(MacroError::Incomplete)
            } else if self.scan.depth == 1 {
                if self.table.contains_key(self.scan.name) {
                    self.fail(MacroError::AlreadyDefined)
                } else {
                    Machine {
                        table: self.table.insert(self.scan.name, self.scan.arg),
                        ..self
                    }.rested()
                }
            } else {
                self.shallower().arg_push(c)
            }
        } else if self.opens(c) {
            if self.scan.prev != Mode::DefMacroName {
                self.deeper().arg_push(c)
            } else {
                self.deeper()
            }
        } else if self.scan.prev == Mode::DefMacroName {
            self.fail(MacroError::Incomplete)
        } else {
            self.arg_push(c)
        }
    }

    /// The argument group of a user macro, braces inside it included. The
    /// brace that closes it puts the macro's body, with the argument in place
    /// of each unescaped `#`, in front of the input; an unbound name is an
    /// error.
    pub open spec fn on_custom_macro_arg(self, c: char) -> Machine {
        if self.closes(c) {
            if self.scan.depth == 0 {
                self.fail(MacroError::Incomplete)
            } else if self.scan.depth == 1 {
                if self.table.contains_key(self.scan.name) {
                    self.requeue(substitute(self.table[self.scan.name], self.scan.arg)).rested()
                } else {
                    self.fail(MacroError::NotDefined)
                }
            } else {
                self.shallower().arg_push(c)
            }
        } else if self.opens(c) {
            self.deeper().arg_push(c)
        } else {
            self.arg_push(c)
        }
    }

    /// The name group of `\undef`: alphanumeric scalars up to the closing
    /// brace, which drops the binding of the name; an unbound name is an error.
    pub open spec fn on_undef(self, c: char) -> Machine {
        if self.closes(c) {
            if self.scan.depth != 1 {
                self.fail(MacroError::Incomplete)
            } else if self.table.contains_key(self.scan.name) {
                Machine { table: self.table.remove(self.scan.name), ..self }.rested()
            } else {
                self.fail(MacroError::NotDefined)
            }
        } else if is_alnum(c) {
            self.name_push(c)
        } else {
            self.fail(MacroError::BadUndefName)
        }
    }

    /// The path group of `\include`, taken as it is written, braces inside it
    /// included; these must match. The brace that closes the group makes the
    /// engine wait for the file; the path stays in the argument register.
    pub open spec fn on_include(self, c: char) -> Machine {
        if self.closes(c) {
            if self.scan.depth == 0 {
                self.fail(MacroError::Incomplete)
            } else if self.scan.depth == 1 {
                Machine { status: Status::Reading, ..self.shallower() }
            } else {
                self.shallower().arg_push(c)
            }
        } else if self.opens(c) {
            self.deeper().arg_push(c)
        } else {
            self.arg_push(c)
        }
    }

    /// The first group of `\expandafter`, kept verbatim in the name register.
    pub open spec fn on_expand_after_arg1(self, c: char) -> Machine {
        if self.closes(c) {
            if self.scan.depth == 0 {
                self.fail(MacroError::Incomplete)
            } else if self.scan.depth == 1 {
                self.shallower().enter(Mode::ExpandAfterArg2)
            } else {
                self.shallower().name_push(c)
            }
        } else if self.opens(c) {
            self.deeper().name_push(c)
        } else {
            self.name_push(c)
        }
    }

    /// The second group of `\expandafter`. The brace that closes it sets the
    /// expansion under way aside, with the first group held back, and starts
    /// one of the second group by itself. What stands between the two groups
    /// is read as part of the second, its opening brace then too.
    pub open spec fn on_expand_after_arg2(self, c: char) -> Machine {
        if self.closes(c) {
            if self.scan.depth == 0 {
                self.fail(MacroError::Incomplete)
            } else if self.scan.depth == 1 {
                Machine {
                    rest: self.scan.arg,
                    out: Seq::empty(),
                    outer: self.outer.push(
                        Suspended { rest: self.rest, out: self.out, held: self.scan.name },
                    ),
                    ..self
                }.rested()
            } else {
                self.shallower().arg_push(c)
            }
        } else if self.opens(c) {
            if self.scan.prev != Mode::ExpandAfterArg1 {
                self.deeper().arg_push(c)
            } else {
                self.deeper()
            }
        } else {
            self.arg_push(c)
        }
    }

    /// The condition group of `\if`: only counted, braces inside it too. The
    /// condition is false exactly if the group holds no scalar.
    pub open spec fn on_if_cond(self, c: char) -> Machine {
        if self.closes(c) {
            if self.scan.depth == 0 {
                self.fail(MacroError::Incomplete)
            } else if self.scan.depth == 1 {
                Machine {
                    scan: Scan {
                        mode: Mode::Then,
                        depth: 0,
                        cond_empty: self.scan.cond_count == 0,
                        cond_count: 0,
                        ..self.scan
                    },
                    ..self
                }
            } else {
                self.shallower().count()
            }
        } else if self.opens(c) {
            self.deeper().count()
        } else {
            self.count()
        }
    }

    /// The name group of `\ifdef`. The condition is false exactly if what was
    /// read is not bound; closing braces inside the group are left out of it.
    pub open spec fn on_ifdef_cond(self, c: char) -> Machine {
        if self.closes(c) {
            if self.scan.depth == 0 {
                self.fail(MacroError::Incomplete)
            } else if self.scan.depth == 1 {
                Machine {
                    scan: Scan {
                        mode: Mode::Then,
                        depth: 0,
                        cond_empty: !self.table.contains_key(self.scan.name),
                        name: Seq::empty(),
                        ..self.scan
                    },
                    ..self
                }
            } else {
                self.shallower()
            }
        } else if self.opens(c) {
            self.deeper().name_push(c)
        } else {
            self.name_push(c)
        }
    }

    /// Whether the branch being read is the one to keep.
    pub open spec fn keeps_branch(self) -> bool {
        if self.scan.mode == Mode::Then {
            !self.scan.cond_empty
        } else {
            self.scan.cond_empty
        }
    }

    /// Whether the branch being read has not been opened yet.
    pub open spec fn before_branch(self) -> bool {
        if self.scan.mode == Mode::Then {
            self.scan.prev == Mode::IfCond || self.scan.prev == Mode::IfDefCond
        } else {
            self.scan.prev == Mode::Then
        }
    }

    /// `c` is kept if the branch being read is the one to keep.
    pub open spec fn keep(self, c: char) -> Machine {
        if self.keeps_branch() {
            self.name_push(c)
        } else {
            self
        }
    }

    /// The first branch of a conditional, which must open right behind the
    /// condition. Its text is kept if the condition was true.
    pub open spec fn on_then(self, c: char) -> Machine {
        if self.closes(c) {
            if self.scan.depth == 0 {
                self.fail(MacroError::Incomplete)
            } else if self.scan.depth == 1 {
                self.shallower().enter(Mode::Else)
            } else {
                self.shallower().keep(c)
            }
        } else if self.opens(c) {
            if self.before_branch() {
                self.deeper()
            } else {
                self.deeper().keep(c)
            }
        } else if self.before_branch() {
            self.fail(MacroError::Incomplete)
        } else {
            self.keep(c)
        }
    }

    /// The second branch of a conditional, which must open right behind the
    /// first. Its text is kept if the condition was false. The brace that
    /// closes it puts the branch that was kept in front of the input.
    pub open spec fn on_else(self, c: char) -> Machine {
        if self.closes(c) {
            if self.scan.depth == 0 {
                self.fail(MacroError::Incomplete)
            } else if self.scan.depth == 1 {
                self.requeue(self.scan.name).rested()
            } else {
                self.shallower().keep(c)
            }
        } else if self.opens(c) {
            if self.before_branch() {
                self.deeper()
            } else {
                self.deeper().keep(c)
            }
        } else if self.before_branch() {
            self.fail(MacroError::Incomplete)
        } else {
            self.keep(c)
        }
    }

    /// What the mode at hand does with `c`, not yet counting `c` as read.
    pub open spec fn dispatch(self, c: char) -> Machine {
        match self.scan.mode {
            Mode::Plain => self.on_plain(c),
            Mode::CallMacro => self.on_call_macro(c),
            Mode::DefMacroName => self.on_def_macro_name(c),
            Mode::DefArg => self.on_def_arg(c),
            Mode::CustomMacroArg => self.on_custom_macro_arg(c),
            Mode::Undef => self.on_undef(c),
            Mode::Include => self.on_include(c),
            Mode::ExpandAfterArg1 => self.on_expand_after_arg1(c),
            Mode::ExpandAfterArg2 => self.on_expand_after_arg2(c),
            Mode::IfCond => self.on_if_cond(c),
            Mode::Then => self.on_then(c),
            Mode::Else => self.on_else(c),
            Mode::IfDefCond => self.on_ifdef_cond(c),
        }
    }

    /// The machine after reading `c`, which has been taken off the input.
    /// Unless reading `c` fails, the mode that read it is remembered, and a
    /// backslash escapes the next scalar exactly if it was not escaped.
    pub open spec fn consume(self, c: char) -> Machine {
        let next = self.dispatch(c);
        if next.status is Failed {
            next
        } else {
            Machine {
                scan: Scan {
                    prev: self.scan.mode,
                    escape: c == '\\' && !self.scan.escape,
                    ..next.scan
                },
                ..next
            }
        }
    }

    /// Whether the input may end here.
    pub open spec fn may_end(self) -> bool {
        (self.scan.mode == Mode::Plain && self.scan.depth == 0) || (self.scan.mode
            == Mode::CallMacro && self.scan.escape)
    }

    /// The output once the input has ended: a lone backslash at the very end
    /// stands for itself.
    pub open spec fn final_out(self) -> Seq<char> {
        if self.scan.mode == Mode::Plain && self.scan.depth == 0 {
            self.out
        } else {
            self.out.push('\\')
        }
    }

    /// The machine after finding its input used up. The outermost expansion
    /// is then done; an inner one hands its output to the one that waits for
    /// it, behind the group that this one held back.
    pub open spec fn finish(self) -> Machine {
        if !self.may_end() {
            self.fail(MacroError::Incomplete)
        } else if self.outer.len() == 0 {
            Machine { out: self.final_out(), status: Status::Done, ..self }
        } else {
            let waiting = self.outer.last();
            Machine {
                scan: Scan::idle(Mode::ExpandAfterArg2),
                rest: waiting.held + self.final_out() + waiting.rest,
                out: waiting.out,
                outer: self.outer.drop_last(),
                ..self
            }
        }
    }

    /// One move of the engine. A machine that does not run stays as it is.
    pub open spec fn step(self) -> Machine {
        if self.status != Status::Running {
            self
        } else if self.rest.len() == 0 {
            self.finish()
        } else {
            Machine { rest: self.rest.drop_first(), ..self }.consume(self.rest[0])
        }
    }

    /// `n` moves of the engine.
    pub open spec fn steps(self, n: nat) -> Machine
        decreases n,
    {
        if n == 0 {
            self
        } else {
            self.step().steps((n - 1) as nat)
        }
    }

    /// The machine after the file that it waits for was read, or could not be.
    /// The file's text is stripped of its comments and read next.
    pub open spec fn supply(self, contents: Option<Seq<char>>) -> Machine {
        if self.status != Status::Reading {
            self
        } else {
            match contents {
                Some(text) => Machine {
                    scan: Scan::idle(Mode::Include),
                    rest: strip_comments(text) + self.rest,
                    status: Status::Running,
                    ..self
                },
                None => self.fail(MacroError::IncludeFailed),
            }
        }
    }
}

} // verus!
