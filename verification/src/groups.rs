use vstd::prelude::*;
use crate::machine::{is_directive, mode_for, Machine, Mode, Scan, Status};
use crate::runs::{is_literal, lemma_step_reads, lemma_steps_add, lemma_steps_snoc};
use crate::text::{escape_after, is_alnum, is_escapable, is_name};

verus! {

/// How many groups are open once `s` has been read, starting with `depth`
/// open groups and `escape` telling whether a backslash was waiting. Only braces
/// that no backslash escapes count.
pub open spec fn depth_after(depth: int, escape: bool, s: Seq<char>) -> int
    decreases s.len(),
{
    if s.len() == 0 {
        depth
    } else {
        let before = depth_after(depth, escape, s.drop_last());
        if escape_after(escape, s.drop_last()) {
            before
        } else if s.last() == '{' {
            before + 1
        } else if s.last() == '}' {
            before - 1
        } else {
            before
        }
    }
}

/// Reading `s` never closes the outermost of the `depth` open groups.
pub open spec fn stays_open(depth: int, escape: bool, s: Seq<char>) -> bool {
    forall|k: int| 0 <= k <= s.len() ==> #[trigger] depth_after(depth, escape, s.take(k)) >= 1
}

/// `s` can stand between the braces of a group: its unescaped braces match
/// each other, and it does not end with a backslash that would escape the
/// closing brace.
pub open spec fn balanced(s: Seq<char>) -> bool {
    &&& stays_open(1, false, s)
    &&& depth_after(1, false, s) == 1
    &&& !escape_after(false, s)
}

impl Machine {
    /// The machine is reading the inside of a group whose text it records
    /// scalar by scalar (or counts, or skips), past the brace that opened it.
    pub open spec fn inside_group(self) -> bool {
        &&& self.status == Status::Running
        &&& self.scan.depth >= 1
        &&& match self.scan.mode {
            Mode::DefArg => self.scan.prev != Mode::DefMacroName,
            Mode::ExpandAfterArg2 => self.scan.prev != Mode::ExpandAfterArg1,
            Mode::Then | Mode::Else => !self.before_branch(),
            Mode::CustomMacroArg | Mode::Include | Mode::ExpandAfterArg1 | Mode::IfCond => true,
            _ => false,
        }
    }

    /// Whether the group being read is recorded in the argument register.
    pub open spec fn records_arg(self) -> bool {
        self.scan.mode == Mode::DefArg || self.scan.mode == Mode::CustomMacroArg || self.scan.mode
            == Mode::Include || self.scan.mode == Mode::ExpandAfterArg2
    }

    /// Whether the group being read is recorded in the name register.
    pub open spec fn records_name(self) -> bool {
        self.scan.mode == Mode::ExpandAfterArg1 || ((self.scan.mode == Mode::Then || self.scan.mode
            == Mode::Else) && self.keeps_branch())
    }

    /// The machine after reading `x` inside a group, with `tail` left to read.
    pub open spec fn absorbed(self, x: Seq<char>, tail: Seq<char>) -> Machine {
        Machine {
            rest: tail,
            scan: Scan {
                prev: if x.len() > 0 {
                    self.scan.mode
                } else {
                    self.scan.prev
                },
                depth: depth_after(self.scan.depth as int, self.scan.escape, x) as nat,
                escape: escape_after(self.scan.escape, x),
                name: if self.records_name() {
                    self.scan.name + x
                } else {
                    self.scan.name
                },
                arg: if self.records_arg() {
                    self.scan.arg + x
                } else {
                    self.scan.arg
                },
                cond_count: if self.scan.mode == Mode::IfCond {
                    self.scan.cond_count + x.len()
                } else {
                    self.scan.cond_count
                },
                ..self.scan
            },
            ..self
        }
    }
}

/// Inside a group, a scalar that does not close the group is taken in.
pub proof fn lemma_capture_one(m: Machine, c: char, tail: Seq<char>)
    requires
        m.inside_group(),
        m.rest == seq![c] + tail,
        depth_after(m.scan.depth as int, m.scan.escape, seq![c]) >= 1,
    ensures
        m.step() == m.absorbed(seq![c], tail),
        m.absorbed(seq![c], tail).inside_group(),
{
    let one = seq![c];
    lemma_step_reads(m, c, tail);
    assert(escape_after(m.scan.escape, one) == (c == '\\' && !m.scan.escape)) by {
        reveal_with_fuel(escape_after, 2);
    }
    assert(depth_after(m.scan.depth as int, m.scan.escape, one) == if m.scan.escape {
        m.scan.depth as int
    } else if c == '{' {
        m.scan.depth as int + 1
    } else if c == '}' {
        m.scan.depth as int - 1
    } else {
        m.scan.depth as int
    }) by {
        reveal_with_fuel(depth_after, 2);
    }
    assert(m.scan.name + one =~= m.scan.name.push(c));
    assert(m.scan.arg + one =~= m.scan.arg.push(c));
}

/// Taking in a text and then one more scalar is taking in the longer text.
proof fn lemma_absorbed_push(m: Machine, head: Seq<char>, c: char, tail: Seq<char>)
    requires
        depth_after(m.scan.depth as int, m.scan.escape, head) >= 0,
        depth_after(m.scan.depth as int, m.scan.escape, head.push(c)) >= 0,
    ensures
        m.absorbed(head, seq![c] + tail).absorbed(seq![c], tail) == m.absorbed(head.push(c), tail),
        depth_after(
            m.absorbed(head, seq![c] + tail).scan.depth as int,
            m.absorbed(head, seq![c] + tail).scan.escape,
            seq![c],
        ) == depth_after(m.scan.depth as int, m.scan.escape, head.push(c)),
{
    let one = seq![c];
    let x = head.push(c);
    let mid = m.absorbed(head, one + tail);
    assert(x.drop_last() =~= head);
    assert(escape_after(mid.scan.escape, one) == escape_after(m.scan.escape, x)) by {
        reveal_with_fuel(escape_after, 2);
    }
    assert(depth_after(mid.scan.depth as int, mid.scan.escape, one) == depth_after(
        m.scan.depth as int,
        m.scan.escape,
        x,
    )) by {
        reveal_with_fuel(depth_after, 2);
    }
    let end = mid.absorbed(one, tail);
    let goal = m.absorbed(x, tail);
    assert(end.scan.name == goal.scan.name);
    assert(end.scan.arg == goal.scan.arg);
}

/// Inside a group, text that does not close the group is taken in verbatim.
pub proof fn lemma_capture(m: Machine, x: Seq<char>, tail: Seq<char>)
    requires
        m.inside_group(),
        m.rest == x + tail,
        stays_open(m.scan.depth as int, m.scan.escape, x),
    ensures
        m.steps(x.len()) == m.absorbed(x, tail),
        m.absorbed(x, tail).inside_group(),
    decreases x.len(),
{
    assert(x.take(x.len() as int) =~= x);
    if x.len() > 0 {
        let head = x.drop_last();
        let c = x.last();
        assert(head.push(c) =~= x);
        assert(m.rest =~= head + (seq![c] + tail));
        assert forall|k: int| 0 <= k <= head.len() implies #[trigger] depth_after(
            m.scan.depth as int,
            m.scan.escape,
            head.take(k),
        ) >= 1 by {
            assert(head.take(k) =~= x.take(k));
        }
        lemma_capture(m, head, seq![c] + tail);
        let mid = m.absorbed(head, seq![c] + tail);
        lemma_absorbed_push(m, head, c, tail);
        lemma_capture_one(mid, c, tail);
        lemma_steps_snoc(m, head.len());
    }
}

/// Text without braces and backslashes opens and closes nothing.
proof fn lemma_literal_is_level(s: Seq<char>)
    requires
        is_literal(s),
    ensures
        depth_after(1, false, s) == 1,
        !escape_after(false, s),
    decreases s.len(),
{
    if s.len() > 0 {
        lemma_literal_is_level(s.drop_last());
    }
}

/// Text without braces and backslashes can stand between the braces of a
/// group.
pub proof fn lemma_literal_is_balanced(s: Seq<char>)
    requires
        is_literal(s),
    ensures
        balanced(s),
{
    lemma_literal_is_level(s);
    assert forall|k: int| 0 <= k <= s.len() implies #[trigger] depth_after(1, false, s.take(k))
        >= 1 by {
        assert forall|i: int| 0 <= i < s.take(k).len() implies !is_escapable(
            #[trigger] s.take(k)[i],
        ) by {}
        lemma_literal_is_level(s.take(k));
    }
}

/// No scalar of `w` is anything but alphanumeric.
pub open spec fn all_alnum(w: Seq<char>) -> bool {
    forall|i: int| 0 <= i < w.len() ==> is_alnum(#[trigger] w[i])
}

impl Machine {
    /// The machine is reading a name, scalar by scalar.
    pub open spec fn reading_name(self) -> bool {
        &&& self.status == Status::Running
        &&& match self.scan.mode {
            Mode::CallMacro => self.scan.escape ==> self.scan.prev == Mode::Plain,
            Mode::DefMacroName | Mode::Undef | Mode::IfDefCond => true,
            _ => false,
        }
    }

    /// The machine after reading the alphanumeric text `w` as part of a name,
    /// with `tail` left to read.
    pub open spec fn named(self, w: Seq<char>, tail: Seq<char>) -> Machine {
        Machine {
            rest: tail,
            scan: Scan {
                prev: if w.len() > 0 {
                    self.scan.mode
                } else {
                    self.scan.prev
                },
                escape: if w.len() > 0 {
                    false
                } else {
                    self.scan.escape
                },
                name: self.scan.name + w,
                ..self.scan
            },
            ..self
        }
    }

    /// The machine after a backslash, the name `word` and an opening brace,
    /// read between two constructs, with `tail` left to read.
    pub open spec fn entered(self, word: Seq<char>, tail: Seq<char>) -> Machine {
        Machine {
            rest: tail,
            scan: Scan {
                mode: mode_for(word),
                prev: Mode::CallMacro,
                depth: 1,
                name: if is_directive(word) {
                    Seq::empty()
                } else {
                    word
                },
                ..self.scan
            },
            ..self
        }
    }
}

/// Where a name is read, an alphanumeric scalar is added to it.
proof fn lemma_read_name_one(m: Machine, c: char, tail: Seq<char>)
    requires
        m.reading_name(),
        m.rest == seq![c] + tail,
        is_alnum(c),
    ensures
        m.step() == m.named(seq![c], tail),
{
    lemma_step_reads(m, c, tail);
    assert(m.scan.name + seq![c] =~= m.scan.name.push(c));
}

/// Where a name is read, alphanumeric text is added to it.
pub proof fn lemma_read_name(m: Machine, w: Seq<char>, tail: Seq<char>)
    requires
        m.reading_name(),
        m.rest == w + tail,
        all_alnum(w),
    ensures
        m.steps(w.len()) == m.named(w, tail),
    decreases w.len(),
{
    if w.len() > 0 {
        let head = w.drop_last();
        let c = w.last();
        assert(m.rest =~= head + (seq![c] + tail));
        lemma_read_name(m, head, seq![c] + tail);
        let mid = m.named(head, seq![c] + tail);
        lemma_read_name_one(mid, c, tail);
        lemma_steps_snoc(m, head.len());
        assert(m.scan.name + head + seq![c] =~= m.scan.name + w);
    }
}

/// Between two constructs, a backslash, a name and an opening brace lead into
/// the first group of the directive or user macro of that name.
pub proof fn lemma_enter(m: Machine, word: Seq<char>, tail: Seq<char>)
    requires
        m.at_rest(),
        m.rest == seq!['\\'] + word + seq!['{'] + tail,
        is_name(word),
    ensures
        m.steps(word.len() + 2) == m.entered(word, tail),
{
    let t2 = seq!['{'] + tail;
    let t1 = word + t2;
    assert(m.rest =~= seq!['\\'] + t1);
    lemma_step_reads(m, '\\', t1);
    let m1 = m.step();
    lemma_read_name(m1, word, t2);
    let m2 = m1.named(word, t2);
    lemma_step_reads(m2, '{', tail);
    lemma_steps_add(m, 1, word.len());
    lemma_steps_add(m, 1 + word.len(), 1);
}

} // verus!
