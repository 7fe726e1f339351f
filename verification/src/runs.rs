use vstd::prelude::*;
use crate::machine::{Machine, Status};
use crate::table::MacroError;
use crate::text::is_escapable;

verus! {

/// A machine that waits or has ended does not move.
pub proof fn lemma_halted_stays(m: Machine, n: nat)
    requires
        m.status != Status::Running,
    ensures
        m.steps(n) == m,
    decreases n,
{
    if n > 0 {
        lemma_halted_stays(m, (n - 1) as nat);
    }
}

/// Moves add up.
pub proof fn lemma_steps_add(m: Machine, a: nat, b: nat)
    ensures
        m.steps(a + b) == m.steps(a).steps(b),
    decreases a,
{
    if a > 0 {
        lemma_steps_add(m.step(), (a - 1) as nat, b);
    }
}

/// One more move is a move from where the others ended.
pub proof fn lemma_steps_snoc(m: Machine, n: nat)
    ensures
        m.steps(n + 1) == m.steps(n).step(),
{
    lemma_steps_add(m, n, 1);
    assert(m.steps(n).steps(1) == m.steps(n).step()) by {
        reveal_with_fuel(Machine::steps, 2);
    }
}

/// A running machine whose input starts with `c` reads `c`.
pub proof fn lemma_step_reads(m: Machine, c: char, tail: Seq<char>)
    requires
        m.status == Status::Running,
        m.rest == seq![c] + tail,
    ensures
        m.step() == (Machine { rest: tail, ..m }).consume(c),
        m.steps(1) == m.step(),
{
    assert(m.rest.drop_first() =~= tail);
    reveal_with_fuel(Machine::steps, 2);
}

/// Plain mode copies text without backslashes to the output.
pub proof fn lemma_plain_run(m: Machine, text: Seq<char>, tail: Seq<char>)
    requires
        m.at_rest(),
        m.rest == text + tail,
        forall|i: int| 0 <= i < text.len() ==> text[i] != '\\',
    ensures
        m.steps(text.len()).at_rest(),
        m.steps(text.len()) == (Machine {
            scan: m.steps(text.len()).scan,
            rest: tail,
            out: m.out + text,
            ..m
        }),
    decreases text.len(),
{
    if text.len() > 0 {
        let head = text.drop_last();
        let c = text.last();
        assert(m.rest =~= head + (seq![c] + tail));
        lemma_plain_run(m, head, seq![c] + tail);
        let mid = m.steps(head.len());
        lemma_step_reads(mid, c, tail);
        lemma_steps_snoc(m, head.len());
        assert(mid.step().out =~= m.out + text);
    }
}

/// No scalar of `s` is one of `\`, `#`, `%`, `{` and `}`.
pub open spec fn is_literal(s: Seq<char>) -> bool {
    forall|i: int| 0 <= i < s.len() ==> !is_escapable(#[trigger] s[i])
}

/// A machine that stands between two constructs with only literal text left,
/// and with no expansion waiting for it, writes that text out and is done.
pub proof fn lemma_literal_rest_is_written(m: Machine, text: Seq<char>)
    requires
        m.at_rest(),
        m.rest == text,
        m.outer.len() == 0,
        is_literal(text),
    ensures
        m.steps(text.len() + 1).status == Status::Done,
        m.steps(text.len() + 1).out == m.out + text,
        m.steps(text.len() + 1).table == m.table,
{
    lemma_plain_run(m, text, Seq::empty());
    lemma_steps_snoc(m, text.len());
}

impl Machine {
    /// Left to itself, the machine comes to its end with `out` as its output.
    pub open spec fn yields(self, out: Seq<char>) -> bool {
        exists|n: nat| #[trigger] self.steps(n).status == Status::Done && self.steps(n).out == out
    }

    /// Left to itself, the machine gives up for `e`.
    pub open spec fn fails_with(self, e: MacroError) -> bool {
        exists|n: nat| #[trigger] self.steps(n).status == Status::Failed(e)
    }
}

/// Once a machine waits or has ended, more moves change nothing.
pub proof fn lemma_halted_for_good(m: Machine, n: nat, later: nat)
    requires
        m.steps(n).status != Status::Running,
        n <= later,
    ensures
        m.steps(later) == m.steps(n),
{
    lemma_steps_add(m, n, (later - n) as nat);
    lemma_halted_stays(m.steps(n), (later - n) as nat);
}

} // verus!
