use vstd::prelude::*;
use crate::machine::{build_error, Config, TuringMachine};
use crate::rules::{Movement, TransitionRule};

verus! {

/// Construction fails exactly when the state set is empty, the initial
/// state is not in it, the symbol set is empty, or the blank symbol is not
/// in it.
pub proof fn lemma_construction_validation(
    state_set: Seq<char>,
    symbol_set: Seq<char>,
    blank_symbol: char,
    initial_state: char,
)
    ensures
        build_error(state_set, symbol_set, blank_symbol, initial_state) is Some <==> (
        state_set.len() == 0 || !state_set.contains(initial_state) || symbol_set.len() == 0
            || !symbol_set.contains(blank_symbol)),
{
}

/// Once the state is final, every further step leaves tape, head and state
/// exactly as they are.
pub proof fn lemma_final_state_is_fixed<R: TransitionRule>(m: TuringMachine<R>, c: Config, n: nat)
    requires
        m.is_final(c.state),
    ensures
        m.halted(c),
        m.next(c) == c,
        m.iterate(c, n) == c,
    decreases n,
{
    if n > 0 {
        lemma_final_state_is_fixed(m, c, (n - 1) as nat);
    }
}

/// The action that the rule takes in `c`.
pub open spec fn action_in<R: TransitionRule>(m: TuringMachine<R>, c: Config) -> (
    char,
    Movement,
    char,
) {
    m.transition.rule(c.scanned(), c.state)->0
}

/// The step from `c` prepends a blank cell.
pub open spec fn grows_left<R: TransitionRule>(m: TuringMachine<R>, c: Config) -> bool {
    !m.halted(c) && action_in(m, c).1 == Movement::Left && c.head == 0
}

/// How many blank cells the first `n` steps from `c` prepend; the cell
/// that was at index `i` in `c` is then at index `i + left_growth(m, c, n)`.
pub open spec fn left_growth<R: TransitionRule>(m: TuringMachine<R>, c: Config, n: nat) -> nat
    decreases n,
{
    if n == 0 {
        0
    } else {
        (if grows_left(m, c) {
            1nat
        } else {
            0nat
        }) + left_growth(m, m.next(c), (n - 1) as nat)
    }
}

/// How far the head has moved on the unbounded tape after `n` steps from
/// `c`, counted in cells, positive to the right.
pub open spec fn displacement<R: TransitionRule>(m: TuringMachine<R>, c: Config, n: nat) -> int {
    m.iterate(c, n).head - left_growth(m, c, n) - c.head
}

/// A step keeps the head on the tape.
pub proof fn lemma_next_keeps_head_on_tape<R: TransitionRule>(m: TuringMachine<R>, c: Config)
    requires
        c.head_on_tape(),
    ensures
        m.next(c).head_on_tape(),
{
}

/// Each step prepends or appends at most one cell, and writes only the
/// scanned cell: a cell that a step creates holds the blank symbol, and
/// every other cell keeps its symbol.
pub proof fn lemma_new_cells_blank<R: TransitionRule>(m: TuringMachine<R>, c: Config)
    requires
        c.head_on_tape(),
    ensures
        ({
            let d = m.next(c);
            let written = c.tape.update(c.head, action_in(m, c).0);
            &&& m.halted(c) ==> d == c
            &&& !m.halted(c) ==> {
                ||| d.tape == written
                ||| grows_left(m, c) && d.tape == seq![m.blank_symbol] + written
                ||| !grows_left(m, c) && action_in(m, c).1 == Movement::Right && d.tape
                    == written.push(m.blank_symbol)
            }
        }),
{
}

/// After `n` steps the tape has grown by at most `n` cells, and the head
/// has moved at most `n` cells from where it started.
pub proof fn lemma_tape_growth_bound<R: TransitionRule>(m: TuringMachine<R>, c: Config, n: nat)
    requires
        c.head_on_tape(),
    ensures
        m.iterate(c, n).tape.len() <= c.tape.len() + n,
        -n <= displacement(m, c, n) <= n,
    decreases n,
{
    if n > 0 {
        let d = m.next(c);
        lemma_next_keeps_head_on_tape(m, c);
        lemma_tape_growth_bound(m, d, (n - 1) as nat);
        assert(m.iterate(c, n) == m.iterate(d, (n - 1) as nat));
        assert(d.tape.len() <= c.tape.len() + 1);
        let g: int = if grows_left(m, c) {
            1
        } else {
            0
        };
        assert(-1 <= d.head - g - c.head <= 1);
        assert(displacement(m, c, n) == displacement(m, d, (n - 1) as nat) + (d.head - g
            - c.head));
    }
}

/// The number of steps after which a machine halts is determined by where
/// it starts, and so is the configuration it halts in.
pub proof fn lemma_halting_time_unique<R: TransitionRule>(
    m: TuringMachine<R>,
    c: Config,
    n1: nat,
    n2: nat,
)
    requires
        m.halts_first_at(c, n1),
        m.halts_first_at(c, n2),
    ensures
        n1 == n2,
        m.iterate(c, n1) == m.iterate(c, n2),
{
    if n1 < n2 {
        assert(!m.halted(m.iterate(c, n1)));
    }
    if n2 < n1 {
        assert(!m.halted(m.iterate(c, n2)));
    }
}

/// A machine whose rule covers every case and that never enters a final
/// state from `c` never halts, so a bounded run from `c` always ends without
/// a result.
pub proof fn lemma_unreached_final_never_halts<R: TransitionRule>(m: TuringMachine<R>, c: Config)
    requires
        forall|symbol: char, state: char| #[trigger] m.transition.rule(symbol, state) is Some,
        forall|k: nat| !m.is_final(#[trigger] m.iterate(c, k).state),
    ensures
        forall|k: nat| !m.halted(#[trigger] m.iterate(c, k)),
        forall|n: nat| !m.halts_first_at(c, n),
{
    assert forall|k: nat| !m.halted(#[trigger] m.iterate(c, k)) by {
        let d = m.iterate(c, k);
        assert(m.transition.rule(d.scanned(), d.state) is Some);
        assert(!m.is_final(d.state));
    }
}

} // verus!
