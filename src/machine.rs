use vstd::prelude::*;
use crate::rules::{Action, Movement, TransitionRule};

verus! {

/// Why a machine description was refused.
#[derive(Clone, Copy, Debug, PartialEq, Eq, Structural)]
pub enum BuildError {
    EmptyStateSet,
    UnknownInitialState,
    EmptySymbolSet,
    UnknownBlankSymbol,
}

/// The error that construction reports for a description, checked in this
/// order, or `None` for a valid one.
pub open spec fn build_error(
    state_set: Seq<char>,
    symbol_set: Seq<char>,
    blank_symbol: char,
    initial_state: char,
) -> Option<BuildError> {
    if state_set.len() == 0 {
        Some(BuildError::EmptyStateSet)
    } else if !state_set.contains(initial_state) {
        Some(BuildError::UnknownInitialState)
    } else if symbol_set.len() == 0 {
        Some(BuildError::EmptySymbolSet)
    } else if !symbol_set.contains(blank_symbol) {
        Some(BuildError::UnknownBlankSymbol)
    } else {
        None
    }
}

/// What one transition did.
#[derive(Clone, Copy, Debug, PartialEq, Eq, Structural)]
pub struct TraceRecord {
    pub old_state: char,
    pub old_symbol: char,
    pub new_state: char,
    pub new_symbol: char,
    pub movement: Movement,
}

/// The mutable part of a machine: tape contents, head index and state.
pub struct Config {
    pub tape: Seq<char>,
    pub head: int,
    pub state: char,
}

impl Config {
    /// The head stands on a cell of the tape.
    pub open spec fn head_on_tape(&self) -> bool {
        0 <= self.head < self.tape.len()
    }

    pub open spec fn scanned(&self) -> char {
        self.tape[self.head]
    }
}

/// A single-tape Turing machine whose tape grows by one blank cell whenever
/// the head would leave it.
pub struct TuringMachine<R: TransitionRule> {
    pub state_set: Vec<char>,
    pub symbol_set: Vec<char>,
    pub blank_symbol: char,
    pub transition: R,
    pub initial_state: char,
    pub final_state_set: Vec<char>,
    pub head: usize,
    pub tape: Vec<char>,
    pub current_state: char,
}

fn contains_char(v: &Vec<char>, c: char) -> (r: bool)
    ensures
        r == v@.contains(c),
{
    let mut i: usize = 0;
    while i < v.len()
        invariant
            0 <= i <= v@.len(),
            forall|j: int| 0 <= j < i ==> v@[j] != c,
        decreases v@.len() - i,
    {
        if v[i] == c {
            assert(v@[i as int] == c);
            return true;
        }
        i = i + 1;
    }
    false
}

impl<R: TransitionRule> TuringMachine<R> {
    pub open spec fn config(&self) -> Config {
        Config { tape: self.tape@, head: self.head as int, state: self.current_state }
    }

    pub open spec fn is_final(&self, state: char) -> bool {
        self.final_state_set@.contains(state)
    }

    /// No transition applies in `c`: its state is final, or the rule says
    /// nothing about the scanned symbol in that state.
    pub open spec fn halted(&self, c: Config) -> bool {
        self.is_final(c.state) || self.transition.rule(c.scanned(), c.state) is None
    }

    /// The configuration after applying `a` to `c`: write, move, and grow
    /// the tape by a blank cell where the head would leave it.
    pub open spec fn apply_action(&self, c: Config, a: Action) -> Config {
        let written = c.tape.update(c.head, a.0);
        match a.1 {
            Movement::Left => if c.head == 0 {
                Config { tape: seq![self.blank_symbol] + written, head: 0, state: a.2 }
            } else {
                Config { tape: written, head: c.head - 1, state: a.2 }
            },
            Movement::Right => if c.head + 1 == written.len() {
                Config { tape: written.push(self.blank_symbol), head: c.head + 1, state: a.2 }
            } else {
                Config { tape: written, head: c.head + 1, state: a.2 }
            },
        }
    }

    /// One step from `c`; a halted configuration stays as it is.
    pub open spec fn next(&self, c: Config) -> Config {
        if self.halted(c) {
            c
        } else {
            self.apply_action(c, self.transition.rule(c.scanned(), c.state)->0)
        }
    }

    /// The configuration after `n` steps from `c`.
    pub open spec fn iterate(&self, c: Config, n: nat) -> Config
        decreases n,
    {
        if n == 0 {
            c
        } else {
            self.iterate(self.next(c), (n - 1) as nat)
        }
    }

    /// From `c` the machine halts after exactly `n` transitions.
    pub open spec fn halts_first_at(&self, c: Config, n: nat) -> bool {
        &&& self.halted(self.iterate(c, n))
        &&& forall|k: nat| k < n ==> !self.halted(#[trigger] self.iterate(c, k))
    }

    /// The description is valid, and the head stands on the tape unless the
    /// state is final, where the tape is never read.
    pub open spec fn wf(&self) -> bool {
        &&& build_error(self.state_set@, self.symbol_set@, self.blank_symbol, self.initial_state)
            is None
        &&& self.head < self.tape@.len() || self.is_final(self.current_state)
    }

    /// `other` has the same description as `self`.
    pub open spec fn same_description(&self, other: &Self) -> bool {
        &&& other.state_set@ == self.state_set@
        &&& other.symbol_set@ == self.symbol_set@
        &&& other.blank_symbol == self.blank_symbol
        &&& other.transition == self.transition
        &&& other.initial_state == self.initial_state
        &&& other.final_state_set@ == self.final_state_set@
    }

    /// Whether no transition applies in the current configuration.
    pub fn is_halted(&self) -> (r: bool)
        requires
            self.wf(),
        ensures
            r == self.halted(self.config()),
    {
        if contains_char(&self.final_state_set, self.current_state) {
            return true;
        }
        self.transition.apply(self.tape[self.head], self.current_state).is_none()
    }

    /// Applies one transition and reports what it did, or returns `None`,
    /// changing nothing, where the machine is halted.
    pub fn step_traced(&mut self) -> (r: Option<TraceRecord>)
        requires
            old(self).wf(),
        ensures
            final(self).wf(),
            old(self).same_description(final(self)),
            final(self).config() == old(self).next(old(self).config()),
            r is None <==> old(self).halted(old(self).config()),
            r is Some ==> {
                let c = old(self).config();
                let a = old(self).transition.rule(c.scanned(), c.state)->0;
                r->0 == (TraceRecord {
                    old_state: c.state,
                    old_symbol: c.scanned(),
                    new_state: a.2,
                    new_symbol: a.0,
                    movement: a.1,
                })
            },
    {
        if contains_char(&self.final_state_set, self.current_state) {
            return None;
        }
        let old_symbol = self.tape[self.head];
        let old_state = self.current_state;
        let (new_symbol, movement, new_state) = match self.transition.apply(old_symbol, old_state) {
            Some(a) => a,
            None => {
                return None;
            },
        };
        self.current_state = new_state;
        self.tape.set(self.head, new_symbol);
        match movement {
            Movement::Left => {
                if self.head == 0 {
                    self.tape.insert(0, self.blank_symbol);
                    assert(self.tape@ =~= seq![self.blank_symbol] + old(self).tape@.update(
                        old(self).head as int,
                        new_symbol,
                    ));
                } else {
                    self.head = self.head - 1;
                }
            },
            Movement::Right => {
                assert(self.head < self.tape@.len());
                let len = self.tape.len();
                self.head = self.head + 1;
                assert(self.head <= len);
                if self.tape.len() <= self.head {
                    self.tape.push(self.blank_symbol);
                }
            },
        }
        Some(TraceRecord { old_state, old_symbol, new_state, new_symbol, movement })
    }

    /// Applies one transition; returns `false`, changing nothing, where the
    /// machine is halted.
    pub fn step(&mut self) -> (r: bool)
        requires
            old(self).wf(),
        ensures
            final(self).wf(),
            old(self).same_description(final(self)),
            final(self).config() == old(self).next(old(self).config()),
            r == !old(self).halted(old(self).config()),
    {
        self.step_traced().is_some()
    }

    /// Steps until the machine halts, for at most `budget` transitions.
    /// Returns the tape where the machine halted within the budget, and
    /// `None` where it was still running after `budget` transitions; the
    /// machine is left in the configuration where it stopped.
    pub fn run(&mut self, budget: usize) -> (r: Option<Vec<char>>)
        requires
            old(self).wf(),
        ensures
            final(self).wf(),
            old(self).same_description(final(self)),
            match r {
                Some(t) => exists|n: nat|
                    {
                        &&& n <= budget
                        &&& old(self).halts_first_at(old(self).config(), n)
                        &&& final(self).config() == old(self).iterate(old(self).config(), n)
                        &&& t@ == final(self).tape@
                    },
                None => {
                    &&& forall|k: nat|
                        k <= budget ==> !old(self).halted(
                            #[trigger] old(self).iterate(old(self).config(), k),
                        )
                    &&& final(self).config() == old(self).iterate(old(self).config(), budget as nat)
                },
            },
    {
        let ghost start = self.config();
        let mut k: usize = 0;
        loop
            invariant
                self.wf(),
                old(self).same_description(self),
                0 <= k <= budget,
                self.config() == old(self).iterate(start, k as nat),
                start == old(self).config(),
                forall|j: nat| j < k ==> !old(self).halted(#[trigger] old(self).iterate(start, j)),
            decreases budget - k,
        {
            if self.is_halted() {
                return Some(self.tape.clone());
            }
            if k == budget {
                return None;
            }
            self.step();
            proof {
                lemma_iterate_succ(*old(self), start, k as nat);
            }
            k = k + 1;
        }
    }

    /// Builds a machine in its initial state with the head on the first
    /// cell of `tape`, which is kept as given. An empty tape leaves the
    /// machine unable to step unless its initial state is final.
    pub fn new(
        state_set: Vec<char>,
        symbol_set: Vec<char>,
        blank_symbol: char,
        initial_state: char,
        final_state_set: Vec<char>,
        transition: R,
        tape: Vec<char>,
    ) -> (r: Result<Self, BuildError>)
        ensures
            r is Err <==> build_error(state_set@, symbol_set@, blank_symbol, initial_state) is Some,
            r is Err ==> Some(r->Err_0) == build_error(
                state_set@,
                symbol_set@,
                blank_symbol,
                initial_state,
            ),
            r is Ok ==> {
                let m = r->Ok_0;
                &&& m.wf() <==> (tape@.len() > 0 || final_state_set@.contains(initial_state))
                &&& m.state_set@ == state_set@
                &&& m.symbol_set@ == symbol_set@
                &&& m.blank_symbol == blank_symbol
                &&& m.transition == transition
                &&& m.initial_state == initial_state
                &&& m.final_state_set@ == final_state_set@
                &&& m.head == 0
                &&& m.tape@ == tape@
                &&& m.current_state == initial_state
            },
    {
        if state_set.len() == 0 {
            return Err(BuildError::EmptyStateSet);
        }
        if !contains_char(&state_set, initial_state) {
            return Err(BuildError::UnknownInitialState);
        }
        if symbol_set.len() == 0 {
            return Err(BuildError::EmptySymbolSet);
        }
        if !contains_char(&symbol_set, blank_symbol) {
            return Err(BuildError::UnknownBlankSymbol);
        }
        Ok(TuringMachine {
            state_set,
            symbol_set,
            blank_symbol,
            transition,
            initial_state,
            final_state_set,
            head: 0,
            tape,
            current_state: initial_state,
        })
    }
}

/// One more step after `n` steps is `n + 1` steps.
proof fn lemma_iterate_succ<R: TransitionRule>(m: TuringMachine<R>, c: Config, n: nat)
    ensures
        m.iterate(c, n + 1) == m.next(m.iterate(c, n)),
    decreases n,
{
    assert(m.iterate(c, n + 1) == m.iterate(m.next(c), n));
    if n > 0 {
        lemma_iterate_succ(m, m.next(c), (n - 1) as nat);
        assert(m.iterate(c, n) == m.iterate(m.next(c), (n - 1) as nat));
    }
}

} // verus!
