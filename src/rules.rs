use vstd::prelude::*;

verus! {

/// Direction in which the head moves after a transition.
#[derive(Clone, Copy, Debug, PartialEq, Eq, Structural)]
pub enum Movement {
    Left,
    Right,
}

/// What a transition does: the symbol written, the head movement and the
/// next state.
pub type Action = (char, Movement, char);

/// A transition rule: from the symbol under the head and the current state
/// to the action taken, or `None` where the rule says nothing.
pub trait TransitionRule {
    /// The rule as a mathematical function.
    spec fn rule(&self, symbol: char, state: char) -> Option<Action>;

    /// Evaluates the rule.
    fn apply(&self, symbol: char, state: char) -> (r: Option<Action>)
        ensures
            r == self.rule(symbol, state),
    ;
}

/// One line of a transition table: in `state`, reading `symbol`, write
/// `write`, move by `movement` and enter `next`.
#[derive(Clone, Copy, Debug)]
pub struct Entry {
    pub symbol: char,
    pub state: char,
    pub write: char,
    pub movement: Movement,
    pub next: char,
}

impl Entry {
    pub open spec fn matches(&self, symbol: char, state: char) -> bool {
        self.symbol == symbol && self.state == state
    }

    pub open spec fn action(&self) -> Action {
        (self.write, self.movement, self.next)
    }
}

/// The action of the first entry that matches, if any.
pub open spec fn lookup(entries: Seq<Entry>, symbol: char, state: char) -> Option<Action>
    decreases entries.len(),
{
    if entries.len() == 0 {
        None
    } else if entries[0].matches(symbol, state) {
        Some(entries[0].action())
    } else {
        lookup(entries.drop_first(), symbol, state)
    }
}

/// A transition rule given as a table; the first matching entry wins.
#[derive(Debug)]
pub struct TransitionTable {
    pub entries: Vec<Entry>,
}

impl TransitionTable {
    /// A table with the given entries.
    pub fn new(entries: Vec<Entry>) -> (t: TransitionTable)
        ensures
            t.entries@ == entries@,
    {
        TransitionTable { entries }
    }
}

impl TransitionRule for TransitionTable {
    open spec fn rule(&self, symbol: char, state: char) -> Option<Action> {
        lookup(self.entries@, symbol, state)
    }

    fn apply(&self, symbol: char, state: char) -> (r: Option<Action>) {
        let n = self.entries.len();
        let mut i: usize = 0;
        assert(self.entries@.subrange(0, n as int) =~= self.entries@);
        while i < n
            invariant
                n == self.entries@.len(),
                0 <= i <= n,
                lookup(self.entries@, symbol, state) == lookup(
                    self.entries@.subrange(i as int, n as int),
                    symbol,
                    state,
                ),
            decreases n - i,
        {
            let e = self.entries[i];
            let ghost rest = self.entries@.subrange(i as int, n as int);
            assert(rest[0] == e);
            if e.symbol == symbol && e.state == state {
                return Some((e.write, e.movement, e.next));
            }
            assert(rest.drop_first() =~= self.entries@.subrange(i + 1, n as int));
            i = i + 1;
        }
        assert(self.entries@.subrange(n as int, n as int) =~= Seq::<Entry>::empty());
        None
    }
}

} // verus!
