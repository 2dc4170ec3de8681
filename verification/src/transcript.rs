//! The transcript: an ordered, append-only log of conversation turns.
//!
//! A `Turn` is one exchange unit (a role together with its text). The
//! `TranscriptStore` owns the ordered sequence of turns for the current
//! session and supports exactly three operations: `reset`, `append` and
//! `snapshot`. Callers that share the store across tasks wrap it in their
//! own mutual-exclusion primitive; each operation here is a single short
//! read or write, so no lock need ever be held across a network call.

use vstd::prelude::*;

verus! {

/// Who produced a turn: the end user or the generation model.
#[derive(Clone, Copy, PartialEq, Eq, Structural, Debug)]
pub enum Role {
    User,
    Model,
}

/// One message of the conversation, immutable once created.
pub struct Turn {
    pub role: Role,
    pub text: String,
}

/// Mathematical image of a `Turn`: the role and the text as a character
/// sequence.
#[verifier::ext_equal]
pub struct TurnView {
    pub role: Role,
    pub text: Seq<char>,
}

impl View for Turn {
    type V = TurnView;

    open spec fn view(&self) -> TurnView {
        TurnView { role: self.role, text: self.text@ }
    }
}

impl DeepView for Turn {
    type V = TurnView;

    open spec fn deep_view(&self) -> TurnView {
        self.view()
    }
}

impl Turn {
    /// An exact copy of this turn.
    pub fn duplicate(&self) -> (t: Turn)
        ensures
            t@ == self@,
    {
        Turn { role: self.role, text: self.text.clone() }
    }
}

/// The ordered log of all turns of the current session.
///
/// Its view is the sequence of turn views, oldest first.
pub struct TranscriptStore {
    turns: Vec<Turn>,
}

impl View for TranscriptStore {
    type V = Seq<TurnView>;

    closed spec fn view(&self) -> Seq<TurnView> {
        self.turns.deep_view()
    }
}

impl TranscriptStore {
    /// A store with no turns.
    pub fn new() -> (s: TranscriptStore)
        ensures
            s@ == Seq::<TurnView>::empty(),
    {
        let s = TranscriptStore { turns: Vec::new() };
        proof {
            assert(s@ =~= Seq::<TurnView>::empty());
        }
        s
    }

    /// Clears all turns. After `reset`, a `snapshot` yields the empty
    /// sequence, regardless of prior state.
    pub fn reset(&mut self)
        ensures
            final(self)@ == Seq::<TurnView>::empty(),
    {
        self.turns.clear();
        proof {
            assert(self@ =~= Seq::<TurnView>::empty());
        }
    }

    /// Adds `t` at the end, preserving the order of all prior turns.
    pub fn append(&mut self, t: Turn)
        ensures
            final(self)@ == old(self)@.push(t@),
    {
        self.turns.push(t);
        proof {
            assert(self@ =~= old(self)@.push(self.turns[self.turns.len() - 1]@));
        }
    }

    /// Number of turns currently in the log.
    pub fn len(&self) -> (n: usize)
        ensures
            n == self@.len(),
    {
        self.turns.len()
    }

    /// An ordered copy of all turns at the time of the call, usable
    /// without further synchronization.
    pub fn snapshot(&self) -> (s: Vec<Turn>)
        ensures
            s.deep_view() == self@,
    {
        let mut s: Vec<Turn> = Vec::new();
        let mut i: usize = 0;
        while i < self.turns.len()
            invariant
                i <= self.turns.len(),
                s.deep_view() =~= self@.subrange(0, i as int),
            decreases self.turns.len() - i,
        {
            let ghost prev = s.deep_view();
            let t = self.turns[i].duplicate();
            s.push(t);
            proof {
                assert(s.deep_view() =~= prev.push(t@));
                assert(self@.subrange(0, (i + 1) as int) =~= self@.subrange(
                    0,
                    i as int,
                ).push(self@[i as int]));
            }
            i = i + 1;
        }
        proof {
            assert(s.deep_view() =~= self@);
        }
        s
    }
}

/// The transcript that results from appending, in order, every turn of
/// `ts` to a transcript whose content is `h`.
pub open spec fn after_appends(h: Seq<TurnView>, ts: Seq<TurnView>) -> Seq<TurnView>
    decreases ts.len(),
{
    if ts.len() == 0 {
        h
    } else {
        after_appends(h.push(ts[0]), ts.drop_first())
    }
}

/// Appending N turns, one at a time, to a transcript `h` yields exactly
/// `h` followed by those N turns in append order: no turn is lost,
/// duplicated or reordered. Since `append` turns the view `v` into
/// `v.push(t)` and `snapshot` returns the view itself, a snapshot taken
/// after N appends from the empty transcript contains exactly those N
/// turns in append order.
pub proof fn lemma_after_appends(h: Seq<TurnView>, ts: Seq<TurnView>)
    ensures
        after_appends(h, ts) == h + ts,
    decreases ts.len(),
{
    if ts.len() == 0 {
        assert(after_appends(h, ts) =~= h + ts);
    } else {
        lemma_after_appends(h.push(ts[0]), ts.drop_first());
        assert(h.push(ts[0]) + ts.drop_first() =~= h + ts);
    }
}

} // verus!
