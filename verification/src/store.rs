use vstd::prelude::*;

use crate::turn::{Role, Turn, TurnView, turns_view};

verus! {

/// A well-formed conversation history: it begins with exactly one
/// system turn, which is never removed, and no later turn is a system
/// turn.
pub open spec fn wf_history(h: Seq<TurnView>) -> bool {
    &&& h.len() >= 1
    &&& h[0].role is System
    &&& forall|i: int| 1 <= i < h.len() ==> !((#[trigger] h[i]).role is System)
}

/// The ordered, append-only conversation history.  It owns the only
/// copy of the history; every mutation goes through [`Self::append`],
/// which adds exactly one turn at the end and touches nothing before
/// it.
pub struct ConversationStore {
    history: Vec<Turn>,
}

impl View for ConversationStore {
    type V = Seq<TurnView>;

    closed spec fn view(&self) -> Seq<TurnView> {
        turns_view(self.history@)
    }
}

impl ConversationStore {
    /// The store's invariant: its history is well formed.
    pub open spec fn wf(&self) -> bool {
        wf_history(self@)
    }

    /// Creates the history with its single system turn, carrying the
    /// given prompt.
    pub fn new(system_prompt: &str) -> (s: Self)
        ensures
            s@ =~= seq![TurnView { role: Role::System, text: system_prompt@ }],
            s.wf(),
    {
        let mut history: Vec<Turn> = Vec::new();
        history.push(Turn { role: Role::System, text: system_prompt.to_owned() });
        let s = ConversationStore { history };
        proof {
            assert(s@ =~= seq![TurnView { role: Role::System, text: system_prompt@ }]);
        }
        s
    }

    /// Appends one non-system turn at the end of the history.  The
    /// turns already recorded are left exactly as they were: there is
    /// no reordering, no truncation, and no partial write.
    pub fn append(&mut self, turn: Turn)
        requires
            old(self).wf(),
            !(turn.role is System),
        ensures
            final(self)@ == old(self)@.push(turn@),
            final(self).wf(),
    {
        let ghost pre = self@;
        self.history.push(turn);
        proof {
            assert(self@ =~= pre.push(turn@));
        }
    }

    /// The number of turns recorded so far.
    pub fn len(&self) -> (n: usize)
        ensures
            n == self@.len(),
    {
        self.history.len()
    }

    /// An immutable point-in-time copy of the full history, suitable to
    /// hand to a slow collaborator while later appends continue on the
    /// store itself.
    pub fn snapshot(&self) -> (snap: Vec<Turn>)
        ensures
            turns_view(snap@) == self@,
    {
        let mut snap: Vec<Turn> = Vec::new();
        let n = self.history.len();
        for i in 0..n
            invariant
                n == self.history.len(),
                snap@.len() == i,
                turns_view(snap@) =~= self@.take(i as int),
        {
            snap.push(self.history[i].clone());
            proof {
                assert(turns_view(snap@) =~= self@.take(i + 1 as int));
            }
        }
        proof {
            assert(self@.take(self.history@.len() as int) =~= self@);
        }
        snap
    }
}

/// System-turn invariant: appending any non-system turn to a
/// well-formed history keeps it well formed, and leaves the original
/// system turn in first position.
pub proof fn lemma_system_turn_preserved(h: Seq<TurnView>, t: TurnView)
    requires
        wf_history(h),
        !(t.role is System),
    ensures
        wf_history(h.push(t)),
        h.push(t)[0] == h[0],
{
}

} // verus!
