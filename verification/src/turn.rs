use vstd::prelude::*;

verus! {

/// The speaker of one conversation turn.
#[derive(Clone, Copy, PartialEq, Eq, Structural, Debug)]
pub enum Role {
    System,
    User,
    Assistant,
}

/// One role-tagged message of the conversation history.  Created once,
/// immutable thereafter; only its position in the history relates it to
/// other turns.
#[derive(PartialEq, Eq, Debug)]
pub struct Turn {
    pub role: Role,
    pub text: String,
}

/// The mathematical content of a [`Turn`]: its role together with its
/// text as a sequence of characters.
pub struct TurnView {
    pub role: Role,
    pub text: Seq<char>,
}

impl View for Turn {
    type V = TurnView;

    open spec fn view(&self) -> TurnView {
        TurnView { role: self.role, text: self.text@ }
    }
}

impl Clone for Turn {
    fn clone(&self) -> (r: Self)
        ensures
            r == *self,
    {
        Turn { role: self.role, text: self.text.clone() }
    }
}

/// The contents of a sequence of turns, turn by turn.
pub open spec fn turns_view(ts: Seq<Turn>) -> Seq<TurnView> {
    ts.map_values(|t: Turn| t@)
}

} // verus!
