use vstd::prelude::*;

use crate::norm::{OriginTag, normalize_spec, normalize_submission};
use crate::segment::{frags_view, segment, segment_spec};
use crate::store::ConversationStore;
use crate::turn::{Role, Turn, TurnView, turns_view};

verus! {

/// The tag a submission is normalized under: an explicit tag is kept,
/// an absent one means the text came straight from the chat feed.
pub open spec fn tag_or_chat(tag: Option<OriginTag>) -> OriginTag {
    match tag {
        Some(t) => t,
        None => OriginTag::Chat,
    }
}

/// The user turn one submission adds to the history.
pub open spec fn user_turn(raw: Seq<char>, tag: Option<OriginTag>) -> TurnView {
    TurnView { role: Role::User, text: normalize_spec(raw, tag_or_chat(tag)) }
}

/// The assistant turn one successful completion adds to the history.
pub open spec fn assistant_turn(reply: Seq<char>) -> TurnView {
    TurnView { role: Role::Assistant, text: reply }
}

/// First half of one submission: normalizes the raw text under its
/// origin tag, appends the user turn, and returns a snapshot of the
/// full history, ready to hand to the completion service.
pub fn prepare_submission(store: &mut ConversationStore, raw: &str, tag: Option<OriginTag>) -> (snap:
    Vec<Turn>)
    requires
        old(store).wf(),
    ensures
        final(store).wf(),
        final(store)@ == old(store)@.push(user_turn(raw@, tag)),
        turns_view(snap@) == final(store)@,
{
    let text = normalize_submission(
        raw,
        match tag {
            Some(t) => t,
            None => OriginTag::Chat,
        },
    );
    store.append(Turn { role: Role::User, text });
    store.snapshot()
}

/// Second half of one submission: records the completion outcome.  A
/// successful reply is appended as the assistant turn and split into
/// its narratable fragments; a failed completion leaves the history
/// exactly as it was — the submission's user turn stays — and yields
/// the error back with no fragments, so nothing of that submission is
/// ever narrated.
pub fn complete_submission(store: &mut ConversationStore, outcome: Result<String, String>) -> (r:
    Result<Vec<String>, String>)
    requires
        old(store).wf(),
    ensures
        final(store).wf(),
        match outcome {
            Ok(reply) => {
                &&& final(store)@ == old(store)@.push(assistant_turn(reply@))
                &&& r matches Ok(frags) && frags_view(frags@) == segment_spec(reply@)
            },
            Err(e) => {
                &&& final(store)@ == old(store)@
                &&& r matches Err(e2) && e2@ == e@
            },
        },
{
    match outcome {
        Ok(reply) => {
            let frags = segment(reply.as_str());
            store.append(Turn { role: Role::Assistant, text: reply });
            Ok(frags)
        },
        Err(e) => Err(e),
    }
}

/// History ordering: a submission appends its user turn first and, on
/// success, its assistant turn afterwards.  Whatever turns other
/// submissions append in between, every turn already recorded is
/// untouched, the user turn keeps its position, and it stands strictly
/// before its assistant turn; each append adds exactly one turn, never
/// a torn or duplicated one.
pub proof fn lemma_submission_interleaving(
    h0: Seq<TurnView>,
    user: TurnView,
    mid: Seq<TurnView>,
    reply: TurnView,
)
    ensures
        ({
            let h = (h0.push(user) + mid).push(reply);
            &&& h.len() == h0.len() + mid.len() + 2
            &&& forall|i: int| 0 <= i < h0.len() ==> h[i] == h0[i]
            &&& forall|j: int| 0 <= j < mid.len() ==> h[h0.len() + 1 + j] == mid[j]
            &&& h[h0.len() as int] == user
            &&& h[h.len() - 1] == reply
            &&& h0.len() < h.len() - 1
        }),
{
}

} // verus!
