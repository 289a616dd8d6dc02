use vstd::prelude::*;

verus! {

/// Classification of a raw submission's source: a chat-feed message,
/// an operator line announcing the operator's own move, an operator
/// line announcing the opponent's move, or any other operator line.
#[derive(Clone, Copy, PartialEq, Eq, Structural, Debug)]
pub enum OriginTag {
    Chat,
    SelfMove,
    OpponentMove,
    Untagged,
}

/// An operator line opening with this sentinel announces the
/// operator's own move.
pub open spec fn is_self_line(s: Seq<char>) -> bool {
    s.len() >= 2 && s[0] == '나' && s[1] == ':'
}

/// An operator line opening with this sentinel announces the
/// opponent's move.
pub open spec fn is_opponent_line(s: Seq<char>) -> bool {
    s.len() >= 3 && s[0] == '상' && s[1] == '대' && s[2] == ':'
}

/// The origin tag an operator line selects: the two reserved sentinel
/// prefixes pick the self-move and opponent-move tags, every other
/// line is untagged.
pub open spec fn classify_spec(line: Seq<char>) -> OriginTag {
    if is_self_line(line) {
        OriginTag::SelfMove
    } else if is_opponent_line(line) {
        OriginTag::OpponentMove
    } else {
        OriginTag::Untagged
    }
}

/// Decides which origin tag an operator line carries.
pub fn classify_operator_line(line: &str) -> (t: OriginTag)
    ensures
        t == classify_spec(line@),
{
    let n = line.unicode_len();
    if n >= 2 && line.get_char(0) == '나' && line.get_char(1) == ':' {
        OriginTag::SelfMove
    } else if n >= 3 && line.get_char(0) == '상' && line.get_char(1) == '대' && line.get_char(2)
        == ':' {
        OriginTag::OpponentMove
    } else {
        OriginTag::Untagged
    }
}

/// The opening of the chat-quote wrapper put around chat-feed text.
pub open spec fn chat_open() -> Seq<char> {
    "채팅: \""@
}

/// The closing of the chat-quote wrapper put around chat-feed text.
pub open spec fn chat_close() -> Seq<char> {
    "\""@
}

/// The marker prefixed to an operator line announcing the operator's
/// own move.
pub open spec fn self_marker() -> Seq<char> {
    "(나의 수) "@
}

/// The marker prefixed to an operator line announcing the opponent's
/// move.
pub open spec fn opponent_marker() -> Seq<char> {
    "(상대의 수) "@
}

/// The normalized form of a raw submission: chat text is wrapped in
/// the chat-quote marker, a tagged operator move is prefixed with the
/// matching move marker, and untagged operator text is left unchanged.
/// Every input maps to exactly one normalized form.
pub open spec fn normalize_spec(raw: Seq<char>, tag: OriginTag) -> Seq<char> {
    match tag {
        OriginTag::Chat => chat_open() + raw + chat_close(),
        OriginTag::SelfMove => self_marker() + raw,
        OriginTag::OpponentMove => opponent_marker() + raw,
        OriginTag::Untagged => raw,
    }
}

/// Normalizes one raw submission according to its origin tag.
pub fn normalize_submission(raw: &str, tag: OriginTag) -> (r: String)
    ensures
        r@ == normalize_spec(raw@, tag),
{
    match tag {
        OriginTag::Chat => {
            let mut out = String::from_str("채팅: \"");
            out.append(raw);
            out.append("\"");
            out
        },
        OriginTag::SelfMove => {
            let mut out = String::from_str("(나의 수) ");
            out.append(raw);
            out
        },
        OriginTag::OpponentMove => {
            let mut out = String::from_str("(상대의 수) ");
            out.append(raw);
            out
        },
        OriginTag::Untagged => raw.to_owned(),
    }
}

} // verus!
