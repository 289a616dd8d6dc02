use vstd::prelude::*;

verus! {

/// Fragment boundary characters: the cleaned text splits at each of
/// these, and the boundary character itself is discarded.
pub open spec fn is_delim(c: char) -> bool {
    c == '.' || c == ',' || c == '!' || c == '?'
}

/// Names what `char::is_alphanumeric` returns: a function of the
/// character alone.
pub uninterp spec fn char_alnum(c: char) -> bool;

/// Names what `char::is_whitespace` returns: a function of the
/// character alone.
pub uninterp spec fn char_white(c: char) -> bool;

/// Relies on `char::is_alphanumeric`: whether the character is
/// alphabetic or numeric per Unicode; the result depends on the
/// character alone.
#[verifier::external_body]
fn is_alphanumeric_char(c: char) -> (b: bool)
    ensures
        b == char_alnum(c),
{
    c.is_alphanumeric()
}

/// Relies on `char::is_whitespace`: whether the character has the
/// Unicode white-space property; the result depends on the character
/// alone.
#[verifier::external_body]
fn is_whitespace_char(c: char) -> (b: bool)
    ensures
        b == char_white(c),
{
    c.is_whitespace()
}

/// Relies on `char::to_string`: the one-character string holding
/// exactly the given character.
#[verifier::external_body]
fn char_to_string(c: char) -> (r: String)
    ensures
        r@ == seq![c],
{
    c.to_string()
}

/// A character that survives cleaning: alphanumeric, whitespace, a
/// fragment boundary, or a hyphen.  Everything else is non-speech
/// punctuation or markup and is stripped.
pub open spec fn is_kept(c: char) -> bool {
    char_alnum(c) || char_white(c) || is_delim(c) || c == '-'
}

/// The cleaned text: the input with every character that fails
/// [`is_kept`] stripped, the rest kept in order.
pub open spec fn clean(s: Seq<char>) -> Seq<char>
    decreases s.len(),
{
    if s.len() == 0 {
        Seq::empty()
    } else if is_kept(s.last()) {
        clean(s.drop_last()).push(s.last())
    } else {
        clean(s.drop_last())
    }
}

/// Splitting state after reading a prefix of the cleaned text: the
/// finished fragments, and the still-open fragment being collected.
pub open spec fn split_state(s: Seq<char>) -> (Seq<Seq<char>>, Seq<char>)
    decreases s.len(),
{
    if s.len() == 0 {
        (Seq::empty(), Seq::empty())
    } else {
        let p = split_state(s.drop_last());
        if is_delim(s.last()) {
            (p.0.push(p.1), Seq::empty())
        } else {
            (p.0, p.1.push(s.last()))
        }
    }
}

/// The fragments of a reply: the cleaned text split at each boundary
/// character, boundaries discarded, fragments in original order.
/// Adjacent boundaries leave the empty fragment between them; the text
/// after the last boundary forms one final fragment, and none is added
/// when nothing follows it.
pub open spec fn segment_spec(s: Seq<char>) -> Seq<Seq<char>> {
    let p = split_state(clean(s));
    if p.1.len() == 0 {
        p.0
    } else {
        p.0.push(p.1)
    }
}

/// The contents of a sequence of fragments, fragment by fragment.
pub open spec fn frags_view(fs: Seq<String>) -> Seq<Seq<char>> {
    fs.map_values(|f: String| f@)
}

/// Decides whether a character survives cleaning.
fn kept(c: char) -> (b: bool)
    ensures
        b == is_kept(c),
{
    is_alphanumeric_char(c) || is_whitespace_char(c) || c == '.' || c == ',' || c == '!' || c
        == '?' || c == '-'
}

/// Turns one reply into its ordered narratable fragments.  Total over
/// all input text: no input is rejected, and the loop terminates on
/// every input.
pub fn segment(text: &str) -> (frags: Vec<String>)
    ensures
        frags_view(frags@) == segment_spec(text@),
{
    let n = text.unicode_len();
    let mut frags: Vec<String> = Vec::new();
    let mut cur: String = String::new();
    let mut i: usize = 0;
    while i < n
        invariant
            n == text@.len(),
            i <= n,
            (frags_view(frags@), cur@) == split_state(clean(text@.take(i as int))),
        decreases n - i,
    {
        let c = text.get_char(i);
        let ghost tk: Seq<char> = text@.take(i as int);
        let ghost tk1: Seq<char> = text@.take(i as int + 1);
        proof {
            assert(tk1.drop_last() =~= tk);
            assert(tk1.last() == c);
        }
        if kept(c) {
            proof {
                let cl = clean(tk);
                assert(clean(tk1) =~= cl.push(c));
                assert(cl.push(c).drop_last() =~= cl);
                assert(cl.push(c).last() == c);
            }
            if c == '.' || c == ',' || c == '!' || c == '?' {
                let ghost fv: Seq<Seq<char>> = frags_view(frags@);
                let ghost cv: Seq<char> = cur@;
                frags.push(cur);
                cur = String::new();
                proof {
                    assert(frags_view(frags@) =~= fv.push(cv));
                    assert(cur@ =~= Seq::<char>::empty());
                    assert(split_state(clean(tk1)) == (fv.push(cv), Seq::<char>::empty()));
                }
            } else {
                let piece = char_to_string(c);
                cur.append(piece.as_str());
                proof {
                    assert(cur@ =~= split_state(clean(tk)).1.push(c));
                    assert(split_state(clean(tk1)) == (
                        split_state(clean(tk)).0,
                        split_state(clean(tk)).1.push(c),
                    ));
                }
            }
        } else {
            proof {
                assert(clean(tk1) =~= clean(tk));
            }
        }
        i = i + 1;
    }
    proof {
        assert(text@.take(n as int) =~= text@);
    }
    if cur.as_str().is_empty() {
        frags
    } else {
        let ghost fv: Seq<Seq<char>> = frags_view(frags@);
        let ghost cv: Seq<char> = cur@;
        frags.push(cur);
        proof {
            assert(frags_view(frags@) =~= fv.push(cv));
        }
        frags
    }
}

/// Segmenter determinism: the fragments are a function of the input
/// text alone, so equal inputs always give equal fragments.
pub proof fn lemma_segment_deterministic(a: Seq<char>, b: Seq<char>)
    requires
        a == b,
    ensures
        segment_spec(a) == segment_spec(b),
{
}

} // verus!
