//! White space and trimming, over sequences of characters.

use vstd::prelude::*;

verus! {

/// Whether `c` has the Unicode property `White_Space`.
pub open spec fn is_white_space(c: char) -> bool {
    let u: u32 = c as u32;
    ||| 0x09 <= u <= 0x0D
    ||| u == 0x20
    ||| u == 0x85
    ||| u == 0xA0
    ||| u == 0x1680
    ||| 0x2000 <= u <= 0x200A
    ||| u == 0x2028
    ||| u == 0x2029
    ||| u == 0x202F
    ||| u == 0x205F
    ||| u == 0x3000
}

/// Whether every character of `s` is white space. The empty sequence is blank.
pub open spec fn is_blank(s: Seq<char>) -> bool {
    forall|i: int| 0 <= i < s.len() ==> is_white_space(#[trigger] s[i])
}

/// `s` without its leading and trailing white space.
pub open spec fn trimmed(s: Seq<char>) -> Seq<char>
    decreases s.len(),
{
    if s.len() > 0 && is_white_space(s.first()) {
        trimmed(s.drop_first())
    } else if s.len() > 0 && is_white_space(s.last()) {
        trimmed(s.drop_last())
    } else {
        s
    }
}

/// Calls `str::trim`, which returns the slice of `line` that is left once the
/// leading and trailing characters with the property `White_Space` are removed.
#[verifier::external_body]
pub(crate) fn trim(line: &str) -> (core: &str)
    ensures
        core@ == trimmed(line@),
{
    line.trim()
}

/// Whether `a` and `b` hold the same characters, decided on their UTF-8 bytes.
pub fn same_text(a: &str, b: &str) -> (same: bool)
    ensures
        same == (a@ == b@),
{
    let x = a.as_bytes();
    let y = b.as_bytes();
    if x.len() != y.len() {
        return false;
    }
    let mut i: usize = 0;
    while i < x.len()
        invariant
            x@ == vstd::utf8::encode_utf8(a@),
            y@ == vstd::utf8::encode_utf8(b@),
            x@.len() == y@.len(),
            i <= x@.len(),
            forall|j: int| 0 <= j < i ==> x@[j] == y@[j],
        decreases x@.len() - i,
    {
        if x[i] != y[i] {
            return false;
        }
        i += 1;
    }
    proof {
        assert(x@ =~= y@);
        vstd::utf8::encode_utf8_decode_utf8(a@);
        vstd::utf8::encode_utf8_decode_utf8(b@);
    }
    true
}

/// White space followed by white space is white space.
pub proof fn lemma_blank_concat(a: Seq<char>, b: Seq<char>)
    requires
        is_blank(a),
        is_blank(b),
    ensures
        is_blank(a + b),
{
    assert forall|i: int| 0 <= i < (a + b).len() implies is_white_space(#[trigger] (a + b)[i]) by {
        if i >= a.len() {
            assert(is_white_space(b[i - a.len()]));
        }
    }
}

/// A line made of white space, then `core`, then white space trims to `core`,
/// provided `core` is empty or neither starts nor ends with white space.
pub proof fn lemma_trimmed_of_padded(before: Seq<char>, core: Seq<char>, after: Seq<char>)
    requires
        is_blank(before),
        is_blank(after),
        core.len() > 0 ==> !is_white_space(core.first()) && !is_white_space(core.last()),
    ensures
        trimmed(before + core + after) == core,
    decreases before.len() + after.len(),
{
    let s = before + core + after;
    if before.len() > 0 {
        assert(s.drop_first() =~= before.drop_first() + core + after);
        lemma_trimmed_of_padded(before.drop_first(), core, after);
    } else if core.len() == 0 && after.len() > 0 {
        lemma_trimmed_of_padded(before, core, after.drop_first());
    } else if after.len() > 0 {
        assert(s.drop_last() =~= before + core + after.drop_last());
        lemma_trimmed_of_padded(before, core, after.drop_last());
    }
}

/// Every line is white space, then its trimmed form, then white space; and the
/// trimmed form, unless it is empty, neither starts nor ends with white space.
/// The two returned sequences are the white space before and after.
pub proof fn lemma_trimmed_padding(s: Seq<char>) -> (pad: (Seq<char>, Seq<char>))
    ensures
        s == pad.0 + trimmed(s) + pad.1,
        is_blank(pad.0),
        is_blank(pad.1),
        trimmed(s).len() > 0 ==> !is_white_space(trimmed(s).first()) && !is_white_space(
            trimmed(s).last(),
        ),
    decreases s.len(),
{
    if s.len() > 0 && is_white_space(s.first()) {
        let inner = lemma_trimmed_padding(s.drop_first());
        let before = seq![s.first()] + inner.0;
        lemma_blank_concat(seq![s.first()], inner.0);
        assert(s =~= seq![s.first()] + s.drop_first());
        (before, inner.1)
    } else if s.len() > 0 && is_white_space(s.last()) {
        let inner = lemma_trimmed_padding(s.drop_last());
        let after = inner.1 + seq![s.last()];
        lemma_blank_concat(inner.1, seq![s.last()]);
        assert(s =~= s.drop_last() + seq![s.last()]);
        (inner.0, after)
    } else {
        (Seq::empty(), Seq::empty())
    }
}

/// A line trims to nothing exactly when it is blank.
pub proof fn lemma_trimmed_empty_iff_blank(s: Seq<char>)
    ensures
        trimmed(s).len() == 0 <==> is_blank(s),
{
    let none = Seq::<char>::empty();
    if is_blank(s) {
        lemma_trimmed_of_padded(s, none, none);
    }
    if trimmed(s).len() == 0 {
        let pad = lemma_trimmed_padding(s);
        lemma_blank_concat(pad.0, pad.1);
    }
}

/// Trimming twice is trimming once.
pub proof fn lemma_trimmed_idempotent(s: Seq<char>)
    ensures
        trimmed(trimmed(s)) == trimmed(s),
{
    lemma_trimmed_padding(s);
}

} // verus!
