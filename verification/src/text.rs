//! Small operations on text that the compiler needs, stated over sequences of
//! characters.
use vstd::prelude::*;

verus! {

/// Appends one character to a string.
///
/// Trusted: this is `String::push` of the standard library, which adds the
/// character at the end and leaves what was there before unchanged.
#[verifier::external_body]
pub(crate) fn push_char(s: &mut String, c: char)
    ensures
        final(s)@ == old(s)@.push(c),
{
    s.push(c);
}

/// Whether two strings hold the same characters.
pub fn same_text(a: &str, b: &str) -> (r: bool)
    ensures
        r == (a@ == b@),
{
    let n: usize = a.unicode_len();
    if n != b.unicode_len() {
        return false;
    }
    let mut i: usize = 0;
    while i < n
        invariant
            n == a@.len(),
            n == b@.len(),
            i <= n,
            forall|j: int| 0 <= j < i ==> a@[j] == b@[j],
        decreases n - i,
    {
        if a.get_char(i) != b.get_char(i) {
            return false;
        }
        i += 1;
    }
    assert(a@ =~= b@);
    true
}

/// Whether `text` begins with the characters of `prefix`.
pub fn starts_with(text: &str, prefix: &str) -> (r: bool)
    ensures
        r == prefix@.is_prefix_of(text@),
{
    let n: usize = prefix.unicode_len();
    if text.unicode_len() < n {
        return false;
    }
    let mut i: usize = 0;
    while i < n
        invariant
            n == prefix@.len(),
            n <= text@.len(),
            i <= n,
            forall|j: int| 0 <= j < i ==> text@[j] == prefix@[j],
        decreases n - i,
    {
        if text.get_char(i) != prefix.get_char(i) {
            assert(text@.subrange(0, n as int)[i as int] != prefix@[i as int]);
            return false;
        }
        i += 1;
    }
    assert(prefix@ =~= text@.subrange(0, n as int));
    true
}

/// The characters of `s` that are not a space, in their order.
pub open spec fn strip_spaces(s: Seq<char>) -> Seq<char> {
    s.filter(|c: char| c != ' ')
}

/// The text with every space taken out.
pub fn without_spaces(text: &str) -> (r: String)
    ensures
        r@ == strip_spaces(text@),
{
    let n: usize = text.unicode_len();
    let mut out = String::new();
    let mut i: usize = 0;
    assert(text@.take(0) =~= Seq::<char>::empty());
    while i < n
        invariant
            n == text@.len(),
            i <= n,
            out@ == strip_spaces(text@.take(i as int)),
        decreases n - i,
    {
        let c = text.get_char(i);
        proof {
            assert(text@.take(i + 1) =~= text@.take(i as int).push(c));
            text@.take(i as int).lemma_filter_push(c, |c: char| c != ' ');
        }
        if c != ' ' {
            push_char(&mut out, c);
        }
        i += 1;
    }
    assert(text@.take(n as int) =~= text@);
    out
}

/// The text with one character put in front of it.
pub fn with_prefix(c: char, text: &str) -> (r: String)
    ensures
        r@ == seq![c] + text@,
{
    let mut out = String::new();
    push_char(&mut out, c);
    out.append(text);
    assert(out@ =~= seq![c] + text@);
    out
}

} // verus!
