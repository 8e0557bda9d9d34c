//! Text of bounded size in a fixed buffer.
use vstd::prelude::*;
use vstd::utf8::{encode_scalar, encode_utf8};

verus! {

/// `heapless::String`, a text of at most `N` bytes held in place.
#[verifier::external_type_specification]
#[verifier::external_body]
pub struct ExHeaplessString<const N: usize>(heapless::String<N>);

/// A text of at most `N` bytes of UTF-8, held in a `heapless::String`. Its view is the sequence
/// of its characters.
pub struct Text<const N: usize> {
    inner: heapless::String<N>,
    chars: Ghost<Seq<char>>,
}

impl<const N: usize> View for Text<N> {
    type V = Seq<char>;

    closed spec fn view(&self) -> Seq<char> {
        self.chars@
    }
}

/// How many bytes a text takes.
pub open spec fn byte_len(chars: Seq<char>) -> nat {
    encode_utf8(chars).len()
}

impl<const N: usize> Text<N> {
    /// `heapless::String::new`: a text that holds nothing.
    #[verifier::external_body]
    pub(crate) fn new() -> (text: Self)
        ensures
            text@ == Seq::<char>::empty(),
    {
        Text { inner: heapless::String::new(), chars: Ghost(Seq::empty()) }
    }

    /// `heapless::String::push_str`: adds a text at the end where its bytes fit behind those
    /// already held, and changes nothing where they do not.
    #[verifier::external_body]
    pub(crate) fn push_str(&mut self, string: &str) -> (fits: bool)
        ensures
            fits == (byte_len(old(self)@) + byte_len(string@) <= N),
            final(self)@ == (if fits {
                old(self)@ + string@
            } else {
                old(self)@
            }),
    {
        self.inner.push_str(string).is_ok()
    }

    /// `heapless::String::push`: adds one character at the end where its bytes fit behind those
    /// already held, and changes nothing where they do not.
    #[verifier::external_body]
    pub(crate) fn push(&mut self, c: char) -> (fits: bool)
        ensures
            fits == (byte_len(old(self)@) + encode_scalar(c as u32).len() <= N),
            final(self)@ == (if fits {
                old(self)@.push(c)
            } else {
                old(self)@
            }),
    {
        self.inner.push(c).is_ok()
    }

    /// `heapless::String::clear`: takes out everything that is held.
    #[verifier::external_body]
    pub(crate) fn clear(&mut self)
        ensures
            final(self)@ == Seq::<char>::empty(),
    {
        self.inner.clear()
    }

    /// `heapless::String::as_str`: the text that is held, which never takes more than `N` bytes.
    #[verifier::external_body]
    pub(crate) fn as_str(&self) -> (string: &str)
        ensures
            string@ == self@,
            byte_len(string@) <= N,
    {
        self.inner.as_str()
    }

    /// The text, to be read.
    pub fn text(&self) -> (string: &str)
        ensures
            string@ == self@,
            byte_len(string@) <= N,
    {
        self.as_str()
    }

    pub fn is_empty(&self) -> (empty: bool)
        ensures
            empty == (self@.len() == 0),
    {
        self.as_str().is_empty()
    }

    /// A text that holds the same.
    pub fn copy(&self) -> (text: Self)
        ensures
            text@ == self@,
    {
        let mut text: Self = Text::new();
        proof {
            assert(encode_utf8(Seq::<char>::empty()) =~= Seq::<u8>::empty());
            assert(Seq::<char>::empty() + self@ =~= self@);
        }
        let _fits: bool = text.push_str(self.as_str());
        text
    }
}

/// Compares two byte strings.
pub fn same_bytes(a: &[u8], b: &[u8]) -> (same: bool)
    ensures
        same == (a@ == b@),
{
    if a.len() != b.len() {
        return false;
    }
    let mut i: usize = 0;
    while i < a.len()
        invariant
            i <= a.len(),
            a@.len() == b@.len(),
            forall|j: int| 0 <= j < i ==> a@[j] == b@[j],
        decreases a.len() - i,
    {
        if a[i] != b[i] {
            assert(a@[i as int] != b@[i as int]);
            return false;
        }
        i = i + 1;
    }
    assert(a@ =~= b@);
    true
}

/// Compares two texts.
pub fn same_text(a: &str, b: &str) -> (same: bool)
    ensures
        same == (a@ == b@),
{
    proof {
        vstd::utf8::encode_utf8_decode_utf8(a@);
        vstd::utf8::encode_utf8_decode_utf8(b@);
    }
    same_bytes(a.as_bytes(), b.as_bytes())
}

/// The bytes of two texts, one behind the other, are those of the one and then of the other.
pub proof fn lemma_encode_concat(a: Seq<char>, b: Seq<char>)
    ensures
        encode_utf8(a + b) == encode_utf8(a) + encode_utf8(b),
        byte_len(a + b) == byte_len(a) + byte_len(b),
    decreases a.len(),
{
    if a.len() == 0 {
        assert(a + b =~= b);
        assert(encode_utf8(a) =~= Seq::<u8>::empty());
        assert(encode_utf8(a) + encode_utf8(b) =~= encode_utf8(b));
    } else {
        lemma_encode_concat(a.drop_first(), b);
        assert((a + b).drop_first() =~= a.drop_first() + b);
        assert((a + b)[0] == a[0]);
        assert(encode_utf8(a) + encode_utf8(b) =~= encode_scalar(a[0] as u32) + (encode_utf8(
            a.drop_first(),
        ) + encode_utf8(b)));
    }
}

/// One more character takes its own bytes.
pub proof fn lemma_encode_push(a: Seq<char>, c: char)
    ensures
        encode_utf8(a.push(c)) == encode_utf8(a) + encode_scalar(c as u32),
        byte_len(a.push(c)) == byte_len(a) + encode_scalar(c as u32).len(),
{
    lemma_encode_concat(a, seq![c]);
    assert(a.push(c) =~= a + seq![c]);
    assert(seq![c].drop_first() =~= Seq::<char>::empty());
    assert(encode_utf8(Seq::<char>::empty()) =~= Seq::<u8>::empty());
    assert(encode_utf8(seq![c]) =~= encode_scalar(c as u32));
}

/// A character of the 7-bit range takes one byte, its own number.
pub proof fn lemma_encode_ascii(c: char)
    requires
        (c as u32) < 0x80,
    ensures
        encode_scalar(c as u32) == seq![c as u8],
{
    vstd::utf8::is_ascii_chars_encode_utf8(seq![c]);
    lemma_encode_push(Seq::empty(), c);
    assert(Seq::<char>::empty().push(c) =~= seq![c]);
    assert(encode_utf8(Seq::<char>::empty()) =~= Seq::<u8>::empty());
    assert(encode_utf8(seq![c]) =~= encode_scalar(c as u32));
    assert(encode_utf8(seq![c]) =~= seq![c as u8]);
}

} // verus!
