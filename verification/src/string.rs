use vstd::prelude::*;

verus! {

/// The number of bytes before the first NUL (all of them if there is none).
pub open spec fn nul_len(s: Seq<u8>) -> nat
    decreases s.len(),
{
    if s.len() == 0 {
        0
    } else if s[0] == 0 {
        0
    } else {
        1 + nul_len(s.drop_first())
    }
}

/// The text that `String::from_utf8_lossy` makes of `bytes`.
pub uninterp spec fn utf8_lossy(bytes: Seq<u8>) -> Seq<char>;

/// Whether every byte is ASCII (below 0x80).
pub open spec fn is_ascii_bytes(s: Seq<u8>) -> bool {
    forall|i: int| 0 <= i < s.len() ==> #[trigger] s[i] < 0x80
}

/// The characters of ASCII bytes, one per byte.
pub open spec fn ascii_chars(s: Seq<u8>) -> Seq<char> {
    Seq::new(s.len(), |i: int| s[i] as char)
}

/// `String::from_utf8_lossy`: the bytes as UTF-8, each invalid sequence
/// replaced by U+FFFD. Claimed: the result is a function of the bytes alone
/// (named `utf8_lossy`), and ASCII bytes (valid UTF-8, one character each)
/// come out as those characters; of other bytes nothing more is stated.
#[verifier::external_body]
fn from_utf8_lossy(bytes: &[u8]) -> (r: String)
    ensures
        r@ == utf8_lossy(bytes@),
        is_ascii_bytes(bytes@) ==> r@ == ascii_chars(bytes@),
{
    String::from_utf8_lossy(bytes).into_owned()
}

/// The bytes before the first NUL are non-zero, and the byte at it (if any) is zero.
pub proof fn lemma_nul_len(s: Seq<u8>)
    ensures
        nul_len(s) <= s.len(),
        forall|i: int| 0 <= i < nul_len(s) ==> #[trigger] s[i] != 0,
        nul_len(s) < s.len() ==> s[nul_len(s) as int] == 0,
    decreases s.len(),
{
    if s.len() > 0 && s[0] != 0 {
        lemma_nul_len(s.drop_first());
        assert forall|i: int| 0 <= i < nul_len(s) implies #[trigger] s[i] != 0 by {
            if i > 0 {
                assert(s.drop_first()[i - 1] == s[i]);
            }
        }
    }
}

/// A fixed-size NUL-terminated driver string.
#[derive(Copy, Clone, Debug, PartialEq, Eq, Hash)]
pub struct NvString<const N: usize>(pub [u8; N]);

/// The short strings of NvAPI.
pub type NvAPI_ShortString = NvString<64>;

impl<const N: usize> NvString<N> {
    /// The text bytes: those before the first NUL.
    pub open spec fn text(&self) -> Seq<u8> {
        self.0@.take(nul_len(self.0@) as int)
    }

    pub fn data(&self) -> (r: &[u8; N])
        ensures
            r@ == self.0@,
    {
        &self.0
    }

    /// The number of bytes before the first NUL.
    pub fn len(&self) -> (r: usize)
        ensures
            r == nul_len(self.0@),
    {
        proof {
            lemma_nul_len(self.0@);
        }
        let mut n: usize = 0;
        while n < N && self.0[n] != 0
            invariant
                n <= N,
                N == self.0@.len(),
                n <= nul_len(self.0@),
                nul_len(self.0@) <= N,
                forall|i: int| 0 <= i < nul_len(self.0@) ==> #[trigger] self.0@[i] != 0,
                nul_len(self.0@) < N ==> self.0@[nul_len(self.0@) as int] == 0,
            decreases N - n,
        {
            n = n + 1;
        }
        n
    }

    /// The bytes before the first NUL.
    pub fn to_slice(&self) -> (r: &[u8])
        ensures
            r@ == self.text(),
    {
        let n = self.len();
        proof {
            lemma_nul_len(self.0@);
        }
        crate::sys_thermal::entries_prefix(self.0.as_slice(), n)
    }

    /// The bytes of the whole buffer.
    pub fn as_bytes(&self) -> (r: &[u8; N])
        ensures
            r@ == self.0@,
    {
        &self.0
    }

    /// The bytes before the first NUL.
    pub fn str_bytes(&self) -> (r: &[u8])
        ensures
            r@ == self.text(),
    {
        self.to_slice()
    }

    /// The bytes before the first NUL.
    pub fn to_bytes(&self) -> (r: &[u8])
        ensures
            r@ == self.text(),
    {
        self.to_slice()
    }

    /// The text as UTF-8, each invalid sequence replaced; ASCII text comes out
    /// as its characters.
    pub fn to_string_lossy(&self) -> (r: String)
        ensures
            r@ == utf8_lossy(self.text()),
            is_ascii_bytes(self.text()) ==> r@ == ascii_chars(self.text()),
    {
        from_utf8_lossy(self.to_slice())
    }
}

} // verus!
