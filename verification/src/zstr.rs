//! NUL-terminated strings.

use vstd::prelude::*;

verus! {

/// No byte of `s` is NUL.
pub open spec fn no_nul(s: Seq<u8>) -> bool {
    forall|i: int| 0 <= i < s.len() ==> s[i] != 0
}

/// The bytes of `s`, one per character; meant for ASCII text.
pub open spec fn ascii(s: Seq<char>) -> Seq<u8> {
    Seq::new(s.len(), |i: int| s[i] as u8)
}

/// A borrowed C string.
///
/// Its view is the text without the terminating NUL.
#[derive(Clone, Copy, Debug)]
pub struct ZStr<'a> {
    bytes: &'a [u8],
}

impl<'a> View for ZStr<'a> {
    type V = Seq<u8>;

    closed spec fn view(&self) -> Seq<u8> {
        self.bytes@.drop_last()
    }
}

impl<'a> ZStr<'a> {
    #[verifier::type_invariant]
    closed spec fn terminated(self) -> bool {
        &&& self.bytes@.len() > 0
        &&& self.bytes@.last() == 0
        &&& no_nul(self.bytes@.drop_last())
    }

    /// Takes `bytes` as a C string: `Some` exactly when they are a text without
    /// NUL followed by one NUL.
    pub fn from_bytes_with_nul(bytes: &'a [u8]) -> (r: Option<ZStr<'a>>)
        ensures
            r is Some <==> bytes@.len() > 0 && bytes@.last() == 0 && no_nul(bytes@.drop_last()),
            r matches Some(z) ==> bytes@ == z@.push(0u8),
    {
        let n: usize = bytes.len();
        if n == 0 || bytes[n - 1] != 0 {
            return None;
        }
        let mut i: usize = 0;
        while i < n - 1
            invariant
                n == bytes@.len(),
                i <= n - 1,
                forall|j: int| 0 <= j < i ==> bytes@[j] != 0,
            decreases n - i,
        {
            if bytes[i] == 0 {
                assert(bytes@.drop_last()[i as int] == 0);
                return None;
            }
            i += 1;
        }
        let z = ZStr { bytes };
        assert(bytes@ =~= z@.push(0u8));
        Some(z)
    }

    /// The text, without the NUL.
    pub fn to_bytes(&self) -> (r: &'a [u8])
        ensures
            r@ == self@,
            no_nul(r@),
    {
        proof {
            use_type_invariant(self);
        }
        let n: usize = self.bytes.len();
        let r = &self.bytes[0..n - 1];
        assert(r@ =~= self@);
        r
    }

    /// The text and its NUL.
    pub fn to_bytes_with_nul(&self) -> (r: &'a [u8])
        ensures
            r@ == self@.push(0u8),
            no_nul(self@),
    {
        proof {
            use_type_invariant(self);
        }
        assert(self.bytes@ =~= self@.push(0u8));
        self.bytes
    }
}

/// Bytes are a C string exactly if they end with a NUL and hold no other, and the
/// string is what comes before it.
pub proof fn law_what_a_c_string_is(bytes: &[u8], r: Option<ZStr>)
    requires
        call_ensures(ZStr::from_bytes_with_nul, (bytes,), r),
    ensures
        r is Some <==> bytes@.len() > 0 && bytes@[bytes@.len() - 1] == 0 && forall|i: int|
            0 <= i < bytes@.len() - 1 ==> #[trigger] bytes@[i] != 0,
        r matches Some(z) ==> z@.len() == bytes@.len() - 1 && forall|i: int|
            0 <= i < z@.len() ==> #[trigger] z@[i] == bytes@[i],
{
    if bytes@.len() > 0 {
        let text = bytes@.drop_last();
        if no_nul(text) {
            assert forall|i: int| 0 <= i < bytes@.len() - 1 implies #[trigger] bytes@[i] != 0 by {
                assert(text[i] == bytes@[i]);
            }
        }
    }
}

/// What a C string holds is given back as it is, with its NUL or without.
pub proof fn law_text_is_given_back(z: ZStr, a: &[u8], b: &[u8])
    requires
        call_ensures(ZStr::to_bytes, (&z,), a),
        call_ensures(ZStr::to_bytes_with_nul, (&z,), b),
    ensures
        a@ == z@,
        b@ == z@.push(0u8),
{
}

} // verus!
