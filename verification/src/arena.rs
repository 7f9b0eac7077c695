//! Memory that a child's data lives in.
//!
//! Everything that a child needs is put into one arena before the child is
//! started, so that the child itself allocates nothing.

use vstd::prelude::*;

use crate::error::BuildError;
use crate::zstr::ZStr;

verus! {

/// An arena; `bumpalo`'s type, carried through.
#[verifier::external_type_specification]
#[verifier::external_body]
pub struct ExBump<const MIN_ALIGN: usize>(bumpalo::Bump<MIN_ALIGN>);

/// `bumpalo::Bump::alloc_slice_copy`: the slice that it returns holds the
/// elements of the slice that it was given, in the same order. It panics where
/// the memory cannot be had, whatever the slice holds.
pub assume_specification<'a, const MIN_ALIGN: usize, T>[
    bumpalo::Bump::<MIN_ALIGN>::alloc_slice_copy::<T>
](arena: &'a bumpalo::Bump<MIN_ALIGN>, src: &[T]) -> (r: &'a mut [T]) where T: Copy
    ensures
        r@ == src@,
;

/// `bumpalo::Bump::alloc_slice_fill_iter`, given a vector: the slice that it
/// returns holds the elements of the vector, in the same order. It panics where
/// the memory cannot be had, whatever the vector holds.
#[verifier::external_body]
pub(crate) fn alloc_items<'a, T>(arena: &'a bumpalo::Bump, items: Vec<T>) -> (r: &'a mut [T])
    ensures
        r@ == items@,
{
    arena.alloc_slice_fill_iter(items)
}

/// Whether the UTF-8 text of `s` holds a NUL.
pub open spec fn has_nul(s: Seq<char>) -> bool {
    !crate::zstr::no_nul(vstd::utf8::encode_utf8(s))
}

/// What is said of a text that cannot be a C string.
pub open spec fn nul_message(s: Seq<char>, context: Seq<char>) -> Seq<char> {
    context + ": interior null byte in \""@ + s + "\""@
}

/// What is wrong with `s` as a C string, if anything is.
pub open spec fn nul_error(s: Seq<char>, context: Seq<char>) -> Option<Seq<char>> {
    if has_nul(s) {
        Some(nul_message(s, context))
    } else {
        None
    }
}

/// Whether `z` is the text `s`.
pub open spec fn is_text(z: ZStr, s: Seq<char>) -> bool {
    z@ == vstd::utf8::encode_utf8(s)
}

/// Whether `r` is what comes of putting `s` into the arena.
pub open spec fn is_alloc(r: Result<ZStr, BuildError>, s: Seq<char>, context: Seq<char>) -> bool {
    match r {
        Ok(z) => nul_error(s, context) is None && is_text(z, s),
        Err(BuildError::InvalidConfig(message)) => nul_error(s, context) == Some(message@),
    }
}

/// Puts `s` into the arena as a C string. A text that holds a NUL is an error
/// that names `context`.
pub fn alloc_cstr<'a>(arena: &'a bumpalo::Bump, s: &str, context: &str) -> (r: Result<
    ZStr<'a>,
    BuildError,
>)
    ensures
        is_alloc(r, s@, context@),
{
    let bytes: &[u8] = s.as_bytes();
    let mut buf: Vec<u8> = Vec::new();
    let mut i: usize = 0;
    while i < bytes.len()
        invariant
            i <= bytes@.len(),
            bytes@ == vstd::utf8::encode_utf8(s@),
            buf@ == bytes@.take(i as int),
            forall|j: int| 0 <= j < i ==> bytes@[j] != 0,
        decreases bytes@.len() - i,
    {
        if bytes[i] == 0 {
            let mut message = String::from_str(context);
            message.append(": interior null byte in \"");
            message.append(s);
            message.append("\"");
            assert(has_nul(s@));
            return Err(BuildError::InvalidConfig(message));
        }
        buf.push(bytes[i]);
        i += 1;
        assert(buf@ =~= bytes@.take(i as int));
    }
    assert(buf@ =~= bytes@);
    buf.push(0);
    let stored: &'a [u8] = arena.alloc_slice_copy(buf.as_slice());
    assert(stored@.drop_last() =~= bytes@);
    let z = ZStr::from_bytes_with_nul(stored).unwrap();
    assert(z@ =~= bytes@);
    Ok(z)
}

/// A text becomes a C string exactly if none of its bytes is zero, and is refused
/// otherwise with a message that names the context and quotes the text.
pub proof fn law_only_a_nul_is_refused(
    arena: &bumpalo::Bump,
    s: &str,
    context: &str,
    r: Result<ZStr, BuildError>,
)
    requires
        call_ensures(alloc_cstr, (arena, s, context), r),
    ensures
        r is Ok <==> forall|i: int|
            0 <= i < vstd::utf8::encode_utf8(s@).len() ==> #[trigger] vstd::utf8::encode_utf8(
                s@,
            )[i] != 0,
        r matches Ok(z) ==> z@ == vstd::utf8::encode_utf8(s@),
        r matches Err(BuildError::InvalidConfig(message)) ==> message@ == context@
            + ": interior null byte in \""@ + s@ + "\""@,
{
}

} // verus!
