//! Turning a configuration into what the child carries out.
//!
//! Whatever the child needs is put into an arena beforehand. Each `prepare`
//! either gives the child's data or says what is wrong with the configuration;
//! of several things it names the first.

pub mod caps;
pub mod command;
pub mod env;
pub mod fds;
pub mod landlock;
pub mod limits;
pub mod mounts;
pub mod process;
pub mod sandbox;
pub mod seccomp;

use vstd::prelude::*;

use crate::arena::alloc_cstr;
use crate::error::BuildError;
use crate::zstr::ZStr;

verus! {

/// The first of two, if there is any.
pub open spec fn first<T>(a: Option<T>, b: Option<T>) -> Option<T> {
    if a is Some {
        a
    } else {
        b
    }
}

/// What is wrong with the first `n` of `items` as C strings, if anything is.
pub open spec fn list_error(items: Seq<String>, context: Seq<char>, n: int) -> Option<Seq<char>>
    decreases n,
{
    if n <= 0 {
        None
    } else {
        first(
            list_error(items, context, n - 1),
            crate::arena::nul_error(items[n - 1]@, context),
        )
    }
}

/// Puts the items into the arena as C strings.
fn alloc_list<'a>(arena: &'a bumpalo::Bump, items: &Vec<String>, context: &str) -> (r: Result<
    Vec<ZStr<'a>>,
    BuildError,
>)
    ensures
        match r {
            Ok(list) => {
                &&& list_error(items@, context@, items@.len() as int) is None
                &&& list@.len() == items@.len()
                &&& forall|i: int|
                    0 <= i < items@.len() ==> crate::arena::is_text(
                        #[trigger] list@[i],
                        items@[i]@,
                    )
            },
            Err(BuildError::InvalidConfig(message)) => list_error(
                items@,
                context@,
                items@.len() as int,
            ) == Some(message@),
        },
{
    let mut list: Vec<ZStr<'a>> = Vec::new();
    let mut i: usize = 0;
    while i < items.len()
        invariant
            i <= items@.len(),
            list@.len() == i,
            list_error(items@, context@, i as int) is None,
            forall|j: int|
                0 <= j < i ==> crate::arena::is_text(#[trigger] list@[j], items@[j]@),
        decreases items@.len() - i,
    {
        match alloc_cstr(arena, items[i].as_str(), context) {
            Ok(item) => list.push(item),
            Err(e) => {
                proof {
                    lemma_list_error_stays(items@, context@, i + 1, items@.len() as int);
                }
                return Err(e);
            },
        }
        i += 1;
    }
    Ok(list)
}

/// An error among the first of the items is the error of more of them.
proof fn lemma_list_error_stays(items: Seq<String>, context: Seq<char>, m: int, n: int)
    requires
        m <= n,
        list_error(items, context, m) is Some,
    ensures
        list_error(items, context, n) == list_error(items, context, m),
    decreases n,
{
    if m < n {
        lemma_list_error_stays(items, context, m, n - 1);
    }
}

/// Whether each of `items` can be a C string: no byte of its text is zero.
pub open spec fn is_free_of_nul(items: Seq<String>) -> bool {
    forall|i: int| 0 <= i < items.len() ==> crate::zstr::no_nul(
        vstd::utf8::encode_utf8(#[trigger] items[i]@),
    )
}

/// A list of texts is wrong exactly if one of them holds a NUL.
proof fn lemma_list_error(items: Seq<String>, context: Seq<char>)
    ensures
        list_error(items, context, items.len() as int) is None <==> is_free_of_nul(items),
{
    lemma_list_error_of(items, context, items.len() as int);
}

proof fn lemma_list_error_of(items: Seq<String>, context: Seq<char>, n: int)
    requires
        n <= items.len(),
    ensures
        list_error(items, context, n) is None <==> (forall|i: int| 0 <= i < n
            ==> crate::zstr::no_nul(vstd::utf8::encode_utf8(#[trigger] items[i]@))),
    decreases n,
{
    if n > 0 {
        lemma_list_error_of(items, context, n - 1);
        if crate::arena::has_nul(items[n - 1]@) {
            assert(!crate::zstr::no_nul(vstd::utf8::encode_utf8(items[n - 1]@)));
        }
    }
}

/// Of several texts that hold a NUL the first is named.
proof fn lemma_first_is_named(items: Seq<String>, context: Seq<char>, i: int)
    requires
        0 <= i < items.len(),
        is_free_of_nul(items.take(i)),
        crate::arena::has_nul(items[i]@),
    ensures
        list_error(items, context, items.len() as int) == Some(
            crate::arena::nul_message(items[i]@, context),
        ),
{
    assert forall|j: int| 0 <= j < i implies crate::zstr::no_nul(
        vstd::utf8::encode_utf8(#[trigger] items[j]@),
    ) by {
        assert(items.take(i)[j] == items[j]);
    }
    lemma_list_error_of(items, context, i);
    lemma_list_error_stays(items, context, i + 1, items.len() as int);
}

/// What is wrong with two lists is what is wrong with them as one.
proof fn lemma_list_error_concat(a: Seq<String>, b: Seq<String>, context: Seq<char>, n: int)
    requires
        0 <= n <= b.len(),
    ensures
        list_error(a + b, context, a.len() + n) == first(
            list_error(a, context, a.len() as int),
            list_error(b, context, n),
        ),
    decreases n,
{
    if n > 0 {
        lemma_list_error_concat(a, b, context, n - 1);
        assert((a + b)[a.len() + n - 1] == b[n - 1]);
    } else {
        lemma_list_error_prefix(a, a + b, context, a.len() as int);
    }
}

proof fn lemma_list_error_prefix(a: Seq<String>, whole: Seq<String>, context: Seq<char>, n: int)
    requires
        n <= a.len() <= whole.len(),
        forall|i: int| 0 <= i < n ==> a[i] == whole[i],
    ensures
        list_error(a, context, n) == list_error(whole, context, n),
    decreases n,
{
    if n > 0 {
        lemma_list_error_prefix(a, whole, context, n - 1);
    }
}

} // verus!
