//! The environment.

use vstd::prelude::*;

use crate::arena::{alloc_cstr, alloc_items};
use crate::child::{EnvBinding, EnvSpec, EnvStorage};
use crate::config::Environment;
use crate::error::BuildError;
use crate::zstr::ZStr;

verus! {

/// What is wrong with the first `n` assignments, if anything is.
pub open spec fn set_error(set: Seq<(String, String)>, n: int) -> Option<Seq<char>>
    decreases n,
{
    if n <= 0 {
        None
    } else {
        super::first(
            set_error(set, n - 1),
            super::first(
                crate::arena::nul_error(set[n - 1].0@, "env set key"@),
                crate::arena::nul_error(set[n - 1].1@, "env set value"@),
            ),
        )
    }
}

/// The bytes that the first `n` assignments take: each its name and its value,
/// an equals sign between them and a NUL at the end.
pub open spec fn set_bytes(set: Seq<(String, String)>, n: int) -> nat
    decreases n,
{
    if n <= 0 {
        0
    } else {
        set_bytes(set, n - 1) + vstd::utf8::encode_utf8(set[n - 1].0@).len() + 1
            + vstd::utf8::encode_utf8(set[n - 1].1@).len() + 1
    }
}

/// Whether `kept` are the texts of `keep`.
pub open spec fn is_kept(kept: Seq<ZStr>, keep: Seq<String>) -> bool {
    &&& kept.len() == keep.len()
    &&& forall|i: int|
        0 <= i < keep.len() ==> crate::arena::is_text(#[trigger] kept[i], keep[i]@)
}

/// Whether `bindings` are the assignments `set`.
pub open spec fn is_set(bindings: Seq<EnvBinding>, set: Seq<(String, String)>) -> bool {
    &&& bindings.len() == set.len()
    &&& forall|i: int|
        0 <= i < set.len() ==> crate::arena::is_text((#[trigger] bindings[i]).key, set[i].0@)
            && crate::arena::is_text(bindings[i].value, set[i].1@)
}

fn push_nulls<'a>(envp: &mut Vec<Option<ZStr<'a>>>, n: usize)
    ensures
        final(envp)@ == old(envp)@ + Seq::new(n as nat, |i: int| None::<ZStr<'a>>),
{
    let ghost before = envp@;
    let mut i: usize = 0;
    while i < n
        invariant
            i <= n,
            envp@ == before + Seq::new(i as nat, |i: int| None::<ZStr<'a>>),
        decreases n - i,
    {
        envp.push(None);
        i += 1;
        assert(envp@ =~= before + Seq::new(i as nat, |i: int| None::<ZStr<'a>>));
    }
    assert(envp@ =~= before + Seq::new(n as nat, |i: int| None::<ZStr<'a>>));
}

fn push_zeros(bytes: &mut Vec<u8>, n: usize)
    ensures
        final(bytes)@ == old(bytes)@ + Seq::new(n as nat, |i: int| 0u8),
{
    let ghost before = bytes@;
    let mut i: usize = 0;
    while i < n
        invariant
            i <= n,
            bytes@ == before + Seq::new(i as nat, |i: int| 0u8),
        decreases n - i,
    {
        bytes.push(0);
        i += 1;
        assert(bytes@ =~= before + Seq::new(i as nat, |i: int| 0u8));
    }
    assert(bytes@ =~= before + Seq::new(n as nat, |i: int| 0u8));
}

impl Environment {
    /// What is wrong with the environment, if anything is.
    pub open spec fn error(self) -> Option<Seq<char>> {
        super::first(
            super::list_error(self.keep@, "env keep key"@, self.keep@.len() as int),
            set_error(self.set@, self.set@.len() as int),
        )
    }

    /// Whether `r` is the environment, in a process that has `inherited`
    /// variables: with room for each variable that can come about and a null
    /// pointer, and for the text of each assignment.
    pub open spec fn yields(self, inherited: usize, r: EnvSpec) -> bool {
        let variables = if self.clear {
            self.keep@.len()
        } else {
            inherited as nat
        } + self.set@.len();
        &&& r.clear == self.clear
        &&& is_kept(r.keep@, self.keep@)
        &&& is_set(r.set@, self.set@)
        &&& r.storage.envp@ == Seq::new(variables + 1, |i: int| None::<ZStr>)
        &&& r.storage.bytes@ == Seq::new(
            set_bytes(self.set@, self.set@.len() as int),
            |i: int| 0u8,
        )
    }

    /// Prepares the environment, in a process that has `inherited` variables.
    pub fn prepare<'a>(&self, arena: &'a bumpalo::Bump, inherited: usize) -> (r: Result<
        EnvSpec<'a>,
        BuildError,
    >)
        ensures
            match r {
                Ok(env) => self.error() is None && self.yields(inherited, env),
                Err(BuildError::InvalidConfig(message)) => self.error() == Some(message@),
            },
    {
        let keep = super::alloc_list(arena, &self.keep, "env keep key")?;
        let mut set: Vec<EnvBinding<'a>> = Vec::new();
        let mut bytes: Vec<u8> = Vec::new();
        let mut i: usize = 0;
        while i < self.set.len()
            invariant
                i <= self.set@.len(),
                super::list_error(self.keep@, "env keep key"@, self.keep@.len() as int) is None,
                set_error(self.set@, i as int) is None,
                is_set(set@, self.set@.take(i as int)),
                bytes@ == Seq::new(set_bytes(self.set@, i as int), |i: int| 0u8),
            decreases self.set@.len() - i,
        {
            let ghost n = self.set@.len() as int;
            let key = match alloc_cstr(arena, self.set[i].0.as_str(), "env set key") {
                Ok(key) => key,
                Err(e) => {
                    proof {
                        lemma_set_error_stays(self.set@, i + 1, n);
                    }
                    return Err(e);
                },
            };
            let value = match alloc_cstr(arena, self.set[i].1.as_str(), "env set value") {
                Ok(value) => value,
                Err(e) => {
                    proof {
                        lemma_set_error_stays(self.set@, i + 1, n);
                    }
                    return Err(e);
                },
            };
            let ghost before = set@;
            set.push(EnvBinding { key, value });
            push_zeros(&mut bytes, key.to_bytes().len());
            bytes.push(0);
            push_zeros(&mut bytes, value.to_bytes().len());
            bytes.push(0);
            i += 1;
            proof {
                assert(bytes@ =~= Seq::new(set_bytes(self.set@, i as int), |i: int| 0u8));
                let upto = self.set@.take(i as int);
                assert forall|j: int| 0 <= j < upto.len() implies crate::arena::is_text(
                    (#[trigger] set@[j]).key,
                    upto[j].0@,
                ) && crate::arena::is_text(set@[j].value, upto[j].1@) by {
                    if j < i - 1 {
                        assert(set@[j] == before[j]);
                        assert(upto[j] == self.set@.take(i - 1)[j]);
                    }
                }
            }
        }
        assert(self.set@.take(i as int) =~= self.set@);
        let mut envp: Vec<Option<ZStr<'a>>> = Vec::new();
        if self.clear {
            push_nulls(&mut envp, keep.len());
        } else {
            push_nulls(&mut envp, inherited);
        }
        push_nulls(&mut envp, set.len());
        envp.push(None);
        let ghost variables = if self.clear {
            self.keep@.len()
        } else {
            inherited as nat
        } + self.set@.len();
        assert(envp@ =~= Seq::new(variables + 1, |i: int| None::<ZStr<'a>>));
        Ok(
            EnvSpec {
                clear: self.clear,
                keep: alloc_items(arena, keep),
                set: alloc_items(arena, set),
                storage: EnvStorage {
                    envp: alloc_items(arena, envp),
                    bytes: alloc_items(arena, bytes),
                },
            },
        )
    }
}

proof fn lemma_set_error_stays(set: Seq<(String, String)>, m: int, n: int)
    requires
        m <= n,
        set_error(set, m) is Some,
    ensures
        set_error(set, n) == set_error(set, m),
    decreases n,
{
    if m < n {
        lemma_set_error_stays(set, m, n - 1);
    }
}

/// What is cleared, kept and set is what was asked for, in order and word for
/// word. There is a slot for each variable that can come about, one for each that
/// is kept or inherited and one for each that is set, and one for the null pointer
/// at the end; and nothing is in them yet.
pub proof fn law_environment_is_the_one_asked_for(
    config: Environment,
    arena: &bumpalo::Bump,
    inherited: usize,
    r: Result<EnvSpec, BuildError>,
    i: int,
)
    requires
        call_ensures(Environment::prepare, (&config, arena, inherited), r),
    ensures
        r matches Ok(env) ==> {
            &&& env.clear == config.clear
            &&& env.keep@.len() == config.keep@.len()
            &&& 0 <= i < config.keep@.len() ==> env.keep@[i]@ == vstd::utf8::encode_utf8(
                config.keep@[i]@,
            )
            &&& env.set@.len() == config.set@.len()
            &&& 0 <= i < config.set@.len() ==> env.set@[i].key@ == vstd::utf8::encode_utf8(
                config.set@[i].0@,
            ) && env.set@[i].value@ == vstd::utf8::encode_utf8(config.set@[i].1@)
            &&& config.clear ==> env.storage.envp@.len() == config.keep@.len() + config.set@.len()
                + 1
            &&& !config.clear ==> env.storage.envp@.len() == inherited + config.set@.len() + 1
            &&& 0 <= i < env.storage.envp@.len() ==> env.storage.envp@[i] is None
        },
        r is Ok <==> super::is_free_of_nul(config.keep@) && (forall|k: int|
            0 <= k < config.set@.len() ==> crate::zstr::no_nul(
                vstd::utf8::encode_utf8((#[trigger] config.set@[k]).0@),
            ) && crate::zstr::no_nul(vstd::utf8::encode_utf8(config.set@[k].1@))),
{
    super::lemma_list_error(config.keep@, "env keep key"@);
    lemma_set_error(config.set@, config.set@.len() as int);
    if r is Ok {
        let env = r->Ok_0;
        if 0 <= i < config.keep@.len() {
            assert(crate::arena::is_text(env.keep@[i], config.keep@[i]@));
        }
        if 0 <= i < config.set@.len() {
            assert(crate::arena::is_text(env.set@[i].key, config.set@[i].0@));
        }
    }
}

/// The text of an assignment takes its name, its value, an equals sign and a NUL:
/// with one more assignment there is that much more room, and with none there is
/// no room.
pub proof fn law_room_for_each_assignment(
    config: Environment,
    more: Environment,
    arena: &bumpalo::Bump,
    inherited: usize,
    r: Result<EnvSpec, BuildError>,
    s: Result<EnvSpec, BuildError>,
)
    requires
        call_ensures(Environment::prepare, (&config, arena, inherited), r),
        call_ensures(Environment::prepare, (&more, arena, inherited), s),
        r is Ok,
        s is Ok,
    ensures
        config.set@.len() == 0 ==> r->Ok_0.storage.bytes@.len() == 0,
        more.set@.len() == config.set@.len() + 1 && more.set@.drop_last() == config.set@
            ==> s->Ok_0.storage.bytes@.len() == r->Ok_0.storage.bytes@.len()
            + vstd::utf8::encode_utf8(more.set@.last().0@).len() + vstd::utf8::encode_utf8(
            more.set@.last().1@,
        ).len() + 2,
        forall|i: int|
            0 <= i < r->Ok_0.storage.bytes@.len() ==> #[trigger] r->Ok_0.storage.bytes@[i] == 0,
{
    if more.set@.len() == config.set@.len() + 1 && more.set@.drop_last() == config.set@ {
        lemma_set_bytes(more.set@, config.set@, config.set@.len() as int);
    }
}

proof fn lemma_set_bytes(a: Seq<(String, String)>, b: Seq<(String, String)>, n: int)
    requires
        n <= a.len(),
        n <= b.len(),
        forall|i: int| 0 <= i < n ==> a[i] == b[i],
    ensures
        set_bytes(a, n) == set_bytes(b, n),
    decreases n,
{
    if n > 0 {
        lemma_set_bytes(a, b, n - 1);
    }
}

proof fn lemma_set_error(set: Seq<(String, String)>, n: int)
    requires
        n <= set.len(),
    ensures
        set_error(set, n) is None <==> (forall|i: int| 0 <= i < n ==> crate::zstr::no_nul(
            vstd::utf8::encode_utf8((#[trigger] set[i]).0@),
        ) && crate::zstr::no_nul(vstd::utf8::encode_utf8(set[i].1@))),
    decreases n,
{
    if n > 0 {
        lemma_set_error(set, n - 1);
        if set_error(set, n) is Some && set_error(set, n - 1) is None {
            assert(!crate::zstr::no_nul(vstd::utf8::encode_utf8(set[n - 1].0@))
                || !crate::zstr::no_nul(vstd::utf8::encode_utf8(set[n - 1].1@)));
        }
    }
}

/// Of several texts that hold a NUL the first is named: those of the variables that are
/// kept come first, then each assignment with its name before its value.
pub proof fn law_first_wrong_variable_is_named(
    config: Environment,
    arena: &bumpalo::Bump,
    inherited: usize,
    r: Result<EnvSpec, BuildError>,
    i: int,
)
    requires
        call_ensures(Environment::prepare, (&config, arena, inherited), r),
    ensures
        0 <= i < config.keep@.len() && super::is_free_of_nul(config.keep@.take(i))
            && crate::arena::has_nul(config.keep@[i]@) ==> (r matches Err(
            BuildError::InvalidConfig(message),
        ) && message@ == "env keep key"@ + ": interior null byte in \""@ + config.keep@[i]@
            + "\""@),
        0 <= i < config.set@.len() && super::is_free_of_nul(config.keep@) && (forall|j: int|
            0 <= j < i ==> crate::zstr::no_nul(
                vstd::utf8::encode_utf8((#[trigger] config.set@[j]).0@),
            ) && crate::zstr::no_nul(vstd::utf8::encode_utf8(config.set@[j].1@))) ==> {
            &&& crate::arena::has_nul(config.set@[i].0@) ==> (r matches Err(
                BuildError::InvalidConfig(message),
            ) && message@ == "env set key"@ + ": interior null byte in \""@ + config.set@[i].0@
                + "\""@)
            &&& !crate::arena::has_nul(config.set@[i].0@) && crate::arena::has_nul(
                config.set@[i].1@,
            ) ==> (r matches Err(BuildError::InvalidConfig(message)) && message@
                == "env set value"@ + ": interior null byte in \""@ + config.set@[i].1@ + "\""@)
        },
{
    let n = config.set@.len() as int;
    if 0 <= i < config.keep@.len() && super::is_free_of_nul(config.keep@.take(i))
        && crate::arena::has_nul(config.keep@[i]@) {
        super::lemma_first_is_named(config.keep@, "env keep key"@, i);
    }
    super::lemma_list_error(config.keep@, "env keep key"@);
    if 0 <= i < n {
        lemma_set_error(config.set@, i);
        if set_error(config.set@, i + 1) is Some {
            lemma_set_error_stays(config.set@, i + 1, n);
        }
    }
}

} // verus!
