//! The command line.

use vstd::prelude::*;

use crate::arena::alloc_cstr;
use crate::child::ExecSpec;
use crate::config::Command;
use crate::error::BuildError;
use crate::text::append_decimal;
use crate::zstr::ZStr;

verus! {

/// How argument number `i` is named in an error.
pub open spec fn arg_context(i: nat) -> Seq<char> {
    "argv["@ + crate::text::decimal(i) + "]"@
}

/// What is wrong with the arguments before number `n`, the command's name left
/// out, if anything is.
pub open spec fn args_error(args: Seq<String>, n: int) -> Option<Seq<char>>
    decreases n,
{
    if n <= 1 {
        None
    } else {
        super::first(
            args_error(args, n - 1),
            crate::arena::nul_error(args[n - 1]@, arg_context((n - 1) as nat)),
        )
    }
}

fn name_arg(i: usize) -> (r: String)
    ensures
        r@ == arg_context(i as nat),
{
    let mut context = String::from_str("argv[");
    append_decimal(&mut context, i as u64);
    context.append("]");
    assert(context@ =~= arg_context(i as nat));
    context
}

impl Command {
    /// What the command is told its own name is.
    pub open spec fn name(self) -> Seq<char> {
        match self.argv0 {
            Some(argv0) => argv0@,
            None => self.args@[0]@,
        }
    }

    /// What is wrong with the command line, if anything is.
    pub open spec fn error(self) -> Option<Seq<char>> {
        super::first(
            crate::arena::nul_error(self.args@[0]@, "command path"@),
            super::first(
                crate::arena::nul_error(
                    self.name(),
                    if self.argv0 is Some {
                        "argv0 override"@
                    } else {
                        "argv[0]"@
                    },
                ),
                args_error(self.args@, self.args@.len() as int),
            ),
        )
    }

    /// Whether `r` is the command line: the path, and the name and the
    /// arguments, with a null pointer at the end.
    pub open spec fn yields(self, r: ExecSpec) -> bool {
        let n = self.args@.len() as int;
        &&& crate::arena::is_text(r.path, self.args@[0]@)
        &&& r.argv@.len() == n + 1
        &&& r.argv@[0] matches Some(z) && crate::arena::is_text(z, self.name())
        &&& forall|i: int|
            1 <= i < n ==> (#[trigger] r.argv@[i] matches Some(z) && crate::arena::is_text(
                z,
                self.args@[i]@,
            ))
        &&& r.argv@[n] is None
    }

    /// Prepares the command line.
    pub fn prepare<'a>(&self, arena: &'a bumpalo::Bump) -> (r: Result<ExecSpec<'a>, BuildError>)
        requires
            self.args@.len() > 0,
        ensures
            match r {
                Ok(line) => self.error() is None && self.yields(line),
                Err(BuildError::InvalidConfig(message)) => self.error() == Some(message@),
            },
    {
        let path = alloc_cstr(arena, self.args[0].as_str(), "command path")?;
        let mut argv: Vec<Option<ZStr<'a>>> = Vec::new();
        let name = match &self.argv0 {
            Some(argv0) => alloc_cstr(arena, argv0.as_str(), "argv0 override")?,
            None => alloc_cstr(arena, self.args[0].as_str(), "argv[0]")?,
        };
        argv.push(Some(name));
        let mut i: usize = 1;
        while i < self.args.len()
            invariant
                1 <= i <= self.args@.len(),
                argv@.len() == i,
                args_error(self.args@, i as int) is None,
                crate::arena::nul_error(self.args@[0]@, "command path"@) is None,
                crate::arena::nul_error(
                    self.name(),
                    if self.argv0 is Some {
                        "argv0 override"@
                    } else {
                        "argv[0]"@
                    },
                ) is None,
                argv@[0] matches Some(z) && crate::arena::is_text(z, self.name()),
                forall|j: int|
                    1 <= j < i ==> (#[trigger] argv@[j] matches Some(z) && crate::arena::is_text(
                        z,
                        self.args@[j]@,
                    )),
            decreases self.args@.len() - i,
        {
            let context = name_arg(i);
            match alloc_cstr(arena, self.args[i].as_str(), context.as_str()) {
                Ok(arg) => argv.push(Some(arg)),
                Err(e) => {
                    proof {
                        lemma_args_error_stays(self.args@, i + 1, self.args@.len() as int);
                    }
                    return Err(e);
                },
            }
            i += 1;
        }
        argv.push(None);
        Ok(ExecSpec { path, argv: crate::arena::alloc_items(arena, argv) })
    }
}

proof fn lemma_args_error_stays(args: Seq<String>, m: int, n: int)
    requires
        m <= n,
        args_error(args, m) is Some,
    ensures
        args_error(args, n) == args_error(args, m),
    decreases n,
{
    if m < n {
        lemma_args_error_stays(args, m, n - 1);
    }
}

/// The command is executed by the path that was given, with the arguments that
/// were given, in order, and a null pointer at the end. It is told its own path
/// for its name, unless another name was given.
pub proof fn law_command_line_is_the_one_given(
    config: Command,
    arena: &bumpalo::Bump,
    r: Result<ExecSpec, BuildError>,
    i: int,
)
    requires
        config.args@.len() > 0,
        call_ensures(Command::prepare, (&config, arena), r),
    ensures
        r matches Ok(line) ==> {
            &&& line.path@ == vstd::utf8::encode_utf8(config.args@[0]@)
            &&& line.argv@.len() == config.args@.len() + 1
            &&& line.argv@.last() is None
            &&& config.argv0 matches Some(name) ==> (line.argv@[0] matches Some(z) && z@
                == vstd::utf8::encode_utf8(name@))
            &&& config.argv0 is None ==> (line.argv@[0] matches Some(z) && z@ == line.path@)
            &&& 1 <= i < config.args@.len() ==> (line.argv@[i] matches Some(z) && z@
                == vstd::utf8::encode_utf8(config.args@[i]@))
        },
        r is Ok <==> super::is_free_of_nul(config.args@) && (config.argv0 matches Some(name)
            ==> crate::zstr::no_nul(vstd::utf8::encode_utf8(name@))),
{
    let n = config.args@.len() as int;
    lemma_args_error(config.args@, n);
    if r is Ok {
        assert forall|j: int| 0 <= j < n implies crate::zstr::no_nul(
            vstd::utf8::encode_utf8(#[trigger] config.args@[j]@),
        ) by {}
    }
    if super::is_free_of_nul(config.args@) {
        assert(crate::zstr::no_nul(vstd::utf8::encode_utf8(config.args@[0]@)));
    }
}

proof fn lemma_args_error(args: Seq<String>, n: int)
    requires
        n <= args.len(),
    ensures
        args_error(args, n) is None <==> (forall|i: int| 1 <= i < n ==> crate::zstr::no_nul(
            vstd::utf8::encode_utf8(#[trigger] args[i]@),
        )),
    decreases n,
{
    if n > 1 {
        lemma_args_error(args, n - 1);
        if crate::arena::has_nul(args[n - 1]@) {
            assert(!crate::zstr::no_nul(vstd::utf8::encode_utf8(args[n - 1]@)));
        }
    }
}

/// Of several texts that hold a NUL the first is named: the path, the name, or
/// the argument with its number.
pub proof fn law_first_wrong_argument_is_named(
    config: Command,
    arena: &bumpalo::Bump,
    r: Result<ExecSpec, BuildError>,
    i: int,
)
    requires
        config.args@.len() > 0,
        call_ensures(Command::prepare, (&config, arena), r),
    ensures
        crate::arena::has_nul(config.args@[0]@) ==> (r matches Err(
            BuildError::InvalidConfig(message),
        ) && message@ == "command path"@ + ": interior null byte in \""@ + config.args@[0]@
            + "\""@),
        !crate::arena::has_nul(config.args@[0]@) && config.argv0 is Some && crate::arena::has_nul(
            config.argv0->0@,
        ) ==> (r matches Err(BuildError::InvalidConfig(message)) && message@ == "argv0 override"@
            + ": interior null byte in \""@ + config.argv0->0@ + "\""@),
        1 <= i < config.args@.len() && super::is_free_of_nul(config.args@.take(i))
            && crate::arena::has_nul(config.args@[i]@) && (config.argv0 is Some
            ==> !crate::arena::has_nul(config.argv0->0@)) ==> (r matches Err(
            BuildError::InvalidConfig(message),
        ) && message@ == "argv["@ + crate::text::decimal(i as nat) + "]"@
            + ": interior null byte in \""@ + config.args@[i]@ + "\""@),
{
    let n = config.args@.len() as int;
    if 1 <= i < n && super::is_free_of_nul(config.args@.take(i)) && crate::arena::has_nul(
        config.args@[i]@,
    ) {
        assert forall|j: int| 0 <= j < i implies crate::zstr::no_nul(
            vstd::utf8::encode_utf8(#[trigger] config.args@[j]@),
        ) by {
            assert(config.args@.take(i)[j] == config.args@[j]);
        }
        assert(!crate::arena::has_nul(config.args@[0]@));
        lemma_args_error(config.args@, i);
        lemma_args_error_stays(config.args@, i + 1, n);
    }
}

} // verus!
