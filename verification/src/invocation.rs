//! The invocation that prints a target description: the binary, its
//! arguments, the directory it runs in and the variables set for it.

use crate::config::RustcDataLayoutConfig;
use crate::env::{
    env_vars, overlay, subprocess_env, with_override, BOOTSTRAP_VALUE, BOOTSTRAP_VAR,
};
use crate::text::{optional_str, optional_text, texts};
use rustc_hash::FxHashMap;
use vstd::prelude::*;

verus! {

/// One subprocess to run, described in full. Only `env` is laid over the
/// environment that the subprocess inherits; nothing is removed from it.
#[derive(Debug)]
pub struct Invocation {
    /// The binary to run.
    pub program: String,
    /// Its arguments, in order.
    pub args: Vec<String>,
    /// The directory to run it in; `None` leaves it where the caller is.
    pub current_dir: Option<String>,
    /// The variables to set for it.
    pub env: FxHashMap<String, String>,
}

/// The model of an [`Invocation`]: its texts as sequences of characters, and
/// its environment as a map from names to values.
pub struct InvocationView {
    /// The binary to run.
    pub program: Seq<char>,
    /// Its arguments, in order.
    pub args: Seq<Seq<char>>,
    /// The directory to run it in, if any.
    pub current_dir: Option<Seq<char>>,
    /// The variables to set for it.
    pub env: Map<Seq<char>, Seq<char>>,
}

impl View for Invocation {
    type V = InvocationView;

    open spec fn view(&self) -> InvocationView {
        InvocationView {
            program: self.program@,
            args: texts(self.args@),
            current_dir: optional_text(self.current_dir),
            env: env_vars(self.env),
        }
    }
}

/// The arguments that ask for the target description to be printed.
pub open spec fn print_args() -> Seq<Seq<char>> {
    seq!["-Z"@, "unstable-options"@, "--print"@, "target-spec-json"@]
}

/// The flag that names the target.
pub open spec fn target_flag() -> Seq<char> {
    "--target"@
}

/// The whole argument list: the request to print, then, where a target is
/// given, the target flag and the target.
pub open spec fn arguments(target: Option<Seq<char>>) -> Seq<Seq<char>> {
    match target {
        Some(triple) => print_args() + seq![target_flag(), triple],
        None => print_args(),
    }
}

/// The invocation for a configuration, once the binary has been located.
pub open spec fn planned(
    config: RustcDataLayoutConfig<'_>,
    program: Seq<char>,
    target: Option<Seq<char>>,
    extra_env: Map<Seq<char>, Seq<char>>,
) -> InvocationView {
    InvocationView {
        program,
        args: arguments(target),
        current_dir: config.spec_current_dir(),
        env: overlay(extra_env),
    }
}

/// With a target, the argument list ends with the target flag and the
/// target; without one, the target flag is no argument at all. This holds
/// for either binary, whatever the program, and whatever the environment.
pub proof fn lemma_target_flag(
    config: RustcDataLayoutConfig<'_>,
    program: Seq<char>,
    target: Option<Seq<char>>,
    extra_env: Map<Seq<char>, Seq<char>>,
)
    ensures
        target matches Some(triple) ==> ({
            let args = planned(config, program, target, extra_env).args;
            &&& args.len() >= 2
            &&& args[args.len() - 2] == target_flag()
            &&& args[args.len() - 1] == triple
        }),
        target is None ==> ({
            let args = planned(config, program, target, extra_env).args;
            forall|i: int| 0 <= i < args.len() ==> args[i] != target_flag()
        }),
{
    reveal_strlit("-Z");
    reveal_strlit("unstable-options");
    reveal_strlit("--print");
    reveal_strlit("target-spec-json");
    reveal_strlit("--target");
    let args = arguments(target);
    assert(print_args().len() == 4);
    if let Some(triple) = target {
        let tail = seq![target_flag(), triple];
        assert(args.len() == 6);
        assert(args[4] == tail[0]);
        assert(args[5] == tail[1]);
    } else {
        assert(target_flag().len() == 8);
        assert(args[0].len() == 2);
        assert(args[1].len() == 16);
        assert(args[2].len() == 7);
        assert(args[3].len() == 16);
    }
}

/// Cargo runs in the directory that holds the manifest, and rustc in no
/// directory of its own, whatever the target, the program and the
/// environment.
pub proof fn lemma_current_dir(
    config: RustcDataLayoutConfig<'_>,
    program: Seq<char>,
    target: Option<Seq<char>>,
    extra_env: Map<Seq<char>, Seq<char>>,
)
    ensures
        config matches RustcDataLayoutConfig::Cargo(_, manifest) ==> planned(
            config,
            program,
            target,
            extra_env,
        ).current_dir == Some(manifest@.parent),
        config is Rustc ==> planned(config, program, target, extra_env).current_dir is None,
{
}

/// Whatever the subprocess inherits, and whatever `extra_env` binds the
/// name to, the subprocess of every invocation sees the bootstrap variable
/// with its fixed value. Every other variable of `extra_env` reaches it as
/// given, and what `extra_env` does not name is inherited unchanged.
pub proof fn lemma_bootstrap_wins(
    config: RustcDataLayoutConfig<'_>,
    program: Seq<char>,
    target: Option<Seq<char>>,
    extra_env: Map<Seq<char>, Seq<char>>,
    inherited: Map<Seq<char>, Seq<char>>,
)
    ensures
        ({
            let set = planned(config, program, target, extra_env).env;
            let seen = subprocess_env(inherited, set);
            &&& set.contains_key(BOOTSTRAP_VAR@) && set[BOOTSTRAP_VAR@] == BOOTSTRAP_VALUE@
            &&& seen.contains_key(BOOTSTRAP_VAR@) && seen[BOOTSTRAP_VAR@] == BOOTSTRAP_VALUE@
            &&& forall|name: Seq<char>|
                name != BOOTSTRAP_VAR@ && #[trigger] extra_env.contains_key(name)
                    ==> seen.contains_key(name) && seen[name] == extra_env[name]
            &&& forall|name: Seq<char>|
                name != BOOTSTRAP_VAR@ && !extra_env.contains_key(name) ==> (
                #[trigger] seen.contains_key(name) <==> inherited.contains_key(name))
            &&& forall|name: Seq<char>|
                name != BOOTSTRAP_VAR@ && !extra_env.contains_key(name)
                    && #[trigger] inherited.contains_key(name) ==> seen[name] == inherited[name]
        }),
{
}

/// Builds the invocation of `program` for `config`: the request to print the
/// target description, for `target` where one is given, run in the
/// manifest's directory where the configuration has a manifest, with the
/// variables of `extra_env` and the bootstrap variable set.
pub fn invocation(
    config: RustcDataLayoutConfig<'_>,
    program: String,
    target: Option<&str>,
    extra_env: &FxHashMap<String, String>,
) -> (invocation: Invocation)
    ensures
        invocation@ == planned(config, program@, optional_str(target), env_vars(*extra_env)),
{
    let mut args: Vec<String> = Vec::new();
    args.push("-Z".to_owned());
    args.push("unstable-options".to_owned());
    args.push("--print".to_owned());
    args.push("target-spec-json".to_owned());
    if let Some(triple) = target {
        args.push("--target".to_owned());
        args.push(triple.to_owned());
    }
    let current_dir = match config {
        RustcDataLayoutConfig::Rustc(_) => None,
        RustcDataLayoutConfig::Cargo(_, manifest) => Some(manifest.parent().to_owned()),
    };
    let env = with_override(extra_env);
    assert(texts(args@) =~= arguments(optional_str(target)));
    Invocation { program, args, current_dir, env }
}

} // verus!
