//! The environment of a toolchain invocation: the variables that the caller
//! adds to what the subprocess inherits, and the one that is always set.

use rustc_hash::FxHashMap;
use vstd::prelude::*;

verus! {

/// Declares `rustc_hash::FxHasher`, the hasher of an [`FxHashMap`]. Nothing
/// is said of it: it is only ever carried inside the map.
#[verifier::external_type_specification]
#[verifier::external_body]
pub struct ExFxHasher(rustc_hash::FxHasher);

/// Declares `BuildHasherDefault` of std, the hasher factory that an
/// [`FxHashMap`] is built with. Nothing is said of it either.
#[verifier::external_type_specification]
#[verifier::external_body]
#[verifier::reject_recursive_types(H)]
pub struct ExBuildHasherDefault<H>(core::hash::BuildHasherDefault<H>);

/// The variables that an environment map holds, each name with its value.
/// Two maps that hold the same variables are the same environment, in
/// whatever order they would be walked.
pub uninterp spec fn env_vars(env: FxHashMap<String, String>) -> Map<Seq<char>, Seq<char>>;

/// Calls `Clone::clone` on the map. Trusted, not proved: the copy holds the
/// same variables as the map it was made from.
#[verifier::external_body]
fn clone_env(env: &FxHashMap<String, String>) -> (copy: FxHashMap<String, String>)
    ensures
        env_vars(copy) == env_vars(*env),
{
    env.clone()
}

/// Calls `HashMap::insert` on the map. Trusted, not proved: afterwards
/// `name` is bound to `value`, whatever it was bound to before, and every
/// other variable is as it was. This rests on `rustc_hash::FxHasher` hashing
/// equal names alike, which it does: a hasher starts from zero and is changed
/// by nothing but the bytes written to it.
#[verifier::external_body]
fn set_var(env: &mut FxHashMap<String, String>, name: String, value: String)
    ensures
        env_vars(*final(env)) == env_vars(*old(env)).insert(name@, value@),
{
    env.insert(name, value);
}

/// The variable that lets a stable toolchain accept unstable options. Without
/// it the toolchain refuses to print a target description.
pub const BOOTSTRAP_VAR: &'static str = "RUSTC_BOOTSTRAP";

/// The value that [`BOOTSTRAP_VAR`] is set to.
pub const BOOTSTRAP_VALUE: &'static str = "1";

/// The variables set for the subprocess: those of `extra_env`, and the
/// bootstrap variable with its fixed value, which replaces one of that name
/// in `extra_env`.
pub open spec fn overlay(extra_env: Map<Seq<char>, Seq<char>>) -> Map<Seq<char>, Seq<char>> {
    extra_env.insert(BOOTSTRAP_VAR@, BOOTSTRAP_VALUE@)
}

/// The environment that the subprocess sees: what it inherits, with every
/// variable of `set` laid over it.
pub open spec fn subprocess_env(
    inherited: Map<Seq<char>, Seq<char>>,
    set: Map<Seq<char>, Seq<char>>,
) -> Map<Seq<char>, Seq<char>> {
    inherited.union_prefer_right(set)
}

/// A copy of `extra_env` with the bootstrap variable set.
pub fn with_override(extra_env: &FxHashMap<String, String>) -> (env: FxHashMap<String, String>)
    ensures
        env_vars(env) == overlay(env_vars(*extra_env)),
{
    let mut env = clone_env(extra_env);
    set_var(&mut env, BOOTSTRAP_VAR.to_owned(), BOOTSTRAP_VALUE.to_owned());
    env
}

} // verus!
