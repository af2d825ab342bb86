//! Laws of the builder, stated over the models that the operations' contracts
//! use.

use vstd::prelude::*;

use crate::builder::{
    resolved_env, with_arg, with_args, with_override, CommandSpec, CommandView, ProcessBuilder,
};

verus! {

/// The configuration after a series of argument calls, each given by the
/// arguments it adds: `[a]` for `arg(a)`, `xs` for `args(xs)`.
pub open spec fn after_arg_calls(v: CommandView, calls: Seq<Seq<Seq<u8>>>) -> CommandView
    decreases calls.len(),
{
    if calls.len() == 0 {
        v
    } else {
        after_arg_calls(with_args(v, calls[0]), calls.drop_first())
    }
}

/// Adding one argument is adding a list that holds just that argument.
pub proof fn arg_is_args_of_one(v: CommandView, a: Seq<u8>)
    ensures
        with_arg(v, a) == with_args(v, seq![a]),
{
    assert(v.args.push(a) =~= v.args + seq![a]);
}

/// After any series of `arg` and `args` calls, the arguments are the earlier
/// ones followed by every added argument, in the order the calls added them;
/// nothing else changes.
pub proof fn args_accumulate_in_order(v: CommandView, calls: Seq<Seq<Seq<u8>>>)
    ensures
        after_arg_calls(v, calls).args == v.args + calls.flatten(),
        after_arg_calls(v, calls).program == v.program,
        after_arg_calls(v, calls).cwd == v.cwd,
        after_arg_calls(v, calls).env == v.env,
    decreases calls.len(),
{
    if calls.len() == 0 {
        assert(v.args + calls.flatten() =~= v.args);
    } else {
        args_accumulate_in_order(with_args(v, calls[0]), calls.drop_first());
        assert(v.args + calls[0] + calls.drop_first().flatten() =~= v.args + (calls[0]
            + calls.drop_first().flatten()));
    }
}

/// A variable set with `env` resolves to that value, whatever the ambient
/// environment holds for it.
pub proof fn set_variable_resolves_to_value(
    v: CommandView,
    key: Seq<char>,
    value: Seq<u8>,
    ambient: Option<Seq<u8>>,
)
    ensures
        resolved_env(with_override(v, key, Some(value)).env, key, ambient) == Some(value),
{
}

/// A variable removed with `env_remove` resolves to nothing, whatever the
/// ambient environment holds for it.
pub proof fn removed_variable_resolves_to_nothing(
    v: CommandView,
    key: Seq<char>,
    ambient: Option<Seq<u8>>,
)
    ensures
        resolved_env(with_override(v, key, None).env, key, ambient).is_none(),
{
}

/// A variable without an override resolves to the ambient value, and
/// overriding other variables leaves it so.
pub proof fn untouched_variable_resolves_to_ambient(
    v: CommandView,
    key: Seq<char>,
    other: Seq<char>,
    value: Option<Seq<u8>>,
    ambient: Option<Seq<u8>>,
)
    requires
        !v.env.contains_key(key),
        other != key,
    ensures
        resolved_env(v.env, key, ambient) == ambient,
        resolved_env(with_override(v, other, value).env, key, ambient) == ambient,
{
}

/// Of two overrides of one variable, only the later one is in effect.
pub proof fn last_override_wins(
    v: CommandView,
    key: Seq<char>,
    first: Option<Seq<u8>>,
    second: Option<Seq<u8>>,
)
    ensures
        with_override(with_override(v, key, first), key, second) == with_override(v, key, second),
{
    assert(v.env.insert(key, first).insert(key, second) =~= v.env.insert(key, second));
}

/// Two commands built from one builder, with no change in between, hold the
/// same program, arguments, working directory and overrides.
pub proof fn build_command_repeatable(b: ProcessBuilder, first: CommandSpec, second: CommandSpec)
    requires
        first@ == b@,
        second@ == b@,
    ensures
        first@ == second@,
        first.program@ == second.program@,
        first.cwd@ == second.cwd@,
{
}

} // verus!
