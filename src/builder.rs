//! The process builder: configuration of one prospective child process, and
//! its materialization into an inert command descriptor.

use vstd::prelude::*;

use crate::overrides::{
    copy_value, find_key, keys_unique, lemma_map_at_entry, overrides_map, set_override,
    value_view, EnvEntry,
};
use crate::text::{command_text, quoted, render};

verus! {

/// What a builder or a command descriptor holds: the program, its arguments in
/// order, the working directory, and the environment overrides by name.
pub struct CommandView {
    pub program: Seq<u8>,
    pub args: Seq<Seq<u8>>,
    pub cwd: Seq<u8>,
    pub env: Map<Seq<char>, Option<Seq<u8>>>,
}

/// The model of a list of arguments.
pub open spec fn args_view(args: Seq<Vec<u8>>) -> Seq<Seq<u8>> {
    args.map_values(|a: Vec<u8>| a@)
}

/// `v` with `arg` appended to its arguments.
pub open spec fn with_arg(v: CommandView, arg: Seq<u8>) -> CommandView {
    CommandView { args: v.args.push(arg), ..v }
}

/// `v` with each of `more` appended to its arguments, in order.
pub open spec fn with_args(v: CommandView, more: Seq<Seq<u8>>) -> CommandView {
    CommandView { args: v.args + more, ..v }
}

/// `v` with the working directory replaced by `cwd`.
pub open spec fn with_cwd(v: CommandView, cwd: Seq<u8>) -> CommandView {
    CommandView { cwd, ..v }
}

/// `v` with `value` recorded as the override of `key`.
pub open spec fn with_override(v: CommandView, key: Seq<char>, value: Option<Seq<u8>>) -> CommandView {
    CommandView { env: v.env.insert(key, value), ..v }
}

/// The value a child sees for `key`: the override where there is one (none
/// for a removal), else the ambient value.
pub open spec fn resolved_env(
    env: Map<Seq<char>, Option<Seq<u8>>>,
    key: Seq<char>,
    ambient: Option<Seq<u8>>,
) -> Option<Seq<u8>> {
    if env.contains_key(key) {
        env[key]
    } else {
        ambient
    }
}

/// The builder's error messages and display use this rendering.
pub open spec fn display_text(v: CommandView) -> Seq<char> {
    quoted(command_text(v.program, v.args))
}

/// A command ready to run: the configuration of a builder at the moment it was
/// materialized. Running it sets the program and working directory, passes the
/// arguments in order, and applies each entry of `envs`, setting the variable
/// to `Some` value or removing it on `None`.
pub struct CommandSpec {
    pub program: Vec<u8>,
    pub cwd: Vec<u8>,
    pub args: Vec<Vec<u8>>,
    pub envs: Vec<EnvEntry>,
}

impl View for CommandSpec {
    type V = CommandView;

    open spec fn view(&self) -> CommandView {
        CommandView {
            program: self.program@,
            args: args_view(self.args@),
            cwd: self.cwd@,
            env: overrides_map(self.envs@),
        }
    }
}

/// Configuration for one child process: program, arguments, working
/// directory, and environment overrides on top of the ambient environment.
pub struct ProcessBuilder {
    program: Vec<u8>,
    args: Vec<Vec<u8>>,
    env: Vec<EnvEntry>,
    cwd: Vec<u8>,
}

impl View for ProcessBuilder {
    type V = CommandView;

    closed spec fn view(&self) -> CommandView {
        CommandView {
            program: self.program@,
            args: args_view(self.args@),
            cwd: self.cwd@,
            env: overrides_map(self.env@),
        }
    }
}

/// Copies a list of byte strings.
fn copy_args(args: &[Vec<u8>]) -> (r: Vec<Vec<u8>>)
    ensures
        args_view(r@) == args_view(args@),
{
    let mut out: Vec<Vec<u8>> = Vec::new();
    let mut i: usize = 0;
    while i < args.len()
        invariant
            i <= args@.len(),
            out@.len() == i,
            forall|j: int| 0 <= j < i ==> (#[trigger] out@[j])@ == args@[j]@,
        decreases args.len() - i,
    {
        let item = vstd::slice::slice_to_vec(args[i].as_slice());
        out.push(item);
        i += 1;
    }
    proof {
        assert(args_view(out@) =~= args_view(args@));
    }
    out
}

/// Copies a list of overrides, entry for entry.
fn copy_entries(entries: &Vec<EnvEntry>) -> (r: Vec<EnvEntry>)
    requires
        keys_unique(entries@),
    ensures
        keys_unique(r@),
        overrides_map(r@) == overrides_map(entries@),
{
    let mut out: Vec<EnvEntry> = Vec::new();
    let mut i: usize = 0;
    while i < entries.len()
        invariant
            i <= entries@.len(),
            out@.len() == i,
            forall|j: int|
                0 <= j < i ==> (#[trigger] out@[j]).0@ == entries@[j].0@ && value_view(out@[j].1)
                    == value_view(entries@[j].1),
        decreases entries.len() - i,
    {
        let name = entries[i].0.clone();
        let value = copy_value(&entries[i].1);
        out.push((name, value));
        i += 1;
    }
    proof {
        assert forall|a: int, b: int| 0 <= a < b < out@.len() implies
            #[trigger] out@[a].0@ != #[trigger] out@[b].0@ by {
            assert(entries@[a].0@ != entries@[b].0@);
        }
        assert forall|k: Seq<char>|
            #[trigger] overrides_map(out@).contains_key(k) == overrides_map(entries@).contains_key(k) by {
            if overrides_map(out@).contains_key(k) {
                let j = choose|j: int| 0 <= j < out@.len() && #[trigger] out@[j].0@ == k;
                assert(entries@[j].0@ == k);
            }
            if overrides_map(entries@).contains_key(k) {
                let j = choose|j: int| 0 <= j < entries@.len() && #[trigger] entries@[j].0@ == k;
                assert(out@[j].0@ == k);
            }
        }
        assert forall|k: Seq<char>| #[trigger] overrides_map(out@).contains_key(k) implies
            overrides_map(out@)[k] == overrides_map(entries@)[k] by {
            let j = choose|j: int| 0 <= j < out@.len() && #[trigger] out@[j].0@ == k;
            lemma_map_at_entry(out@, j);
            lemma_map_at_entry(entries@, j);
        }
        assert(overrides_map(out@) =~= overrides_map(entries@));
    }
    out
}

/// A builder for `cmd`, to run in `cwd`, with no arguments and no overrides.
pub fn process(cmd: &[u8], cwd: &[u8]) -> (r: ProcessBuilder)
    ensures
        r.wf(),
        r@ == (CommandView {
            program: cmd@,
            args: Seq::empty(),
            cwd: cwd@,
            env: Map::empty(),
        }),
{
    let r = ProcessBuilder {
        program: vstd::slice::slice_to_vec(cmd),
        args: Vec::new(),
        env: Vec::new(),
        cwd: vstd::slice::slice_to_vec(cwd),
    };
    proof {
        assert(args_view(r.args@) =~= Seq::<Seq<u8>>::empty());
        assert(overrides_map(r.env@) =~= Map::<Seq<char>, Option<Seq<u8>>>::empty());
    }
    r
}

impl ProcessBuilder {
    /// The overrides name each variable at most once.
    pub closed spec fn wf(&self) -> bool {
        keys_unique(self.env@)
    }

    /// Appends `arg` to the arguments.
    pub fn arg(&mut self, arg: &[u8]) -> (r: &mut ProcessBuilder)
        requires
            old(self).wf(),
        ensures
            r.wf(),
            *final(self) == *final(r),
            r@ == with_arg(old(self)@, arg@),
    {
        self.args.push(vstd::slice::slice_to_vec(arg));
        proof {
            assert(args_view(self.args@) =~= args_view(old(self).args@).push(arg@));
        }
        self
    }

    /// Appends each of `arguments` to the arguments, in order.
    pub fn args(&mut self, arguments: &[Vec<u8>]) -> (r: &mut ProcessBuilder)
        requires
            old(self).wf(),
        ensures
            r.wf(),
            *final(self) == *final(r),
            r@ == with_args(old(self)@, args_view(arguments@)),
    {
        let mut more = copy_args(arguments);
        self.args.append(&mut more);
        proof {
            assert(args_view(self.args@) =~= args_view(old(self).args@) + args_view(arguments@));
        }
        self
    }

    /// Replaces the working directory.
    pub fn cwd(&mut self, path: &[u8]) -> (r: &mut ProcessBuilder)
        requires
            old(self).wf(),
        ensures
            r.wf(),
            *final(self) == *final(r),
            r@ == with_cwd(old(self)@, path@),
    {
        self.cwd = vstd::slice::slice_to_vec(path);
        self
    }

    /// Forces `key` to `val` in the child's environment.
    pub fn env(&mut self, key: &str, val: &[u8]) -> (r: &mut ProcessBuilder)
        requires
            old(self).wf(),
        ensures
            r.wf(),
            *final(self) == *final(r),
            r@ == with_override(old(self)@, key@, Some(val@)),
    {
        set_override(&mut self.env, key, Some(vstd::slice::slice_to_vec(val)));
        self
    }

    /// Forces `key` out of the child's environment.
    pub fn env_remove(&mut self, key: &str) -> (r: &mut ProcessBuilder)
        requires
            old(self).wf(),
        ensures
            r.wf(),
            *final(self) == *final(r),
            r@ == with_override(old(self)@, key@, None),
    {
        set_override(&mut self.env, key, None);
        self
    }

    /// The arguments, in the order they were added.
    pub fn get_args(&self) -> (r: &[Vec<u8>])
        ensures
            args_view(r@) == self@.args,
    {
        self.args.as_slice()
    }

    /// The working directory.
    pub fn get_cwd(&self) -> (r: &[u8])
        ensures
            r@ == self@.cwd,
    {
        self.cwd.as_slice()
    }

    /// The value the child would see for `var`, where `ambient` is what the
    /// current environment holds for it.
    pub fn get_env(&self, var: &str, ambient: Option<Vec<u8>>) -> (r: Option<Vec<u8>>)
        requires
            self.wf(),
        ensures
            value_view(r) == resolved_env(self@.env, var@, value_view(ambient)),
    {
        match find_key(&self.env, var) {
            Some(i) => {
                proof {
                    lemma_map_at_entry(self.env@, i as int);
                }
                copy_value(&self.env[i].1)
            },
            None => ambient,
        }
    }

    /// The overrides themselves, not the resolved environment.
    pub fn get_envs(&self) -> (r: &Vec<EnvEntry>)
        requires
            self.wf(),
        ensures
            keys_unique(r@),
            overrides_map(r@) == self@.env,
    {
        &self.env
    }

    /// Materializes the configuration into a command descriptor; the builder
    /// is left as it was.
    pub fn build_command(&self) -> (r: CommandSpec)
        requires
            self.wf(),
        ensures
            keys_unique(r.envs@),
            r@ == self@,
    {
        CommandSpec {
            program: vstd::slice::slice_to_vec(self.program.as_slice()),
            cwd: vstd::slice::slice_to_vec(self.cwd.as_slice()),
            args: copy_args(self.args.as_slice()),
            envs: copy_entries(&self.env),
        }
    }

    /// The program and its arguments, space separated.
    pub(crate) fn debug_string(&self) -> (r: String)
        ensures
            r@ == command_text(self@.program, self@.args),
    {
        render(&self.program, &self.args)
    }

    /// The program and its arguments between backticks, as diagnostics show
    /// the command.
    pub fn to_string(&self) -> (r: String)
        ensures
            r@ == display_text(self@),
    {
        let mut out = String::from_str("`");
        let inner = self.debug_string();
        out.append(inner.as_str());
        out.append("`");
        out
    }
}

} // verus!
