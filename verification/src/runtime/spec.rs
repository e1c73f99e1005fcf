//! The parts of an OCI runtime spec (a bundle's `config.json`) that the runtime reads.
use vstd::prelude::*;
use vstd::string::*;
use crate::text::{
    lemma_split_at_first, lemma_split_once, path_join, spec_path_join, split_once, spec_split_once,
};

verus! {

/// A bundle's runtime spec.
#[derive(Debug)]
pub struct RuntimeSpec {
    pub oci_version: String,
    pub root: Root,
    pub process: Process,
    pub hostname: Option<String>,
}

/// The process that a container runs.
#[derive(Debug)]
pub struct Process {
    pub terminal: bool,
    pub console_size: ConsoleSize,
    pub cwd: Option<String>,
    pub env: Vec<String>,
    pub args: Vec<String>,
}

/// The size of the container's console.
#[derive(Debug)]
pub struct ConsoleSize {
    pub height: u32,
    pub width: u32,
}

/// The container's root filesystem.
#[derive(Debug)]
pub struct Root {
    pub path: String,
    pub readonly: bool,
}

impl Default for ConsoleSize {
    /// No size: both dimensions zero.
    fn default() -> (r: Self)
        ensures
            r.height == 0,
            r.width == 0,
    {
        ConsoleSize { height: 0, width: 0 }
    }
}

impl Default for Process {
    /// No terminal, no console size, no working directory, no environment, no arguments.
    fn default() -> (r: Self)
        ensures
            !r.terminal,
            r.console_size.height == 0,
            r.console_size.width == 0,
            r.cwd is None,
            r.env@.len() == 0,
            r.args@.len() == 0,
    {
        Process {
            terminal: false,
            console_size: ConsoleSize::default(),
            cwd: None,
            env: Vec::new(),
            args: Vec::new(),
        }
    }
}

/// The mathematical model of a runtime spec.
pub struct SpecView {
    pub oci_version: Seq<char>,
    pub root_path: Seq<char>,
    pub readonly: bool,
    pub terminal: bool,
    pub console_height: u32,
    pub console_width: u32,
    pub cwd: Option<Seq<char>>,
    pub env: Seq<Seq<char>>,
    pub args: Seq<Seq<char>>,
    pub hostname: Option<Seq<char>>,
}

/// The model of an optional string.
pub open spec fn opt_string_view(o: Option<String>) -> Option<Seq<char>> {
    match o {
        Some(s) => Some(s@),
        None => None,
    }
}

impl View for RuntimeSpec {
    type V = SpecView;

    open spec fn view(&self) -> SpecView {
        SpecView {
            oci_version: self.oci_version@,
            root_path: self.root.path@,
            readonly: self.root.readonly,
            terminal: self.process.terminal,
            console_height: self.process.console_size.height,
            console_width: self.process.console_size.width,
            cwd: opt_string_view(self.process.cwd),
            env: self.process.env.deep_view(),
            args: self.process.args.deep_view(),
            hostname: opt_string_view(self.hostname),
        }
    }
}

/// What the container's first process is started with.
#[derive(Debug)]
pub struct LaunchPlan {
    /// The hostname to set in the container's UTS namespace, if any.
    pub hostname: Option<String>,
    /// The directory that becomes the container's root.
    pub rootfs: String,
    /// The working directory of the process, if any.
    pub cwd: Option<String>,
    /// The environment variables to set, as name and value.
    pub env: Vec<(String, String)>,
    /// The program to run, if the spec names one.
    pub program: Option<String>,
    /// The arguments after the program.
    pub args: Vec<String>,
}

/// The mathematical model of a launch plan.
pub struct PlanView {
    pub hostname: Option<Seq<char>>,
    pub rootfs: Seq<char>,
    pub cwd: Option<Seq<char>>,
    pub env: Seq<(Seq<char>, Seq<char>)>,
    pub program: Option<Seq<char>>,
    pub args: Seq<Seq<char>>,
}

impl View for LaunchPlan {
    type V = PlanView;

    open spec fn view(&self) -> PlanView {
        PlanView {
            hostname: opt_string_view(self.hostname),
            rootfs: self.rootfs@,
            cwd: opt_string_view(self.cwd),
            env: self.env.deep_view(),
            program: opt_string_view(self.program),
            args: self.args.deep_view(),
        }
    }
}

/// The environment entries `NAME=value` as name and value, split at the first
/// `=`, in order; an entry without `=` sets nothing.
pub open spec fn env_pairs(env: Seq<Seq<char>>) -> Seq<(Seq<char>, Seq<char>)>
    decreases env.len(),
{
    if env.len() == 0 {
        Seq::empty()
    } else {
        let rest = env_pairs(env.drop_last());
        match spec_split_once(env.last(), '=') {
            Some(pair) => rest.push(pair),
            None => rest,
        }
    }
}

/// The entry `NAME=value` that sets `name` to `value`.
pub open spec fn env_entry(pair: (Seq<char>, Seq<char>)) -> Seq<char> {
    pair.0 + seq!['='] + pair.1
}

/// Whether an environment entry sets a variable: it holds an `=`.
pub open spec fn sets_variable(entry: Seq<char>) -> bool {
    entry.contains('=')
}

/// Each entry that holds `=` gives one name and value, in order; put back
/// together they are that entry, and the name holds no `=`.
pub proof fn lemma_env_pairs(env: Seq<Seq<char>>)
    ensures
        env_pairs(env).map_values(|p: (Seq<char>, Seq<char>)| env_entry(p)) == env.filter(
            |e: Seq<char>| sets_variable(e),
        ),
        forall|i: int|
            0 <= i < env_pairs(env).len() ==> !(#[trigger] env_pairs(env)[i]).0.contains('='),
    decreases env.len(),
{
    reveal(Seq::filter);
    let f = |p: (Seq<char>, Seq<char>)| env_entry(p);
    let pred = |e: Seq<char>| sets_variable(e);
    if env.len() == 0 {
        assert(env_pairs(env).map_values(f) =~= env.filter(pred));
    } else {
        lemma_env_pairs(env.drop_last());
        lemma_split_once(env.last(), '=');
        let rest = env_pairs(env.drop_last());
        match spec_split_once(env.last(), '=') {
            Some(pair) => {
                assert(rest.push(pair).map_values(f) =~= rest.map_values(f).push(f(pair)));
                assert(f(pair) == env.last());
                assert forall|i: int|
                    0 <= i < env_pairs(env).len() implies !(#[trigger] env_pairs(
                    env,
                )[i]).0.contains('=') by {
                    if i < rest.len() {
                        assert(env_pairs(env)[i] == rest[i]);
                    }
                }
            },
            None => {},
        }
    }
}

/// An environment made of the entries that `pairs` stand for gives back
/// `pairs`, where no name holds `=`.
pub proof fn lemma_env_pairs_of_entries(pairs: Seq<(Seq<char>, Seq<char>)>)
    requires
        forall|i: int| 0 <= i < pairs.len() ==> !(#[trigger] pairs[i]).0.contains('='),
    ensures
        env_pairs(pairs.map_values(|p: (Seq<char>, Seq<char>)| env_entry(p))) == pairs,
    decreases pairs.len(),
{
    let f = |p: (Seq<char>, Seq<char>)| env_entry(p);
    let env = pairs.map_values(f);
    if pairs.len() == 0 {
        assert(env_pairs(env) =~= pairs);
    } else {
        let init = pairs.drop_last();
        assert(env.drop_last() =~= init.map_values(f));
        assert forall|i: int| 0 <= i < init.len() implies !(#[trigger] init[i]).0.contains('=') by {
            assert(init[i] == pairs[i]);
        }
        lemma_env_pairs_of_entries(init);
        let last = pairs.last();
        assert(env.last() == last.0 + seq!['='] + last.1);
        lemma_split_at_first(last.0, '=', last.1);
        assert(env_pairs(env) =~= pairs);
    }
}

/// How the process of a container with the bundle in `bundle` is started:
/// the spec's hostname, working directory and arguments, its root path taken
/// from the bundle, and its environment split into names and values.
pub open spec fn launch_plan(bundle: Seq<char>, s: SpecView) -> PlanView {
    PlanView {
        hostname: s.hostname,
        rootfs: spec_path_join(bundle, s.root_path),
        cwd: s.cwd,
        env: env_pairs(s.env),
        program: if s.args.len() > 0 {
            Some(s.args[0])
        } else {
            None
        },
        args: if s.args.len() > 0 {
            s.args.skip(1)
        } else {
            Seq::empty()
        },
    }
}

/// The plan runs the process that the spec names: its first argument is the
/// program and the others follow it; a spec with no arguments names no
/// program. Hostname and working directory are the spec's; the root is the
/// spec's root path, absolute as it stands, else under the bundle; and each
/// environment entry that holds `=` sets, in order, the variable named before
/// its first `=` to what follows it.
pub proof fn lemma_launch_plan_runs_spec_process(bundle: Seq<char>, s: SpecView)
    ensures
        ({
            let p = launch_plan(bundle, s);
            &&& p.hostname == s.hostname
            &&& p.cwd == s.cwd
            &&& s.args.len() > 0 ==> p.program == Some(s.args[0]) && seq![s.args[0]] + p.args
                == s.args
            &&& s.args.len() == 0 ==> p.program is None && p.args.len() == 0
            &&& s.root_path.len() > 0 && s.root_path[0] == '/' ==> p.rootfs == s.root_path
            &&& !(s.root_path.len() > 0 && s.root_path[0] == '/') && bundle.len() > 0
                && bundle.last() != '/' ==> p.rootfs == bundle + seq!['/'] + s.root_path
            &&& !(s.root_path.len() > 0 && s.root_path[0] == '/') && (bundle.len() == 0
                || bundle.last() == '/') ==> p.rootfs == bundle + s.root_path
            &&& p.env.map_values(|q: (Seq<char>, Seq<char>)| env_entry(q)) == s.env.filter(
                |e: Seq<char>| sets_variable(e),
            )
            &&& forall|i: int| 0 <= i < p.env.len() ==> !(#[trigger] p.env[i]).0.contains('=')
        }),
{
    lemma_env_pairs(s.env);
    if s.args.len() > 0 {
        assert(seq![s.args[0]] + s.args.skip(1) =~= s.args);
    }
}

fn clone_opt(o: &Option<String>) -> (r: Option<String>)
    ensures
        opt_string_view(r) == opt_string_view(*o),
{
    match o {
        Some(s) => Some(s.clone()),
        None => None,
    }
}

/// The environment entries split into names and values.
pub fn split_env(env: &Vec<String>) -> (r: Vec<(String, String)>)
    ensures
        r.deep_view() == env_pairs(env.deep_view()),
{
    let ghost e = env.deep_view();
    let mut r: Vec<(String, String)> = Vec::new();
    let mut i: usize = 0;
    while i < env.len()
        invariant
            i <= env.len(),
            e == env.deep_view(),
            r.deep_view() == env_pairs(e.take(i as int)),
        decreases env.len() - i,
    {
        assert(e.take(i + 1).drop_last() =~= e.take(i as int));
        assert(e.take(i + 1).last() == env[i as int]@);
        let ghost before = r.deep_view();
        match split_once(env[i].as_str(), '=') {
            Some((name, value)) => {
                r.push((String::from_str(name), String::from_str(value)));
                assert(r.deep_view() =~= before.push((name@, value@)));
            },
            None => {},
        }
        i += 1;
    }
    assert(e.take(env.len() as int) =~= e);
    r
}

impl LaunchPlan {
    /// The plan for the container whose bundle is in `bundle` and whose spec is `spec`.
    pub fn from_spec(bundle: &str, spec: &RuntimeSpec) -> (r: LaunchPlan)
        ensures
            r@ == launch_plan(bundle@, spec@),
            spec@.args.len() > 0 ==> r@.program == Some(spec@.args[0]) && r@.args
                == spec@.args.skip(1),
            spec@.args.len() == 0 ==> r@.program is None && r@.args.len() == 0,
            r@.hostname == spec@.hostname,
            r@.cwd == spec@.cwd,
            r@.rootfs == spec_path_join(bundle@, spec@.root_path),
    {
        let argv = &spec.process.args;
        let ghost a = argv.deep_view();
        let mut args: Vec<String> = Vec::new();
        let program = if argv.len() > 0 {
            let mut i: usize = 1;
            while i < argv.len()
                invariant
                    1 <= i <= argv.len(),
                    a == argv.deep_view(),
                    args.deep_view() =~= a.subrange(1, i as int),
                decreases argv.len() - i,
            {
                let ghost before = args.deep_view();
                let x = argv[i].clone();
                assert(a[i as int] == x@);
                args.push(x);
                assert(args.deep_view() =~= before.push(x@));
                assert(a.subrange(1, i + 1) =~= a.subrange(1, i as int).push(a[i as int]));
                i += 1;
            }
            assert(args.deep_view() =~= a.skip(1));
            Some(argv[0].clone())
        } else {
            assert(args.deep_view() =~= Seq::<Seq<char>>::empty());
            None
        };
        LaunchPlan {
            hostname: clone_opt(&spec.hostname),
            rootfs: path_join(bundle, spec.root.path.as_str()),
            cwd: clone_opt(&spec.process.cwd),
            env: split_env(&spec.process.env),
            program,
            args,
        }
    }
}

} // verus!
