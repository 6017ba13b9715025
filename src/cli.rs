use vstd::prelude::*;
use crate::debugger::DebugConfig;

verus! {

/// Driver options from the command line.
#[derive(Debug)]
pub struct CliOptions {
    /// The one positional argument: a program image or a configuration file.
    pub path: String,
    pub itrace: bool,
    pub mtrace: bool,
    pub regtrace: bool,
    pub single_step: bool,
}

impl CliOptions {
    /// The tracer settings with these switches applied: a `--no-...` flag
    /// turns its trace off, `--step` turns single-stepping on.
    pub fn apply(&self, base: DebugConfig) -> (r: DebugConfig)
        ensures
            r.instruction_trace == (base.instruction_trace && self.itrace),
            r.memory_trace == (base.memory_trace && self.mtrace),
            r.register_trace == (base.register_trace && self.regtrace),
            r.single_step == (base.single_step || self.single_step),
            r.trace_limit == base.trace_limit,
    {
        DebugConfig {
            instruction_trace: base.instruction_trace && self.itrace,
            memory_trace: base.memory_trace && self.mtrace,
            register_trace: base.register_trace && self.regtrace,
            single_step: base.single_step || self.single_step,
            trace_limit: base.trace_limit,
        }
    }
}

/// A command line the driver cannot run with.
#[derive(Debug, Clone, Copy, PartialEq, Eq, Structural)]
pub enum UsageError {
    MissingPath,
    ExtraArgument,
}

/// What the arguments seen so far select.
pub struct CliState {
    pub path: Option<Seq<char>>,
    pub extra: bool,
    pub itrace: bool,
    pub mtrace: bool,
    pub regtrace: bool,
    pub single_step: bool,
}

/// The arguments (without the program name), read left to right: the four
/// flags switch their setting in any order; any other argument is the path,
/// and a second such argument is one too many. Traces default to on,
/// single-step to off.
pub open spec fn parse_spec(args: Seq<Seq<char>>) -> CliState
    decreases args.len(),
{
    if args.len() == 0 {
        CliState {
            path: None,
            extra: false,
            itrace: true,
            mtrace: true,
            regtrace: true,
            single_step: false,
        }
    } else {
        let prev = parse_spec(args.drop_last());
        let a = args.last();
        if a == "--no-itrace"@ {
            CliState { itrace: false, ..prev }
        } else if a == "--no-mtrace"@ {
            CliState { mtrace: false, ..prev }
        } else if a == "--no-regtrace"@ {
            CliState { regtrace: false, ..prev }
        } else if a == "--step"@ {
            CliState { single_step: true, ..prev }
        } else if prev.path is Some {
            CliState { extra: true, ..prev }
        } else {
            CliState { path: Some(a), ..prev }
        }
    }
}

pub open spec fn views(args: Seq<String>) -> Seq<Seq<char>> {
    args.map_values(|s: String| s@)
}

/// Reads the driver's arguments (without the program name).
pub fn parse_args(args: &Vec<String>) -> (r: Result<CliOptions, UsageError>)
    ensures
        ({
            let st = parse_spec(views(args@));
            &&& st.path is None ==> r == Err::<CliOptions, UsageError>(UsageError::MissingPath)
            &&& st.path is Some && st.extra ==> r == Err::<CliOptions, UsageError>(
                UsageError::ExtraArgument,
            )
            &&& st.path is Some && !st.extra ==> r is Ok && r->Ok_0.path@ == st.path->Some_0
                && r->Ok_0.itrace == st.itrace && r->Ok_0.mtrace == st.mtrace && r->Ok_0.regtrace
                == st.regtrace && r->Ok_0.single_step == st.single_step
        }),
{
    let no_itrace = "--no-itrace".to_owned();
    let no_mtrace = "--no-mtrace".to_owned();
    let no_regtrace = "--no-regtrace".to_owned();
    let step = "--step".to_owned();
    let mut path: Option<String> = None;
    let mut extra = false;
    let mut itrace = true;
    let mut mtrace = true;
    let mut regtrace = true;
    let mut single_step = false;
    let mut i: usize = 0;
    while i < args.len()
        invariant
            i <= args@.len(),
            no_itrace@ == "--no-itrace"@,
            no_mtrace@ == "--no-mtrace"@,
            no_regtrace@ == "--no-regtrace"@,
            step@ == "--step"@,
            ({
                let st = parse_spec(views(args@).subrange(0, i as int));
                &&& st.itrace == itrace
                &&& st.mtrace == mtrace
                &&& st.regtrace == regtrace
                &&& st.single_step == single_step
                &&& st.extra == extra
                &&& st.path is None <==> path is None
                &&& path is Some ==> st.path->Some_0 == path->Some_0@
            }),
        decreases args@.len() - i,
    {
        let a = &args[i];
        proof {
            let s = views(args@).subrange(0, i + 1);
            assert(s.drop_last() =~= views(args@).subrange(0, i as int));
            assert(s.last() == a@);
        }
        if *a == no_itrace {
            itrace = false;
        } else if *a == no_mtrace {
            mtrace = false;
        } else if *a == no_regtrace {
            regtrace = false;
        } else if *a == step {
            single_step = true;
        } else if path.is_some() {
            extra = true;
        } else {
            path = Some(a.clone());
        }
        i = i + 1;
    }
    proof {
        assert(views(args@).subrange(0, args@.len() as int) =~= views(args@));
    }
    match path {
        None => Err(UsageError::MissingPath),
        Some(p) => if extra {
            Err(UsageError::ExtraArgument)
        } else {
            Ok(CliOptions { path: p, itrace, mtrace, regtrace, single_step })
        },
    }
}

} // verus!
