use vstd::prelude::*;

verus! {

/// Where the backend executable lives in each launch mode.
pub struct LaunchConfig {
    /// A locally built binary, used in development.
    pub dev_program: String,
    /// The bundled or installed binary, used in production.
    pub production_program: String,
}

/// The program and arguments that a start launches.
pub struct LaunchPlan {
    pub program: String,
    pub args: Vec<String>,
}

/// The program that a start in the given mode launches.
pub open spec fn program_for(
    dev_program: Seq<char>,
    production_program: Seq<char>,
    dev_mode: bool,
) -> Seq<char> {
    if dev_mode {
        dev_program
    } else {
        production_program
    }
}

/// The arguments that a start in the given mode passes: verbose logging in development.
pub open spec fn plan_args(dev_mode: bool) -> Seq<Seq<char>> {
    if dev_mode {
        seq!["--verbose"@]
    } else {
        Seq::empty()
    }
}

pub open spec fn text_seq(v: Seq<String>) -> Seq<Seq<char>> {
    v.map_values(|s: String| s@)
}

impl LaunchConfig {
    pub fn new(dev_program: String, production_program: String) -> (r: Self)
        ensures
            r.dev_program@ == dev_program@,
            r.production_program@ == production_program@,
    {
        LaunchConfig { dev_program, production_program }
    }
}

/// Chooses the executable and argument set for a launch mode.
pub fn select_launch(config: &LaunchConfig, dev_mode: bool) -> (r: LaunchPlan)
    ensures
        r.program@ == program_for(config.dev_program@, config.production_program@, dev_mode),
        text_seq(r.args@) == plan_args(dev_mode),
{
    if dev_mode {
        let mut args: Vec<String> = Vec::new();
        args.push("--verbose".to_owned());
        proof {
            assert(text_seq(args@) =~= plan_args(dev_mode));
        }
        LaunchPlan { program: config.dev_program.clone(), args }
    } else {
        let args: Vec<String> = Vec::new();
        proof {
            assert(text_seq(args@) =~= plan_args(dev_mode));
        }
        LaunchPlan { program: config.production_program.clone(), args }
    }
}

} // verus!
