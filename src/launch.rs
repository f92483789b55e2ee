//! The launch descriptor handed back to the platform.
use vstd::prelude::*;

verus! {

/// How the platform starts the built function.
#[derive(Clone, Debug)]
pub struct LaunchDescriptor {
    pub process_type: String,
    /// A shell command line; `${PORT:-8080}` in it is resolved when the
    /// process starts, not during the build.
    pub command: String,
    pub args: Vec<String>,
    pub is_default: bool,
}

/// The command that serves the function in `unit_dir` with the runtime
/// artifact at `runtime_artifact`.
pub open spec fn launch_command(runtime_artifact: Seq<char>, unit_dir: Seq<char>) -> Seq<char> {
    "java -jar "@ + runtime_artifact + " serve "@ + unit_dir + " -p ${PORT:-8080}"@
}

/// Assembles the single default `web` process that serves the detected function.
pub fn assemble_launch(runtime_artifact: &str, unit_dir: &str) -> (r: LaunchDescriptor)
    ensures
        r.process_type@ == "web"@,
        r.command@ == launch_command(runtime_artifact@, unit_dir@),
        r.args@.len() == 0,
        r.is_default,
{
    let command = String::from_str("java -jar ").concat(runtime_artifact).concat(" serve ").concat(
        unit_dir,
    ).concat(" -p ${PORT:-8080}");
    LaunchDescriptor {
        process_type: String::from_str("web"),
        command,
        args: Vec::new(),
        is_default: true,
    }
}

} // verus!
