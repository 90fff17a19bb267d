use vstd::prelude::*;

verus! {

/// File name of the runnable server script.
pub const SERVER_SCRIPT: &'static str = "server.js";

/// Flag that makes the server speak the protocol over standard input and output.
pub const STDIO_FLAG: &'static str = "--stdio";

/// `name` placed inside directory `dir`: an empty `dir` yields `name`, and a
/// separator is inserted unless `dir` already ends with one.
pub open spec fn joined(dir: Seq<char>, name: Seq<char>) -> Seq<char> {
    if dir.len() == 0 {
        name
    } else if dir.last() == '/' {
        dir + name
    } else {
        dir + seq!['/'] + name
    }
}

/// Joins a directory and a relative name with a `/` separator.
pub fn join_path(dir: &str, name: &str) -> (r: String)
    ensures
        r@ == joined(dir@, name@),
{
    let n = dir.unicode_len();
    if n == 0 {
        return name.to_owned();
    }
    let mut r = dir.to_owned();
    if dir.get_char(n - 1) != '/' {
        r.append("/");
        proof {
            reveal_strlit("/");
        }
    }
    r.append(name);
    r
}

/// How the host starts the language server process.
pub struct LaunchCommand {
    /// Path of the executable.
    pub command: String,
    /// Arguments, in order.
    pub args: Vec<String>,
    /// Environment overrides, as name and value.
    pub env: Vec<(String, String)>,
}

impl LaunchCommand {
    /// The arguments as character sequences.
    pub open spec fn args_view(&self) -> Seq<Seq<char>> {
        self.args@.map_values(|a: String| a@)
    }

    /// The command runs `exe` with exactly the arguments `args` and no
    /// environment overrides.
    pub open spec fn runs(&self, exe: Seq<char>, args: Seq<Seq<char>>) -> bool {
        &&& self.command@ == exe
        &&& self.args_view() == args
        &&& self.env@.len() == 0
    }

    /// The command runs the interpreter `runtime` on the script `script` over
    /// standard input and output.
    pub open spec fn runs_script(&self, runtime: Seq<char>, script: Seq<char>) -> bool {
        self.runs(runtime, seq![script, STDIO_FLAG@])
    }

    /// Runs the interpreter `runtime` on the script at `script`, with the
    /// protocol flag.
    pub fn script(runtime: &str, script: &str) -> (r: LaunchCommand)
        ensures
            r.runs_script(runtime@, script@),
    {
        let mut args: Vec<String> = Vec::new();
        args.push(script.to_owned());
        args.push(STDIO_FLAG.to_owned());
        let r = LaunchCommand { command: runtime.to_owned(), args, env: Vec::new() };
        assert(r.args_view() =~= seq![script@, STDIO_FLAG@]);
        r
    }

    /// Runs the executable at `exe` directly, with no arguments.
    pub fn executable(exe: &str) -> (r: LaunchCommand)
        ensures
            r.runs(exe@, Seq::empty()),
    {
        let r = LaunchCommand { command: exe.to_owned(), args: Vec::new(), env: Vec::new() };
        assert(r.args_view() =~= Seq::<Seq<char>>::empty());
        r
    }
}

} // verus!
