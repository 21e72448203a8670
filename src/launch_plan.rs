//! The two ways of starting the backend: the packaged executable, and the
//! development fallback that runs the interpreter on the entry point.

use vstd::prelude::*;

verus! {

pub struct CommandPlan {
    /// For the packaged way, the sidecar's name; otherwise a program path.
    pub program: String,
    pub args: Vec<String>,
    pub current_dir: Option<String>,
    pub env: Vec<(String, String)>,
}

/// The environment that makes the child's output UTF-8.
pub open spec fn utf8_env(env: Seq<(String, String)>) -> bool {
    env.len() == 2 && env[0].0@ == "PYTHONIOENCODING"@ && env[0].1@ == "utf-8"@
        && env[1].0@ == "PYTHONUTF8"@ && env[1].1@ == "1"@
}

/// The directory the backend runs in, relative to the host's working directory.
pub fn backend_dir() -> (r: String)
    ensures
        r@ == "../../backend"@,
{
    String::from_str("../../backend")
}

fn encoding_env() -> (r: Vec<(String, String)>)
    ensures
        utf8_env(r@),
{
    let mut env: Vec<(String, String)> = Vec::new();
    env.push((String::from_str("PYTHONIOENCODING"), String::from_str("utf-8")));
    env.push((String::from_str("PYTHONUTF8"), String::from_str("1")));
    env
}

/// The packaged executable: no arguments, only the encoding environment.
pub fn sidecar_plan() -> (r: CommandPlan)
    ensures
        r.program@ == "plattera-backend"@,
        r.args@.len() == 0,
        r.current_dir.is_none(),
        utf8_env(r.env@),
{
    CommandPlan {
        program: String::from_str("plattera-backend"),
        args: Vec::new(),
        current_dir: None,
        env: encoding_env(),
    }
}

/// The development fallback: the interpreter in UTF-8 mode on the entry
/// point, run in the backend directory.
pub fn fallback_plan() -> (r: CommandPlan)
    ensures
        r.program@ == "../../.venv/Scripts/python.exe"@,
        r.args@.len() == 3,
        r.args@[0]@ == "-X"@,
        r.args@[1]@ == "utf8"@,
        r.args@[2]@ == "main.py"@,
        r.current_dir.is_some() && r.current_dir.unwrap()@ == "../../backend"@,
        utf8_env(r.env@),
{
    let mut args: Vec<String> = Vec::new();
    args.push(String::from_str("-X"));
    args.push(String::from_str("utf8"));
    args.push(String::from_str("main.py"));
    CommandPlan {
        program: String::from_str("../../.venv/Scripts/python.exe"),
        args,
        current_dir: Some(backend_dir()),
        env: encoding_env(),
    }
}

#[derive(Clone, Copy, Debug, PartialEq, Eq, Structural)]
pub enum OutputStream {
    Stdout,
    Stderr,
}

#[derive(Clone, Copy, Debug, PartialEq, Eq, Structural)]
pub enum LogLevel {
    Info,
    Error,
}

/// The child's standard output is logged as information, its error output as errors.
pub fn output_log_level(stream: OutputStream) -> (r: LogLevel)
    ensures
        r == (match stream {
            OutputStream::Stdout => LogLevel::Info,
            OutputStream::Stderr => LogLevel::Error,
        }),
{
    match stream {
        OutputStream::Stdout => LogLevel::Info,
        OutputStream::Stderr => LogLevel::Error,
    }
}

} // verus!
