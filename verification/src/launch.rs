//! Launch planning: everything a spawn needs — executable name,
//! arguments and environment, all derived from the allocated port and
//! the database file — computed before any process is touched, so the
//! spawn itself is a single opaque step for the shell to perform.

use vstd::prelude::*;
use vstd::string::StringExecFns;

use crate::text::dec_digits;
use crate::text::u64_to_dec;

verus! {

/// One environment variable handed to the backend process.
pub struct EnvVar {
    pub name: String,
    pub value: String,
}

/// The full recipe for one launch attempt.
pub struct LaunchPlan {
    pub port: u16,
    pub program: String,
    pub args: Vec<String>,
    pub env: Vec<EnvVar>,
}

/// Builds the launch recipe for a backend bound to `port` storing its
/// data in `db_file`: the fixed executable name, a `--port` argument,
/// and the port, database and host environment variables.
pub fn plan_launch(port: u16, db_file: String) -> (plan: LaunchPlan)
    requires
        port != 0,
    ensures
        plan.port == port,
        plan.program@ == "pinup-backend"@,
        plan.args@.len() == 2,
        plan.args@[0]@ == "--port"@,
        plan.args@[1]@ == dec_digits(port as nat),
        plan.env@.len() == 3,
        plan.env@[0].name@ == "PINUP_PORT"@,
        plan.env@[0].value@ == dec_digits(port as nat),
        plan.env@[1].name@ == "PINUP_DB"@,
        plan.env@[1].value@ == db_file@,
        plan.env@[2].name@ == "PINUP_HOST"@,
        plan.env@[2].value@ == "127.0.0.1"@,
{
    let program = "pinup-backend".to_owned();
    let mut args: Vec<String> = Vec::new();
    args.push("--port".to_owned());
    args.push(u64_to_dec(port as u64));
    let mut env: Vec<EnvVar> = Vec::new();
    env.push(EnvVar { name: "PINUP_PORT".to_owned(), value: u64_to_dec(port as u64) });
    env.push(EnvVar { name: "PINUP_DB".to_owned(), value: db_file });
    env.push(EnvVar { name: "PINUP_HOST".to_owned(), value: "127.0.0.1".to_owned() });
    LaunchPlan { port, program, args, env }
}

/// Why a spawn failed: the executable could not be located, or the
/// operating system refused to start it.
pub enum SpawnErrorKind {
    MissingBinary,
    SpawnRefused,
}

/// The message a failed spawn reports, with the underlying detail.
pub open spec fn spawn_error_chars(kind: SpawnErrorKind, detail: Seq<char>) -> Seq<char> {
    match kind {
        SpawnErrorKind::MissingBinary => "Sidecar binary not found: "@ + detail,
        SpawnErrorKind::SpawnRefused => "Failed to spawn sidecar: "@ + detail,
    }
}

/// Builds the error message for a failed spawn.
pub fn spawn_error_message(kind: SpawnErrorKind, detail: &str) -> (s: String)
    ensures
        s@ == spawn_error_chars(kind, detail@),
{
    match kind {
        SpawnErrorKind::MissingBinary => "Sidecar binary not found: ".to_owned().concat(detail),
        SpawnErrorKind::SpawnRefused => "Failed to spawn sidecar: ".to_owned().concat(detail),
    }
}

} // verus!
