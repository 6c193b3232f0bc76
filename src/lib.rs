//! Core of a dedicated-server launcher: the console buffer that collects a
//! child process's output, the drain state machine that feeds it, the argument
//! lists handed to the server and to the installer tool, the uptime tracker and
//! the status flow of the installer steps.
use vstd::prelude::*;
use vstd::string::StringExecFns;

pub mod console;
pub mod drain;
pub mod config;
pub mod process;
pub mod lifecycle;
pub mod setup;

verus! {

/// The text of `a` followed by the text of `b`.
pub fn joined(a: &str, b: &str) -> (r: String)
    ensures
        r@ == a@ + b@,
{
    let mut r = String::from_str(a);
    r.append(b);
    r
}

} // verus!
