//! The argument list of the motion-control daemon.
//!
//! The daemon is launched as the venv's own Python interpreter running the
//! daemon module; simulation mode adds the headless simulation switches.

use vstd::prelude::*;
use vstd::string::StringExecFns;

verus! {

/// Build the daemon's argument list. Simulation mode appends the simulation
/// and headless switches; the interpreter is always the venv's `python3`.
pub fn build_daemon_args(sim_mode: bool) -> (r: Result<Vec<String>, String>)
    ensures
        r matches Ok(args) && args@.len() == (if sim_mode {
            6int
        } else {
            4int
        }),
        r matches Ok(args) && args@[0]@ == ".venv/bin/python3"@,
        r matches Ok(args) && args@[1]@ == "-m"@,
        r matches Ok(args) && args@[2]@ == "reachy_mini.daemon.app.main"@,
        r matches Ok(args) && args@[3]@ == "--desktop-app-daemon"@,
        sim_mode ==> (r matches Ok(args) && args@[4]@ == "--sim"@ && args@[5]@ == "--headless"@),
{
    let mut args: Vec<String> = Vec::new();
    args.push(String::from_str(".venv/bin/python3"));
    args.push(String::from_str("-m"));
    args.push(String::from_str("reachy_mini.daemon.app.main"));
    args.push(String::from_str("--desktop-app-daemon"));
    if sim_mode {
        args.push(String::from_str("--sim"));
        args.push(String::from_str("--headless"));
    }
    Ok(args)
}

} // verus!
