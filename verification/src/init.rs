//! First-run setup: the scripts the tmux hooks and the shell run, and the
//! lines they add to configuration files.

pub mod launcher;
pub mod responder;
pub mod walker;

use vstd::prelude::*;

verus! {

/// Where the setup keeps its scripts under the home directory `home`, and
/// the two scripts in it: the directory, the launcher and the responder.
pub fn install_paths(home: &str) -> (res: (String, String, String))
    ensures
        res.0@ == home@ + "/.cargo/rise_code"@,
        res.1@ == home@ + "/.cargo/rise_code"@ + "/launcher.sh"@,
        res.2@ == home@ + "/.cargo/rise_code"@ + "/responder.sh"@,
{
    let path = String::from_str(home).concat("/.cargo/rise_code");
    let launcher = path.clone().concat("/launcher.sh");
    let responder = path.clone().concat("/responder.sh");
    (path, launcher, responder)
}

} // verus!
