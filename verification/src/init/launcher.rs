use vstd::prelude::*;
use crate::text::{replace, replace_str};

verus! {

/// The launcher script, with `{name}` standing for the program's name.
pub const LAUNCHER_TEMPLATE: &'static str = "#!/bin/sh\n    \n    program={name}\n    \n    if ! pgrep \"$program\" >/dev/null; then\n        \"$program\" > /tmp/{name}.stdout 2> /tmp/{name}.stderr & disown $!\n    fi";

/// The name of the program the launcher starts.
pub const PROGRAM_NAME: &'static str = "rise_code";

/// The placeholder for the program's name in the launcher script.
pub const NAME_PLACEHOLDER: &'static str = "{name}";

/// The launcher script that starts the program unless it runs already:
/// the template with every `{name}` replaced by the program's name (the
/// replacement is applied three times over).
pub open spec fn spec_launcher() -> Seq<char> {
    let r1 = replace(LAUNCHER_TEMPLATE@, NAME_PLACEHOLDER@, PROGRAM_NAME@);
    let r2 = replace(r1, NAME_PLACEHOLDER@, PROGRAM_NAME@);
    replace(r2, NAME_PLACEHOLDER@, PROGRAM_NAME@)
}

/// The launcher script (see `spec_launcher`).
pub fn startup() -> (res: String)
    ensures
        res@ == spec_launcher(),
{
    proof {
        reveal_strlit("{name}");
    }
    let r1 = replace_str(LAUNCHER_TEMPLATE, NAME_PLACEHOLDER, PROGRAM_NAME);
    let r2 = replace_str(r1.as_str(), NAME_PLACEHOLDER, PROGRAM_NAME);
    replace_str(r2.as_str(), NAME_PLACEHOLDER, PROGRAM_NAME)
}

} // verus!
