use vstd::prelude::*;

verus! {

/// The responder script up to the first use of the socket sender.
pub const RESPONDER_HEAD: &'static str = "#!/bin/sh\n        \n    type=$1\n    session_name=$2\n        \n    if [[ $1 == \"attach\" ]]; then\n        path=$3\n        language=$(echo $path | cut -d'/' -f5)\n        repo=$(git --git-dir=$path/.git config --get remote.origin.url | cut -d':' -f2)\n\n        hx_window=$(tmux list-windows -t $session_name -F '#{window_index} #{window_name}' | grep hx | cut -d' ' -f1)\n        echo $session_name:$language:$file_name:$repo | ";

/// The responder script between the two uses of the socket sender.
pub const RESPONDER_MID: &'static str = "\n        exit 0\n    else\n        echo $session_name | ";

/// The responder script after the second use of the socket sender.
pub const RESPONDER_TAIL: &'static str = "\n        exit 0\n    fi";

/// The command that sends to the daemon's socket with netcat (macOS).
pub const NETCAT_SENDER: &'static str = "nc -U /tmp/dev_rpc";

/// The command that sends to the daemon's socket with socat.
pub const SOCAT_SENDER: &'static str = "socat - UNIX-CONNECT:/tmp/dev_rpc";

/// The responder script the tmux hooks run: on attach it sends
/// `session:language:file:repo` to the daemon's socket, on detach the
/// session's name; `sender` is the command that writes to the socket.
pub open spec fn spec_responder(sender: Seq<char>) -> Seq<char> {
    RESPONDER_HEAD@ + sender + RESPONDER_MID@ + sender + RESPONDER_TAIL@
}

/// The responder script, sending with netcat when `netcat` holds (as on
/// macOS) and with socat otherwise.
pub fn startup(netcat: bool) -> (res: String)
    ensures
        res@ == spec_responder(if netcat { NETCAT_SENDER@ } else { SOCAT_SENDER@ }),
{
    let sender = if netcat {
        NETCAT_SENDER
    } else {
        SOCAT_SENDER
    };
    String::from_str(RESPONDER_HEAD).concat(sender).concat(RESPONDER_MID).concat(sender).concat(
        RESPONDER_TAIL,
    )
}

} // verus!
