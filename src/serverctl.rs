use vstd::prelude::*;

verus! {

/// The service unit that runs the game server.
pub const SYSTEMD_SERVICE: &'static str = "atm10.service";

/// The service operations the process supervisor is asked for.
#[derive(Clone, Copy, PartialEq, Eq, Structural)]
pub enum ServerAction {
    Start,
    Stop,
    Restart,
}

/// The supervisor's verb for each action.
pub open spec fn action_verb(a: ServerAction) -> Seq<char> {
    match a {
        ServerAction::Start => "start"@,
        ServerAction::Stop => "stop"@,
        ServerAction::Restart => "restart"@,
    }
}

impl ServerAction {
    /// The supervisor's verb for this action.
    pub fn verb(&self) -> (r: &'static str)
        ensures
            r@ == action_verb(*self),
    {
        match self {
            ServerAction::Start => "start",
            ServerAction::Stop => "stop",
            ServerAction::Restart => "restart",
        }
    }
}

/// The arguments of the supervisor call for an action on the server's unit,
/// in the user's service manager.
pub fn systemctl_args(action: ServerAction) -> (r: Vec<&'static str>)
    ensures
        r@.len() == 3,
        r@[0]@ == "--user"@,
        r@[1]@ == action_verb(action),
        r@[2]@ == SYSTEMD_SERVICE@,
{
    let mut r: Vec<&'static str> = Vec::new();
    r.push("--user");
    r.push(action.verb());
    r.push(SYSTEMD_SERVICE);
    r
}

/// The reply to a start request, given whether the supervisor succeeded.
pub fn start(succeeded: bool) -> (r: &'static str)
    ensures
        r@ == (if succeeded {
            "Server start requested."@
        } else {
            "Failed to start server."@
        }),
{
    if succeeded {
        "Server start requested."
    } else {
        "Failed to start server."
    }
}

/// The reply to a stop request, given whether the supervisor succeeded.
pub fn stop(succeeded: bool) -> (r: &'static str)
    ensures
        r@ == (if succeeded {
            "Server stop requested."@
        } else {
            "Failed to stop server."@
        }),
{
    if succeeded {
        "Server stop requested."
    } else {
        "Failed to stop server."
    }
}

/// The reply to a restart request, given whether the supervisor succeeded.
pub fn restart(succeeded: bool) -> (r: &'static str)
    ensures
        r@ == (if succeeded {
            "Server restart requested."@
        } else {
            "Failed to restart server."@
        }),
{
    if succeeded {
        "Server restart requested."
    } else {
        "Failed to restart server."
    }
}

/// The reply to a malformed request.
pub fn bad_request() -> (r: &'static str)
    ensures
        r@ == "400 Bad Request: The request was malformed or missing required data (e.g., file upload missing filename)."@,
{
    "400 Bad Request: The request was malformed or missing required data (e.g., file upload missing filename)."
}

} // verus!
