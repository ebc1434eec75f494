//! The administrative actions and their textual names.
use vstd::prelude::*;

verus! {

/// An administrative command applied to the service.
#[derive(Debug, Clone, Copy, PartialEq, Eq, Structural)]
pub enum ControlAction {
    Install,
    Uninstall,
    Start,
    Stop,
    Restart,
}

/// The action that a command-line word names. Restart has no word: it is
/// reached only from code.
pub open spec fn action_named(s: Seq<char>) -> Option<ControlAction> {
    if s == "install"@ {
        Some(ControlAction::Install)
    } else if s == "uninstall"@ {
        Some(ControlAction::Uninstall)
    } else if s == "start"@ {
        Some(ControlAction::Start)
    } else if s == "stop"@ {
        Some(ControlAction::Stop)
    } else {
        None
    }
}

/// The message for a word that names no action.
pub open spec fn invalid_action_message(s: Seq<char>) -> Seq<char> {
    "invalid option "@ + s + " for ControlAction"@
}

/// Compares two strings character by character.
fn str_equals(a: &str, b: &str) -> (r: bool)
    ensures
        r == (a@ == b@),
{
    let n = a.unicode_len();
    if n != b.unicode_len() {
        return false;
    }
    let mut i: usize = 0;
    while i < n
        invariant
            n == a@.len(),
            n == b@.len(),
            i <= n,
            forall|j: int| 0 <= j < i ==> a@[j] == b@[j],
        decreases n - i,
    {
        if a.get_char(i) != b.get_char(i) {
            return false;
        }
        i = i + 1;
    }
    assert(a@ =~= b@);
    true
}

impl ControlAction {
    /// Reads an action from its command-line word.
    pub fn parse(s: &str) -> (r: Result<ControlAction, String>)
        ensures
            action_named(s@) matches Some(a) ==> r == Ok::<ControlAction, String>(a),
            action_named(s@) is None ==> (r matches Err(m) && m@ == invalid_action_message(s@)),
    {
        proof {
            reveal_strlit("install");
            reveal_strlit("uninstall");
            reveal_strlit("start");
            reveal_strlit("stop");
        }
        if str_equals(s, "install") {
            Ok(ControlAction::Install)
        } else if str_equals(s, "uninstall") {
            Ok(ControlAction::Uninstall)
        } else if str_equals(s, "start") {
            Ok(ControlAction::Start)
        } else if str_equals(s, "stop") {
            Ok(ControlAction::Stop)
        } else {
            let mut m = String::from_str("invalid option ");
            m.append(s);
            m.append(" for ControlAction");
            Err(m)
        }
    }

    /// The action's name as shown to a user.
    pub fn name(&self) -> (r: &'static str)
        ensures
            r@ == action_display(*self),
    {
        match self {
            ControlAction::Install => "Install",
            ControlAction::Uninstall => "Uninstall",
            ControlAction::Start => "Start",
            ControlAction::Stop => "Stop",
            ControlAction::Restart => "Restart",
        }
    }
}

/// The name of each action as shown to a user.
pub open spec fn action_display(a: ControlAction) -> Seq<char> {
    match a {
        ControlAction::Install => "Install"@,
        ControlAction::Uninstall => "Uninstall"@,
        ControlAction::Start => "Start"@,
        ControlAction::Stop => "Stop"@,
        ControlAction::Restart => "Restart"@,
    }
}

impl std::str::FromStr for ControlAction {
    type Err = String;

    fn from_str(s: &str) -> (r: Result<ControlAction, String>)
        ensures
            action_named(s@) matches Some(a) ==> r == Ok::<ControlAction, String>(a),
            action_named(s@) is None ==> (r matches Err(m) && m@ == invalid_action_message(s@)),
    {
        ControlAction::parse(s)
    }
}

} // verus!
