use vstd::prelude::*;
use vstd::string::*;

verus! {

/// The name under which the service is registered.
pub const SERVICE_NAME: &'static str = "DeskHubService";

/// The argument that makes the executable run as the service.
pub const SERVICE_FLAG: &'static str = "-service";

/// The argument that makes the executable run as the desktop program.
pub const DESKTOP_FLAG: &'static str = "-main";

/// The interactive window station and desktop of a user session.
pub const DESKTOP_NAME: &'static str = "winsta0\\default";

/// What one run of the executable does.
#[derive(Debug, Clone, Copy, PartialEq, Eq, Structural)]
pub enum Mode {
    /// Run under the service manager's dispatcher.
    Service,
    /// Run the desktop program in the user's session.
    Desktop,
    /// Run the window that installs and controls the service.
    Management,
}

/// The mode that a list of arguments selects: the service flag wins over the
/// desktop flag, and with neither the management window runs.
pub open spec fn mode_of(args: Seq<String>) -> Mode {
    if has_arg(args, SERVICE_FLAG@) {
        Mode::Service
    } else if has_arg(args, DESKTOP_FLAG@) {
        Mode::Desktop
    } else {
        Mode::Management
    }
}

/// Some argument equals `flag`.
pub open spec fn has_arg(args: Seq<String>, flag: Seq<char>) -> bool {
    exists|j: int| 0 <= j < args.len() && (#[trigger] args[j])@ == flag
}

/// Whether some argument equals `flag`.
fn has_flag(args: &Vec<String>, flag: &str) -> (r: bool)
    ensures
        r == has_arg(args@, flag@),
{
    let wanted = String::from_str(flag);
    let mut i: usize = 0;
    while i < args.len()
        invariant
            i <= args.len(),
            wanted@ == flag@,
            forall|j: int| 0 <= j < i ==> (#[trigger] args@[j])@ != flag@,
        decreases args.len() - i,
    {
        if args[i] == wanted {
            assert(args@[i as int]@ == flag@);
            return true;
        }
        i = i + 1;
    }
    false
}

/// Selects the mode from the process arguments.
pub fn select_mode(args: &Vec<String>) -> (r: Mode)
    ensures
        r == mode_of(args@),
{
    if has_flag(args, SERVICE_FLAG) {
        Mode::Service
    } else if has_flag(args, DESKTOP_FLAG) {
        Mode::Desktop
    } else {
        Mode::Management
    }
}

/// The command line that runs the executable as the desktop program.
pub fn interactive_command(executable_path: &str) -> (r: String)
    ensures
        r@ == executable_path@ + " -main"@,
{
    let mut command = String::from_str(executable_path);
    command.append(" -main");
    command
}

/// The binary path registered for the service: the executable's path in
/// quotes, followed by the service flag.
pub fn service_binary_path(executable_path: &str) -> (r: String)
    ensures
        r@ == "\""@ + executable_path@ + "\" -service"@,
{
    let mut path = String::from_str("\"");
    path.append(executable_path);
    path.append("\" -service");
    path
}

} // verus!
