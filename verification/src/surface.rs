//! The bot's command surface: which commands exist, what argument each
//! takes, and who may see it. The names and visibility rules are part
//! of the contract with the hosting platform; the application registers
//! exactly what `command_surface` hands it, and turns each incoming
//! invocation into a `Command` through `command_of`.

use vstd::prelude::*;

use crate::dispatch::Command;
use crate::text::str_eq;

verus! {

/// The single string argument a command may take.
pub struct OptionInfo {
    pub name: String,
    pub description: String,
    pub required: bool,
}

/// One command as the platform must register it.
pub struct CommandInfo {
    pub name: String,
    pub description: String,
    pub option: Option<OptionInfo>,
    pub admin_only: bool,
}

/// The surface's contract: four commands — `status` with an optional
/// `address`, visible to all; `set_address` with a required `address`,
/// administrators only; `start_server` with no argument, visible to
/// all; `set_start_cmd` with a required `command`, administrators only.
pub open spec fn surface_ok(r: Seq<CommandInfo>) -> bool {
    &&& r.len() == 4
    &&& r[0].name@ == "status"@ && !r[0].admin_only && (r[0].option matches Some(o) && o.name@
        == "address"@ && !o.required)
    &&& r[1].name@ == "set_address"@ && r[1].admin_only && (r[1].option matches Some(o) && o.name@
        == "address"@ && o.required)
    &&& r[2].name@ == "start_server"@ && !r[2].admin_only && r[2].option is None
    &&& r[3].name@ == "set_start_cmd"@ && r[3].admin_only && (r[3].option matches Some(o)
        && o.name@ == "command"@ && o.required)
}

/// The commands to register, in order.
pub fn command_surface() -> (r: Vec<CommandInfo>)
    ensures
        surface_ok(r@),
{
    let mut r: Vec<CommandInfo> = Vec::new();
    r.push(
        CommandInfo {
            name: String::from_str("status"),
            description: String::from_str(
                "Gets status of the default server or an alternate if given",
            ),
            option: Some(
                OptionInfo {
                    name: String::from_str("address"),
                    description: String::from_str(
                        "The address to check if specified, otherwise the default address will be used",
                    ),
                    required: false,
                },
            ),
            admin_only: false,
        },
    );
    r.push(
        CommandInfo {
            name: String::from_str("set_address"),
            description: String::from_str("Sets the default server address"),
            option: Some(
                OptionInfo {
                    name: String::from_str("address"),
                    description: String::from_str("The address"),
                    required: true,
                },
            ),
            admin_only: true,
        },
    );
    r.push(
        CommandInfo {
            name: String::from_str("start_server"),
            description: String::from_str("Starts the server if it isn't already running"),
            option: None,
            admin_only: false,
        },
    );
    r.push(
        CommandInfo {
            name: String::from_str("set_start_cmd"),
            description: String::from_str("Sets the start command"),
            option: Some(
                OptionInfo {
                    name: String::from_str("command"),
                    description: String::from_str("The command"),
                    required: true,
                },
            ),
            admin_only: true,
        },
    );
    r
}

/// Maps an invocation — a command name and its optional string
/// argument — to one of the four operations, or to `Unknown`. The
/// platform enforces the required arguments; an invocation of a
/// restricted command that arrives without its argument nonetheless
/// gets the fixed invalid-command reply rather than a fault.
pub fn command_of(name: &str, arg: Option<String>) -> (r: Command)
    ensures
        name@ == "status"@ ==> (r matches Command::Status { address } && address == arg),
        name@ == "set_address"@ ==> match arg {
            Some(v) => r matches Command::SetAddress { address } && address@ == v@,
            None => r == Command::Unknown,
        },
        name@ == "start_server"@ ==> r == Command::StartServer,
        name@ == "set_start_cmd"@ ==> match arg {
            Some(v) => r matches Command::SetStartCmd { command } && command@ == v@,
            None => r == Command::Unknown,
        },
        !(name@ == "status"@ || name@ == "set_address"@ || name@ == "start_server"@ || name@
            == "set_start_cmd"@) ==> r == Command::Unknown,
{
    proof {
        reveal_strlit("status");
        reveal_strlit("set_address");
        reveal_strlit("start_server");
        reveal_strlit("set_start_cmd");
        assert("status"@.len() == 6);
        assert("set_address"@.len() == 11);
        assert("start_server"@.len() == 12);
        assert("set_start_cmd"@.len() == 13);
    }
    if str_eq(name, "status") {
        Command::Status { address: arg }
    } else if str_eq(name, "set_address") {
        match arg {
            Some(v) => Command::SetAddress { address: v },
            None => Command::Unknown,
        }
    } else if str_eq(name, "start_server") {
        Command::StartServer
    } else if str_eq(name, "set_start_cmd") {
        match arg {
            Some(v) => Command::SetStartCmd { command: v },
            None => Command::Unknown,
        }
    } else {
        Command::Unknown
    }
}

} // verus!
