//! The external process gateway, seen from the deciding side: the commands
//! that the driver is asked to run, and what it reports back.

use crate::failure::{Fault, FaultModel};
use crate::model::option_view;
use crate::policy::ToggleDecision;
use crate::text::{decode_lossy, lossy_text};
use vstd::prelude::*;
use vstd::utf8::{decode_utf8, valid_utf8};

verus! {

/// A command line for the connection manager's control program.
#[derive(Debug, PartialEq, Eq)]
pub struct Command {
    pub program: String,
    pub arguments: Vec<String>,
}

/// A `Command` as a mathematical value.
pub struct CommandModel {
    pub program: Seq<char>,
    pub arguments: Seq<Seq<char>>,
}

impl View for Command {
    type V = CommandModel;

    open spec fn view(&self) -> CommandModel {
        CommandModel { program: self.program@, arguments: self.arguments.deep_view() }
    }
}

/// What the gateway is asked for.
#[derive(Clone, Copy, Debug, PartialEq, Eq, Structural)]
pub enum Request {
    /// List the wireless networks with their active flag.
    Listing,
    /// Bring the tunnel up or down.
    Toggle(ToggleDecision),
}

/// The connection manager's control program.
pub open spec fn control_program() -> Seq<char> {
    "nmcli"@
}

/// The word that tells the connection manager which way the tunnel goes.
pub open spec fn direction(decision: ToggleDecision) -> Seq<char> {
    match decision {
        ToggleDecision::StartVpn => "up"@,
        ToggleDecision::StopVpn => "down"@,
    }
}

/// The command line for a request: a terse listing of the `active` and
/// `ssid` fields of the wireless networks, or the connection named
/// `vpn_connection_id` brought up or down.
pub open spec fn command_line(request: Request, vpn_connection_id: Seq<char>) -> CommandModel {
    match request {
        Request::Listing => CommandModel {
            program: control_program(),
            arguments: seq!["-t"@, "-f"@, "active,ssid"@, "dev"@, "wifi"@],
        },
        Request::Toggle(decision) => CommandModel {
            program: control_program(),
            arguments: seq!["connection"@, direction(decision), "id"@, vpn_connection_id],
        },
    }
}

/// Builds the command line for a request.
pub fn command_for(request: Request, vpn_connection_id: &str) -> (command: Command)
    ensures
        command@ == command_line(request, vpn_connection_id@),
{
    let mut arguments: Vec<String> = Vec::new();
    match request {
        Request::Listing => {
            arguments.push("-t".to_owned());
            arguments.push("-f".to_owned());
            arguments.push("active,ssid".to_owned());
            arguments.push("dev".to_owned());
            arguments.push("wifi".to_owned());
        },
        Request::Toggle(decision) => {
            let word = match decision {
                ToggleDecision::StartVpn => "up",
                ToggleDecision::StopVpn => "down",
            };
            arguments.push("connection".to_owned());
            arguments.push(word.to_owned());
            arguments.push("id".to_owned());
            arguments.push(vpn_connection_id.to_owned());
        },
    }
    let command = Command { program: "nmcli".to_owned(), arguments };
    assert(command@.arguments =~= command_line(request, vpn_connection_id@).arguments);
    command
}

/// The two directions are told apart by their words, so a command line that
/// switches the tunnel names one decision only.
pub proof fn lemma_direction_tells_decision(
    first: ToggleDecision,
    second: ToggleDecision,
    vpn_connection_id: Seq<char>,
)
    ensures
        direction(first) == direction(second) <==> first == second,
        command_line(Request::Toggle(first), vpn_connection_id) == command_line(
            Request::Toggle(second),
            vpn_connection_id,
        ) <==> first == second,
{
    reveal_strlit("up");
    reveal_strlit("down");
    if first != second {
        // The words differ in length, and the word is the second argument.
        assert(direction(first).len() != direction(second).len());
        let a = command_line(Request::Toggle(first), vpn_connection_id);
        let b = command_line(Request::Toggle(second), vpn_connection_id);
        assert(a.arguments[1] != b.arguments[1]);
    }
}

/// What the driver reports of one command. A subprocess that exits with a
/// failure status is an ordinary report, told apart from one that could not
/// be launched at all.
#[derive(Debug, PartialEq, Eq)]
pub enum GatewayReply {
    /// The subprocess ran to its end.
    Exited { success: bool, stdout: Vec<u8>, stderr: Vec<u8> },
    /// The subprocess could not be launched.
    NotLaunched { reason: String },
}

/// A `GatewayReply` as a mathematical value.
pub enum ReplyModel {
    Exited { success: bool, stdout: Seq<u8>, stderr: Seq<u8> },
    NotLaunched { reason: Seq<char> },
}

impl ReplyModel {
    /// Whether the command did its work.
    pub open spec fn succeeded(self) -> bool {
        self matches ReplyModel::Exited { success, .. } && success
    }

    /// Why the command did not do its work, if it did not. What a failed
    /// subprocess wrote to its error stream is kept as text.
    pub open spec fn fault(self) -> Option<FaultModel> {
        match self {
            ReplyModel::Exited { success, stdout, stderr } => if success {
                None
            } else {
                Some(FaultModel::Unsuccessful(lossy_text(stderr)))
            },
            ReplyModel::NotLaunched { reason } => Some(FaultModel::NotLaunched(reason)),
        }
    }
}

impl View for GatewayReply {
    type V = ReplyModel;

    open spec fn view(&self) -> ReplyModel {
        match self {
            GatewayReply::Exited { success, stdout, stderr } => ReplyModel::Exited {
                success: *success,
                stdout: stdout@,
                stderr: stderr@,
            },
            GatewayReply::NotLaunched { reason } => ReplyModel::NotLaunched { reason: reason@ },
        }
    }
}

impl GatewayReply {
    /// Whether the command did its work.
    pub fn succeeded(&self) -> (done: bool)
        ensures
            done == self@.succeeded(),
    {
        match self {
            GatewayReply::Exited { success, .. } => *success,
            GatewayReply::NotLaunched { .. } => false,
        }
    }

    /// Why the command did not do its work, if it did not. An error stream
    /// that is well-formed UTF-8 is reported as the text it encodes.
    pub fn fault(&self) -> (fault: Option<Fault>)
        ensures
            option_view(fault) == self@.fault(),
            fault is None <==> self@.succeeded(),
            self@ is Exited && !self@.succeeded() && valid_utf8(self@->stderr) ==> option_view(fault)
                == Some(FaultModel::Unsuccessful(decode_utf8(self@->stderr))),
    {
        match self {
            GatewayReply::Exited { success, stderr, .. } => {
                if *success {
                    None
                } else {
                    Some(Fault::Unsuccessful(decode_lossy(stderr.as_slice())))
                }
            },
            GatewayReply::NotLaunched { reason } => Some(Fault::NotLaunched(reason.clone())),
        }
    }
}

} // verus!
