//! What can go wrong, and whether the daemon survives it.

use vstd::prelude::*;

verus! {

/// A setting that the daemon cannot start without.
#[derive(Clone, Copy, Debug, PartialEq, Eq, Structural)]
pub enum Setting {
    /// The identity of the home network.
    HomeNetwork,
    /// The connection manager's identifier of the tunnel.
    VpnConnection,
}

impl Setting {
    /// The name of the environment variable that carries the setting.
    pub open spec fn variable_name(self) -> Seq<char> {
        match self {
            Setting::HomeNetwork => "HOME_SSID"@,
            Setting::VpnConnection => "WIREGUARD_VPN_NAME"@,
        }
    }

    /// The name of the environment variable that carries the setting.
    pub fn variable(self) -> (name: &'static str)
        ensures
            name@ == self.variable_name(),
    {
        match self {
            Setting::HomeNetwork => "HOME_SSID",
            Setting::VpnConnection => "WIREGUARD_VPN_NAME",
        }
    }
}

/// Why a command did not do its work.
#[derive(Debug, PartialEq, Eq)]
pub enum Fault {
    /// The subprocess could not be launched; the text is the system's reason.
    NotLaunched(String),
    /// The subprocess ran and reported failure; the text is what it wrote to
    /// its error stream.
    Unsuccessful(String),
}

/// A `Fault` as a mathematical value.
pub enum FaultModel {
    NotLaunched(Seq<char>),
    Unsuccessful(Seq<char>),
}

impl View for Fault {
    type V = FaultModel;

    open spec fn view(&self) -> FaultModel {
        match self {
            Fault::NotLaunched(reason) => FaultModel::NotLaunched(reason@),
            Fault::Unsuccessful(errors) => FaultModel::Unsuccessful(errors@),
        }
    }
}

/// Every failure the daemon knows. The first three end the process; after
/// any of the others it goes on with the next notification.
#[derive(Debug, PartialEq, Eq)]
pub enum Failure {
    /// A required setting is absent or empty.
    StartupFailure(Setting),
    /// The notification bus could not be reached.
    BusUnavailable(String),
    /// The notification stream ended.
    StreamEnded,
    /// A notification could not be read.
    MalformedEvent(String),
    /// The listing of networks could not be had.
    ResolutionFailed(Fault),
    /// The command that switches the tunnel failed.
    SubprocessFailed(Fault),
}

/// A `Failure` as a mathematical value.
pub enum FailureModel {
    StartupFailure(Setting),
    BusUnavailable(Seq<char>),
    StreamEnded,
    MalformedEvent(Seq<char>),
    ResolutionFailed(FaultModel),
    SubprocessFailed(FaultModel),
}

impl FailureModel {
    /// Whether the failure ends the process.
    pub open spec fn is_fatal(self) -> bool {
        self is StartupFailure || self is BusUnavailable || self is StreamEnded
    }
}

impl View for Failure {
    type V = FailureModel;

    open spec fn view(&self) -> FailureModel {
        match self {
            Failure::StartupFailure(setting) => FailureModel::StartupFailure(*setting),
            Failure::BusUnavailable(reason) => FailureModel::BusUnavailable(reason@),
            Failure::StreamEnded => FailureModel::StreamEnded,
            Failure::MalformedEvent(detail) => FailureModel::MalformedEvent(detail@),
            Failure::ResolutionFailed(fault) => FailureModel::ResolutionFailed(fault@),
            Failure::SubprocessFailed(fault) => FailureModel::SubprocessFailed(fault@),
        }
    }
}

impl Failure {
    /// Whether the failure ends the process.
    pub fn is_fatal(&self) -> (fatal: bool)
        ensures
            fatal == self@.is_fatal(),
    {
        match self {
            Failure::StartupFailure(_) => true,
            Failure::BusUnavailable(_) => true,
            Failure::StreamEnded => true,
            Failure::MalformedEvent(_) => false,
            Failure::ResolutionFailed(_) => false,
            Failure::SubprocessFailed(_) => false,
        }
    }
}

} // verus!
