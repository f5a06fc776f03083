//! The daemon's configuration: two texts, fixed for the life of the process.

use crate::failure::{Failure, FailureModel, Setting};
use crate::model::option_view;
use vstd::prelude::*;

verus! {

/// A `Config` as a mathematical value.
pub struct ConfigModel {
    pub home_network_id: Seq<char>,
    pub vpn_connection_id: Seq<char>,
}

impl ConfigModel {
    /// Both settings are present: neither text is empty.
    pub open spec fn valid(self) -> bool {
        self.home_network_id.len() > 0 && self.vpn_connection_id.len() > 0
    }
}

/// Whether a setting was given a value that can be used.
pub open spec fn is_set(value: Option<Seq<char>>) -> bool {
    value matches Some(text) && text.len() > 0
}

/// The first required setting that is absent or empty, the home network
/// being looked at first.
pub open spec fn first_missing(
    home_network_id: Option<Seq<char>>,
    vpn_connection_id: Option<Seq<char>>,
) -> Option<Setting> {
    if !is_set(home_network_id) {
        Some(Setting::HomeNetwork)
    } else if !is_set(vpn_connection_id) {
        Some(Setting::VpnConnection)
    } else {
        None
    }
}

/// The identity of the home network and the identifier of the tunnel. Every
/// value of this type holds two texts that are not empty.
#[derive(Debug, PartialEq, Eq)]
pub struct Config {
    home_network_id: String,
    vpn_connection_id: String,
}

impl View for Config {
    type V = ConfigModel;

    closed spec fn view(&self) -> ConfigModel {
        ConfigModel {
            home_network_id: self.home_network_id@,
            vpn_connection_id: self.vpn_connection_id@,
        }
    }
}

impl Config {
    #[verifier::type_invariant]
    spec fn well_formed(&self) -> bool {
        self@.valid()
    }

    /// Makes the configuration from the two settings as they were found.
    /// Fails with `StartupFailure`, naming the first setting that is absent
    /// or empty.
    pub fn from_settings(
        home_network_id: Option<String>,
        vpn_connection_id: Option<String>,
    ) -> (made: Result<Config, Failure>)
        ensures
            match first_missing(option_view(home_network_id), option_view(vpn_connection_id)) {
                Some(setting) => {
                    &&& made matches Err(failure)
                    &&& failure@ == FailureModel::StartupFailure(setting)
                },
                None => {
                    &&& made matches Ok(config)
                    &&& option_view(home_network_id) == Some(config@.home_network_id)
                    &&& option_view(vpn_connection_id) == Some(config@.vpn_connection_id)
                },
            },
    {
        let home = match home_network_id {
            Some(text) => text,
            None => { return Err(Failure::StartupFailure(Setting::HomeNetwork)); },
        };
        if home.as_str().is_empty() {
            return Err(Failure::StartupFailure(Setting::HomeNetwork));
        }
        let vpn = match vpn_connection_id {
            Some(text) => text,
            None => { return Err(Failure::StartupFailure(Setting::VpnConnection)); },
        };
        if vpn.as_str().is_empty() {
            return Err(Failure::StartupFailure(Setting::VpnConnection));
        }
        Ok(Config { home_network_id: home, vpn_connection_id: vpn })
    }

    /// The identity of the network on which the tunnel stays down.
    pub fn home_network_id(&self) -> (id: &str)
        ensures
            id@ == self@.home_network_id,
            id@.len() > 0,
    {
        proof {
            use_type_invariant(self);
        }
        self.home_network_id.as_str()
    }

    /// The connection manager's identifier of the tunnel.
    pub fn vpn_connection_id(&self) -> (id: &str)
        ensures
            id@ == self@.vpn_connection_id,
            id@.len() > 0,
    {
        proof {
            use_type_invariant(self);
        }
        self.vpn_connection_id.as_str()
    }
}

} // verus!
