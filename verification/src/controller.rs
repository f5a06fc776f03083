//! The toggle controller: on a trigger it asks for the listing of networks,
//! decides from the listing, asks for the tunnel to be switched, and takes
//! note of how that went. No failure of a command ends the daemon.
//!
//! The controller keeps nothing between its steps. Each takes the
//! configuration by reference, and what it decides depends on what it is
//! handed, never on what was decided before.

use crate::config::{Config, ConfigModel};
use crate::failure::{Failure, FailureModel};
use crate::gateway::{command_for, command_line, GatewayReply, ReplyModel, Request};
use crate::model::option_view;
use crate::policy::{decide, decision_for};
use crate::resolver::{resolution, resolve};
use crate::step::{recovered, Next, NextModel, Notice, NoticeModel, Step, StepModel};
use vstd::prelude::*;

verus! {

/// The order to run the command line of a request.
pub open spec fn run_next(config: ConfigModel, request: Request) -> NextModel {
    NextModel::Run { request, command: command_line(request, config.vpn_connection_id) }
}

/// The step taken on a trigger: ask for the listing.
pub open spec fn trigger_step(config: ConfigModel) -> StepModel {
    StepModel { notice: Some(NoticeModel::Triggered), next: run_next(config, Request::Listing) }
}

/// The step taken once the active network is known: decide, and ask for the
/// tunnel to be switched accordingly.
pub open spec fn plan_step(config: ConfigModel, active: Option<Seq<char>>) -> StepModel {
    let decision = decision_for(active, config.home_network_id);
    StepModel {
        notice: Some(NoticeModel::Decided { active, decision }),
        next: run_next(config, Request::Toggle(decision)),
    }
}

/// The step taken on the report of a command. A listing that could not be
/// had ends the evaluation without a decision; a listing that was had leads
/// to the plan for the network it marks active; the report of a switch ends
/// the evaluation either way.
pub open spec fn reply_step(config: ConfigModel, request: Request, reply: ReplyModel) -> StepModel {
    match request {
        Request::Listing => match reply.fault() {
            Some(fault) => recovered(FailureModel::ResolutionFailed(fault)),
            None => plan_step(config, resolution(reply)),
        },
        Request::Toggle(decision) => match reply.fault() {
            Some(fault) => recovered(FailureModel::SubprocessFailed(fault)),
            None => StepModel {
                notice: Some(NoticeModel::Applied(decision)),
                next: NextModel::AwaitSignal,
            },
        },
    }
}

fn run_next_for(config: &Config, request: Request) -> (next: Next)
    ensures
        next@ == run_next(config@, request),
{
    Next::Run { request, command: command_for(request, config.vpn_connection_id()) }
}

/// Begins an evaluation: asks for the listing of networks.
pub fn on_trigger(config: &Config) -> (step: Step)
    ensures
        step@ == trigger_step(config@),
{
    Step { notice: Some(Notice::Triggered), next: run_next_for(config, Request::Listing) }
}

/// Decides for the given active network and asks for the tunnel to be
/// switched.
pub fn plan(config: &Config, active: Option<String>) -> (step: Step)
    ensures
        step@ == plan_step(config@, option_view(active)),
{
    let home = config.home_network_id();
    let decision = match &active {
        Some(id) => decide(Some(id.as_str()), home),
        None => decide(None, home),
    };
    Step {
        notice: Some(Notice::Decided { active, decision }),
        next: run_next_for(config, Request::Toggle(decision)),
    }
}

/// Takes the report of the command that was run for `request` and says how
/// the evaluation goes on. Whatever the report, the daemon goes on: the step
/// never halts it and records no fatal failure.
pub fn on_reply(config: &Config, request: Request, reply: &GatewayReply) -> (step: Step)
    ensures
        step@ == reply_step(config@, request, reply@),
        step.next !is Halt,
        step@.failure() matches Some(failure) ==> !failure.is_fatal(),
{
    match request {
        Request::Listing => match reply.fault() {
            Some(fault) => Step {
                notice: Some(Notice::Failed(Failure::ResolutionFailed(fault))),
                next: Next::AwaitSignal,
            },
            None => plan(config, resolve(reply)),
        },
        Request::Toggle(decision) => match reply.fault() {
            Some(fault) => Step {
                notice: Some(Notice::Failed(Failure::SubprocessFailed(fault))),
                next: Next::AwaitSignal,
            },
            None => Step { notice: Some(Notice::Applied(decision)), next: Next::AwaitSignal },
        },
    }
}

} // verus!
