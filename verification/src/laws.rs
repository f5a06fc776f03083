//! Laws that hold across the monitor, the controller, the resolver and the
//! policy, stated over their mathematical models.

use crate::config::ConfigModel;
use crate::controller::{plan_step, reply_step, run_next, trigger_step};
use crate::gateway::{
    command_line, lemma_direction_tells_decision, CommandModel, ReplyModel, Request,
};
use crate::monitor::{is_trigger, item_step, StreamItemModel, CONNECTED_GLOBAL};
use crate::policy::{decision_for, ToggleDecision};
use crate::resolver::resolution;
use crate::step::{NextModel, StepModel};
use vstd::prelude::*;

verus! {

/// The command lines that a driver is handed from `step` on until the daemon
/// waits again or halts, where the gateway's reports are `reports` in their
/// order. A command whose report is wanting is counted, and ends the run.
pub open spec fn commands_from(
    config: ConfigModel,
    step: StepModel,
    reports: Seq<ReplyModel>,
) -> Seq<CommandModel>
    decreases reports.len(),
{
    match step.next {
        NextModel::Run { request, command } => if reports.len() == 0 {
            seq![command]
        } else {
            seq![command] + commands_from(
                config,
                reply_step(config, request, reports[0]),
                reports.drop_first(),
            )
        },
        _ => Seq::empty(),
    }
}

/// Two evaluations in succession that find the same network active decide
/// alike. The first ends in waiting for the next notification however its
/// switch went, and the second then asks for the same switch as the first:
/// nothing of an earlier decision enters a later one.
pub proof fn lemma_decision_repeats(
    config: ConfigModel,
    first_listing: ReplyModel,
    switch_report: ReplyModel,
    second_listing: ReplyModel,
)
    requires
        first_listing.succeeded(),
        second_listing.succeeded(),
        resolution(first_listing) == resolution(second_listing),
    ensures
        ({
            let first = reply_step(config, Request::Listing, first_listing);
            let second = reply_step(config, Request::Listing, second_listing);
            &&& first.next matches NextModel::Run { request, .. }
            &&& request is Toggle
            &&& reply_step(config, request, switch_report).next == NextModel::AwaitSignal
            &&& second == first
        }),
{
}

/// A command that fails is contained. Whatever the request and whatever the
/// failure, the step records a failure that is not fatal and waits for the
/// next notification, and a trigger that arrives then starts an evaluation
/// as any other does.
pub proof fn lemma_command_failure_is_contained(
    config: ConfigModel,
    request: Request,
    reply: ReplyModel,
)
    requires
        !reply.succeeded(),
    ensures
        reply_step(config, request, reply).next == NextModel::AwaitSignal,
        reply_step(config, request, reply).failure() matches Some(failure) && !failure.is_fatal(),
        item_step(config, StreamItemModel::StateChanged(CONNECTED_GLOBAL)) == trigger_step(config),
{
}

/// After a listing that was had, the tunnel is brought down exactly when
/// the network marked active is the home network, and up in every other
/// case; one of the two commands is asked for, never both.
pub proof fn lemma_listing_switches_one_way(config: ConfigModel, listing: ReplyModel)
    requires
        listing.succeeded(),
    ensures
        ({
            let next = reply_step(config, Request::Listing, listing).next;
            let at_home = resolution(listing) == Some(config.home_network_id);
            &&& next == run_next(config, Request::Toggle(ToggleDecision::StopVpn)) <==> at_home
            &&& next == run_next(config, Request::Toggle(ToggleDecision::StartVpn)) <==> !at_home
        }),
{
    lemma_direction_tells_decision(
        ToggleDecision::StartVpn,
        ToggleDecision::StopVpn,
        config.vpn_connection_id,
    );
}

/// Where no network is active the tunnel is started; and since the home
/// identity is never empty, so it is where the active network has an empty
/// identity.
pub proof fn lemma_no_network_starts_tunnel(config: ConfigModel)
    requires
        config.valid(),
    ensures
        plan_step(config, None).next == run_next(config, Request::Toggle(ToggleDecision::StartVpn)),
        plan_step(config, Some(Seq::empty())).next == run_next(
            config,
            Request::Toggle(ToggleDecision::StartVpn),
        ),
{
}

/// A state change that is no trigger has no command run, whatever the
/// gateway would report.
pub proof fn lemma_other_state_runs_nothing(
    config: ConfigModel,
    code: u32,
    reports: Seq<ReplyModel>,
)
    requires
        !is_trigger(code),
    ensures
        commands_from(config, item_step(config, StreamItemModel::StateChanged(code)), reports)
            == Seq::<CommandModel>::empty(),
{
}

/// A trigger whose listing is had has two commands run and no more: the
/// listing, and one switch, which is the one that the policy decides for the
/// network that the listing marks active. Reports beyond these two are not
/// asked for.
pub proof fn lemma_trigger_runs_one_switch(
    config: ConfigModel,
    listing: ReplyModel,
    switch: ReplyModel,
    later: Seq<ReplyModel>,
)
    requires
        listing.succeeded(),
    ensures
        commands_from(
            config,
            item_step(config, StreamItemModel::StateChanged(CONNECTED_GLOBAL)),
            seq![listing, switch] + later,
        ) == seq![
            command_line(Request::Listing, config.vpn_connection_id),
            command_line(
                Request::Toggle(decision_for(resolution(listing), config.home_network_id)),
                config.vpn_connection_id,
            ),
        ],
{
    // Follow the run from its end: after the switch the daemon waits, so
    // the plan contributes the switch alone.
    let reports = seq![listing, switch] + later;
    let decision = decision_for(resolution(listing), config.home_network_id);
    let planned = reply_step(config, Request::Listing, listing);
    let done = reply_step(config, Request::Toggle(decision), switch);
    assert(reports[0] == listing && reports.drop_first()[0] == switch);
    assert(commands_from(config, done, reports.drop_first().drop_first()) == Seq::<
        CommandModel,
    >::empty());
    assert(commands_from(config, planned, reports.drop_first()) == seq![
        command_line(Request::Toggle(decision), config.vpn_connection_id),
    ]);
}

/// A trigger whose listing is not had has the listing run and nothing else.
pub proof fn lemma_failed_listing_runs_no_switch(
    config: ConfigModel,
    listing: ReplyModel,
    later: Seq<ReplyModel>,
)
    requires
        !listing.succeeded(),
    ensures
        commands_from(
            config,
            item_step(config, StreamItemModel::StateChanged(CONNECTED_GLOBAL)),
            seq![listing] + later,
        ) == seq![command_line(Request::Listing, config.vpn_connection_id)],
{
    let reports = seq![listing] + later;
    let failed = reply_step(config, Request::Listing, listing);
    assert(reports[0] == listing);
    assert(commands_from(config, failed, reports.drop_first()) == Seq::<CommandModel>::empty());
}

} // verus!
