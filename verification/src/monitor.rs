//! The signal monitor: takes the items of the connection manager's
//! state-change stream one by one, passes the one state that matters on to
//! the controller, and lets everything else go by.

use crate::config::{Config, ConfigModel};
use crate::controller::{on_trigger, trigger_step};
use crate::failure::{Failure, FailureModel};
use crate::step::{recovered, Next, NextModel, Notice, NoticeModel, Step, StepModel};
use vstd::prelude::*;

verus! {

/// The state code by which the connection manager announces that global
/// connectivity is established.
pub const CONNECTED_GLOBAL: u32 = 60;

/// Whether a state code calls for an evaluation.
pub open spec fn is_trigger(code: u32) -> bool {
    code == CONNECTED_GLOBAL
}

/// One item of the notification stream, as the driver found it.
#[derive(Debug, PartialEq, Eq)]
pub enum StreamItem {
    /// A state change with its state code.
    StateChanged(u32),
    /// A notification that could not be read; the text says why.
    Malformed(String),
    /// The publisher closed the stream.
    Closed,
}

/// A `StreamItem` as a mathematical value.
pub enum StreamItemModel {
    StateChanged(u32),
    Malformed(Seq<char>),
    Closed,
}

impl View for StreamItem {
    type V = StreamItemModel;

    open spec fn view(&self) -> StreamItemModel {
        match self {
            StreamItem::StateChanged(code) => StreamItemModel::StateChanged(*code),
            StreamItem::Malformed(detail) => StreamItemModel::Malformed(detail@),
            StreamItem::Closed => StreamItemModel::Closed,
        }
    }
}

/// The step with which the daemon begins: it waits for a notification.
pub open spec fn listen_step() -> StepModel {
    StepModel { notice: Some(NoticeModel::Listening), next: NextModel::AwaitSignal }
}

/// The step taken on an item of the stream. The trigger state starts an
/// evaluation and every other state passes without a trace; an unreadable
/// notification is put on record and the daemon goes on; the end of the
/// stream ends the daemon.
pub open spec fn item_step(config: ConfigModel, item: StreamItemModel) -> StepModel {
    match item {
        StreamItemModel::StateChanged(code) => if is_trigger(code) {
            trigger_step(config)
        } else {
            StepModel { notice: None, next: NextModel::AwaitSignal }
        },
        StreamItemModel::Malformed(detail) => recovered(FailureModel::MalformedEvent(detail)),
        StreamItemModel::Closed => StepModel {
            notice: Some(NoticeModel::Failed(FailureModel::StreamEnded)),
            next: NextModel::Halt,
        },
    }
}

/// The first step: wait for a notification.
pub fn listen() -> (step: Step)
    ensures
        step@ == listen_step(),
{
    Step { notice: Some(Notice::Listening), next: Next::AwaitSignal }
}

/// Takes one item of the stream and says what is to be done about it. Only
/// the trigger state has a command run, and only the end of the stream halts
/// the daemon.
pub fn on_item(config: &Config, item: StreamItem) -> (step: Step)
    ensures
        step@ == item_step(config@, item@),
        step.next is Run <==> (item matches StreamItem::StateChanged(code) && is_trigger(code)),
        step.next is Halt <==> item is Closed,
{
    match item {
        StreamItem::StateChanged(code) => {
            if code == CONNECTED_GLOBAL {
                on_trigger(config)
            } else {
                Step { notice: None, next: Next::AwaitSignal }
            }
        },
        StreamItem::Malformed(detail) => Step {
            notice: Some(Notice::Failed(Failure::MalformedEvent(detail))),
            next: Next::AwaitSignal,
        },
        StreamItem::Closed => Step {
            notice: Some(Notice::Failed(Failure::StreamEnded)),
            next: Next::Halt,
        },
    }
}

} // verus!
