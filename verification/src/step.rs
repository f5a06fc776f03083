//! What one step of the daemon yields: something to put on record and what
//! the driver is to do next.

use crate::failure::{Failure, FailureModel};
use crate::gateway::{Command, CommandModel, Request};
use crate::model::option_view;
use crate::policy::ToggleDecision;
use vstd::prelude::*;

verus! {

/// Something for the driver to put on record.
#[derive(Debug, PartialEq, Eq)]
pub enum Notice {
    /// The daemon waits for its first notification.
    Listening,
    /// A state change that calls for an evaluation arrived.
    Triggered,
    /// The active network was looked up and the tunnel's direction decided.
    Decided { active: Option<String>, decision: ToggleDecision },
    /// The connection manager carried the decision out.
    Applied(ToggleDecision),
    /// Something failed.
    Failed(Failure),
}

/// A `Notice` as a mathematical value.
pub enum NoticeModel {
    Listening,
    Triggered,
    Decided { active: Option<Seq<char>>, decision: ToggleDecision },
    Applied(ToggleDecision),
    Failed(FailureModel),
}

impl View for Notice {
    type V = NoticeModel;

    open spec fn view(&self) -> NoticeModel {
        match self {
            Notice::Listening => NoticeModel::Listening,
            Notice::Triggered => NoticeModel::Triggered,
            Notice::Decided { active, decision } => NoticeModel::Decided {
                active: option_view(*active),
                decision: *decision,
            },
            Notice::Applied(decision) => NoticeModel::Applied(*decision),
            Notice::Failed(failure) => NoticeModel::Failed(failure@),
        }
    }
}

/// What the driver is to do next.
#[derive(Debug, PartialEq, Eq)]
pub enum Next {
    /// Wait for the next item of the notification stream.
    AwaitSignal,
    /// Run the command and hand its report back together with the request.
    Run { request: Request, command: Command },
    /// End the process.
    Halt,
}

/// A `Next` as a mathematical value.
pub enum NextModel {
    AwaitSignal,
    Run { request: Request, command: CommandModel },
    Halt,
}

impl View for Next {
    type V = NextModel;

    open spec fn view(&self) -> NextModel {
        match self {
            Next::AwaitSignal => NextModel::AwaitSignal,
            Next::Run { request, command } => NextModel::Run {
                request: *request,
                command: command@,
            },
            Next::Halt => NextModel::Halt,
        }
    }
}

/// The result of one step.
#[derive(Debug, PartialEq, Eq)]
pub struct Step {
    pub notice: Option<Notice>,
    pub next: Next,
}

/// A `Step` as a mathematical value.
pub struct StepModel {
    pub notice: Option<NoticeModel>,
    pub next: NextModel,
}

impl StepModel {
    /// The failure that the step puts on record, if it records one.
    pub open spec fn failure(self) -> Option<FailureModel> {
        match self.notice {
            Some(NoticeModel::Failed(failure)) => Some(failure),
            _ => None,
        }
    }
}

impl View for Step {
    type V = StepModel;

    open spec fn view(&self) -> StepModel {
        StepModel { notice: option_view(self.notice), next: self.next@ }
    }
}

/// The step that records a failure after which the daemon goes on.
pub open spec fn recovered(failure: FailureModel) -> StepModel {
    StepModel { notice: Some(NoticeModel::Failed(failure)), next: NextModel::AwaitSignal }
}

} // verus!
