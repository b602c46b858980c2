//! The job specification that the workflow engine accepts.

use vstd::prelude::*;
use vstd::string::*;

verus! {

/// A job: triggers that start it and tasks that it runs.
#[derive(Clone, Debug, PartialEq, Eq)]
pub struct WaterwheelJob {
    pub uuid: String,
    pub project: String,
    pub name: String,
    pub description: String,
    pub paused: bool,
    pub triggers: Vec<WaterwheelTrigger>,
    pub tasks: Vec<WaterwheelTask>,
}

/// A schedule on which a job starts.
#[derive(Clone, Debug, PartialEq, Eq)]
pub struct WaterwheelTrigger {
    pub name: String,
    pub start: String,
    pub cron: String,
}

/// One task of a job. `depends` names what must happen before it runs:
/// `trigger/<name>` or `task/<name>`.
#[derive(Clone, Debug, PartialEq, Eq)]
pub struct WaterwheelTask {
    pub name: String,
    pub docker: WaterwheelDockerTask,
    pub depends: Vec<String>,
}

/// The container that runs a task.
#[derive(Clone, Debug, PartialEq, Eq)]
pub struct WaterwheelDockerTask {
    pub image: String,
    pub args: Vec<String>,
}

/// A job as a mathematical value.
pub ghost struct WaterwheelJobView {
    pub uuid: Seq<char>,
    pub project: Seq<char>,
    pub name: Seq<char>,
    pub description: Seq<char>,
    pub paused: bool,
    pub triggers: Seq<WaterwheelTriggerView>,
    pub tasks: Seq<WaterwheelTaskView>,
}

/// A trigger as a mathematical value.
pub ghost struct WaterwheelTriggerView {
    pub name: Seq<char>,
    pub start: Seq<char>,
    pub cron: Seq<char>,
}

/// A task as a mathematical value.
pub ghost struct WaterwheelTaskView {
    pub name: Seq<char>,
    pub docker: WaterwheelDockerTaskView,
    pub depends: Seq<Seq<char>>,
}

/// A container as a mathematical value.
pub ghost struct WaterwheelDockerTaskView {
    pub image: Seq<char>,
    pub args: Seq<Seq<char>>,
}

impl View for WaterwheelDockerTask {
    type V = WaterwheelDockerTaskView;

    open spec fn view(&self) -> WaterwheelDockerTaskView {
        WaterwheelDockerTaskView { image: self.image@, args: self.args.deep_view() }
    }
}

impl DeepView for WaterwheelDockerTask {
    type V = WaterwheelDockerTaskView;

    open spec fn deep_view(&self) -> WaterwheelDockerTaskView {
        self.view()
    }
}

impl View for WaterwheelTask {
    type V = WaterwheelTaskView;

    open spec fn view(&self) -> WaterwheelTaskView {
        WaterwheelTaskView {
            name: self.name@,
            docker: self.docker@,
            depends: self.depends.deep_view(),
        }
    }
}

impl DeepView for WaterwheelTask {
    type V = WaterwheelTaskView;

    open spec fn deep_view(&self) -> WaterwheelTaskView {
        self.view()
    }
}

impl View for WaterwheelTrigger {
    type V = WaterwheelTriggerView;

    open spec fn view(&self) -> WaterwheelTriggerView {
        WaterwheelTriggerView { name: self.name@, start: self.start@, cron: self.cron@ }
    }
}

impl DeepView for WaterwheelTrigger {
    type V = WaterwheelTriggerView;

    open spec fn deep_view(&self) -> WaterwheelTriggerView {
        self.view()
    }
}

impl View for WaterwheelJob {
    type V = WaterwheelJobView;

    open spec fn view(&self) -> WaterwheelJobView {
        WaterwheelJobView {
            uuid: self.uuid@,
            project: self.project@,
            name: self.name@,
            description: self.description@,
            paused: self.paused,
            triggers: self.triggers.deep_view(),
            tasks: self.tasks.deep_view(),
        }
    }
}

impl DeepView for WaterwheelJob {
    type V = WaterwheelJobView;

    open spec fn deep_view(&self) -> WaterwheelJobView {
        self.view()
    }
}

} // verus!
