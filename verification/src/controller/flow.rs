//! The flow controller: compiles a flow into a job for the workflow engine
//! and reads the engine's answer.

use vstd::prelude::*;
use vstd::string::*;
use crate::config::BasinConfig;
use crate::controller::error::ControllerReconciliationError;
use crate::controller::error::ControllerReconciliationErrorView;
use crate::controller::error::ValidationError;
use crate::controller::error::ValidationErrorView;
use crate::descriptor_store::kind_pattern;
use crate::descriptor_store::list_pattern;
use crate::fluid::descriptor::DescriptorKind;
use crate::fluid::descriptor::flow::FlowCondition;
use crate::fluid::descriptor::flow::FlowDescriptor;
use crate::fluid::descriptor::flow::FlowDescriptorView;
use crate::fluid::descriptor::flow::FlowStep;
use crate::fluid::descriptor::flow::FlowStepTransformation;
use crate::fluid::descriptor::flow::FlowStepTransformationView;
use crate::fluid::descriptor::flow::FlowStepView;
use crate::provisioner::waterwheel::WaterwheelDockerTask;
use crate::provisioner::waterwheel::WaterwheelDockerTaskView;
use crate::provisioner::waterwheel::WaterwheelJob;
use crate::provisioner::waterwheel::WaterwheelJobView;
use crate::provisioner::waterwheel::WaterwheelTask;
use crate::provisioner::waterwheel::WaterwheelTaskView;
use crate::provisioner::waterwheel::WaterwheelTrigger;
use crate::provisioner::waterwheel::WaterwheelTriggerView;
use crate::shell::escape;
use crate::shell::shell_escaped;
use crate::text::join;
use crate::text::join3;

verus! {

/// The moment from which every cron trigger counts.
pub const PRIMORDIAL_TIME: &'static str = "2000-01-01T00:00:00Z";

/// The trigger that a cron condition compiles to.
pub open spec fn cron_trigger(schedule: Seq<char>) -> WaterwheelTriggerView {
    WaterwheelTriggerView { name: "cron"@, start: PRIMORDIAL_TIME@, cron: schedule }
}

/// The container that prints a statement which is already quoted for the
/// shell.
pub open spec fn docker_for(escaped_sql: Seq<char>) -> WaterwheelDockerTaskView {
    WaterwheelDockerTaskView {
        image: "bash"@,
        args: seq!["-c"@, "echo \""@ + escaped_sql + "\""@],
    }
}

/// What a task waits for: its parents, or the cron trigger when it has none.
pub open spec fn task_depends(parents: Seq<Seq<char>>) -> Seq<Seq<char>> {
    if parents.len() == 0 {
        seq!["trigger/cron"@]
    } else {
        parents.map_values(|p: Seq<char>| "task/"@ + p)
    }
}

/// The task that a step compiles to.
pub open spec fn compiled_task(step: FlowStepView) -> WaterwheelTaskView {
    WaterwheelTaskView {
        name: step.name,
        docker: match step.transformation {
            FlowStepTransformationView::Sql { sql } => docker_for(shell_escaped(sql)),
        },
        depends: task_depends(step.parents),
    }
}

/// Whether a flow can be compiled: only cron conditions can.
pub open spec fn compilable(d: FlowDescriptorView) -> bool {
    d.condition is Cron
}

/// The job that a compilable flow compiles to, for the given project.
pub open spec fn compiled_job(project: Seq<char>, d: FlowDescriptorView) -> WaterwheelJobView {
    WaterwheelJobView {
        uuid: d.id,
        project: project,
        name: d.name,
        description: d.summary,
        paused: false,
        triggers: seq![cron_trigger(d.condition->schedule)],
        tasks: d.steps.map_values(|s: FlowStepView| compiled_task(s)),
    }
}

/// A job and the address to post it to.
#[derive(Clone, Debug, PartialEq, Eq)]
pub struct JobSubmission {
    pub url: String,
    pub job: WaterwheelJob,
}

/// What came of posting a job to the workflow engine.
#[derive(Clone, Debug, PartialEq, Eq)]
pub enum SubmitReply {
    /// The request could not be sent.
    SendFailed(String),
    /// The engine answered with this status and body.
    Answered { status: u16, body: String },
    /// The engine answered with this status, and its body could not be read.
    BodyUnreadable { status: u16, cause: String },
}

/// A reply as a mathematical value.
pub ghost enum SubmitReplyView {
    SendFailed(Seq<char>),
    Answered { status: u16, body: Seq<char> },
    BodyUnreadable { status: u16, cause: Seq<char> },
}

impl View for SubmitReply {
    type V = SubmitReplyView;

    open spec fn view(&self) -> SubmitReplyView {
        match self {
            SubmitReply::SendFailed(cause) => SubmitReplyView::SendFailed(cause@),
            SubmitReply::Answered { status, body } => SubmitReplyView::Answered {
                status: *status,
                body: body@,
            },
            SubmitReply::BodyUnreadable { status, cause } => SubmitReplyView::BodyUnreadable {
                status: *status,
                cause: cause@,
            },
        }
    }
}

/// Whether an HTTP status reports success.
pub open spec fn is_success(status: u16) -> bool {
    200 <= status < 300
}

/// What a reply means for the reconciliation: `None` when the job was
/// accepted, else the error.
pub open spec fn submit_verdict(reply: SubmitReplyView) -> Option<
    ControllerReconciliationErrorView,
> {
    match reply {
        SubmitReplyView::SendFailed(cause) => Some(
            ControllerReconciliationErrorView::ProvisionerError(cause),
        ),
        SubmitReplyView::Answered { status, body } => if is_success(status) {
            None
        } else {
            Some(ControllerReconciliationErrorView::ProvisionerError(body))
        },
        SubmitReplyView::BodyUnreadable { status, cause } => if is_success(status) {
            None
        } else {
            Some(ControllerReconciliationErrorView::ProvisionerError(cause))
        },
    }
}

/// Compiles flows for one project of one workflow engine.
#[derive(Clone, Debug, PartialEq, Eq)]
pub struct FlowController {
    pub waterwheel_project: String,
    pub waterwheel_url: String,
}

impl FlowController {
    /// A controller for the project and engine that the settings name.
    pub fn new(conf: &BasinConfig) -> (r: FlowController)
        ensures
            r.waterwheel_project@ == conf.waterwheel_project@,
            r.waterwheel_url@ == conf.waterwheel_url@,
    {
        FlowController {
            waterwheel_project: conf.waterwheel_project.clone(),
            waterwheel_url: conf.waterwheel_url.clone(),
        }
    }

    /// The address that jobs are posted to.
    pub open spec fn jobs_url(&self) -> Seq<char> {
        self.waterwheel_url@ + "/api/jobs"@
    }

    /// The container for a statement that is already quoted for the shell.
    pub fn docker_task(escaped_sql: &str) -> (r: WaterwheelDockerTask)
        ensures
            r@ == docker_for(escaped_sql@),
    {
        let mut args: Vec<String> = Vec::new();
        args.push(String::from_str("-c"));
        args.push(join3("echo \"", escaped_sql, "\""));
        let task = WaterwheelDockerTask { image: String::from_str("bash"), args };
        assert(task@.args =~= docker_for(escaped_sql@).args);
        task
    }

    /// What a task with these parents waits for.
    pub fn depends_on(parents: &Vec<String>) -> (r: Vec<String>)
        ensures
            r.deep_view() == task_depends(parents.deep_view()),
    {
        let mut depends: Vec<String> = Vec::new();
        if parents.len() == 0 {
            depends.push(String::from_str("trigger/cron"));
            return depends;
        }
        let mut i: usize = 0;
        while i < parents.len()
            invariant
                i <= parents.len(),
                depends.len() == i,
                forall|j: int| 0 <= j < i ==> depends[j]@ == "task/"@ + #[trigger] parents[j]@,
            decreases parents.len() - i,
        {
            depends.push(join("task/", parents[i].as_str()));
            i = i + 1;
        }
        depends
    }

    /// Compiles one step.
    pub fn compile_step(step: &FlowStep) -> (r: WaterwheelTask)
        ensures
            r@ == compiled_task(step@),
    {
        let docker = match &step.transformation {
            FlowStepTransformation::Sql(t) => {
                let escaped_sql = escape(t.sql.as_str());
                Self::docker_task(escaped_sql.as_str())
            },
        };
        WaterwheelTask {
            name: step.name.clone(),
            docker,
            depends: Self::depends_on(&step.parents),
        }
    }

    /// Compiles a flow into a job. A flow with a cron condition always
    /// compiles; any other condition is turned down.
    pub fn build_waterwheel_job_spec(&self, raw_descriptor: &FlowDescriptor) -> (r: Result<
        WaterwheelJob,
        ValidationError,
    >)
        ensures
            r is Ok <==> compilable(raw_descriptor@),
            r matches Ok(job) ==> job@ == compiled_job(
                self.waterwheel_project@,
                raw_descriptor@,
            ),
            r matches Err(e) ==> e@ == ValidationErrorView::UnsupportedCondition,
    {
        let mut triggers: Vec<WaterwheelTrigger> = Vec::new();
        match &raw_descriptor.condition {
            FlowCondition::Cron(cron_condition) => {
                triggers.push(
                    WaterwheelTrigger {
                        name: String::from_str("cron"),
                        start: String::from_str(PRIMORDIAL_TIME),
                        cron: cron_condition.schedule.clone(),
                    },
                );
            },
            FlowCondition::Upstream(_) => {
                return Err(ValidationError::UnsupportedCondition);
            },
        }
        let mut tasks: Vec<WaterwheelTask> = Vec::new();
        let mut i: usize = 0;
        while i < raw_descriptor.steps.len()
            invariant
                i <= raw_descriptor.steps.len(),
                tasks.len() == i,
                forall|j: int|
                    0 <= j < i ==> (#[trigger] tasks[j])@ == compiled_task(
                        raw_descriptor.steps[j]@,
                    ),
            decreases raw_descriptor.steps.len() - i,
        {
            tasks.push(Self::compile_step(&raw_descriptor.steps[i]));
            i = i + 1;
        }
        let job = WaterwheelJob {
            uuid: raw_descriptor.id.clone(),
            project: self.waterwheel_project.clone(),
            name: raw_descriptor.name.clone(),
            description: raw_descriptor.summary.clone(),
            paused: false,
            triggers,
            tasks,
        };
        proof {
            let want = compiled_job(self.waterwheel_project@, raw_descriptor@);
            assert(job@.triggers =~= want.triggers);
            assert(job@.tasks =~= want.tasks);
        }
        Ok(job)
    }

    /// Checks that a flow can be compiled.
    pub fn validate(&self, descriptor: &FlowDescriptor) -> (r: Result<(), ValidationError>)
        ensures
            r is Ok <==> compilable(descriptor@),
            r matches Err(e) ==> e@ == ValidationErrorView::UnsupportedCondition,
    {
        match self.build_waterwheel_job_spec(descriptor) {
            Ok(_) => Ok(()),
            Err(e) => Err(e),
        }
    }

    /// The pattern that lists the keys of the stored descriptors that this
    /// controller reconciles.
    pub fn list_descriptors(&self) -> (r: String)
        ensures
            r@ == kind_pattern(DescriptorKind::Flow.tag()),
    {
        list_pattern("flow")
    }

    /// Says what to post to the workflow engine for a flow, and where. A
    /// flow that does not compile gives a controller error and nothing is
    /// posted.
    pub fn reconcile(&self, descriptor: &FlowDescriptor) -> (r: Result<
        JobSubmission,
        ControllerReconciliationError,
    >)
        ensures
            r is Ok <==> compilable(descriptor@),
            r matches Ok(submission) ==> submission.url@ == self.jobs_url() && submission.job@
                == compiled_job(self.waterwheel_project@, descriptor@),
            r matches Err(e) ==> e@ == ControllerReconciliationErrorView::ControllerError(
                ValidationErrorView::UnsupportedCondition.message(),
            ),
    {
        match self.build_waterwheel_job_spec(descriptor) {
            Ok(job) => Ok(
                JobSubmission { url: join(self.waterwheel_url.as_str(), "/api/jobs"), job },
            ),
            Err(e) => Err(ControllerReconciliationError::ControllerError(e.message())),
        }
    }

    /// Reads the engine's answer to a posted job. Any status outside
    /// 200..=299 is a provisioner error that carries the response body.
    pub fn submitted(reply: SubmitReply) -> (r: Result<(), ControllerReconciliationError>)
        ensures
            r is Ok <==> submit_verdict(reply@) is None,
            r matches Err(e) ==> submit_verdict(reply@) == Some(e@),
    {
        match reply {
            SubmitReply::SendFailed(cause) => Err(
                ControllerReconciliationError::ProvisionerError(cause),
            ),
            SubmitReply::Answered { status, body } => {
                if 200 <= status && status < 300 {
                    Ok(())
                } else {
                    Err(ControllerReconciliationError::ProvisionerError(body))
                }
            },
            SubmitReply::BodyUnreadable { status, cause } => {
                if 200 <= status && status < 300 {
                    Ok(())
                } else {
                    Err(ControllerReconciliationError::ProvisionerError(cause))
                }
            },
        }
    }

    /// A compiled job has exactly one trigger and one task for each step,
    /// in the order of the steps. A task whose step has no parents waits
    /// for the cron trigger; any other task waits for `task/<p>` for each
    /// parent `p`, in the order of the parents.
    pub proof fn lemma_compiled_shape(project: Seq<char>, d: FlowDescriptorView)
        requires
            compilable(d),
        ensures
            compiled_job(project, d).triggers.len() == 1,
            compiled_job(project, d).tasks.len() == d.steps.len(),
            forall|i: int|
                0 <= i < d.steps.len() && d.steps[i].parents.len() == 0 ==> (
                #[trigger] compiled_job(project, d).tasks[i]).depends == seq!["trigger/cron"@],
            forall|i: int, k: int|
                0 <= i < d.steps.len() && 0 <= k < d.steps[i].parents.len() ==> {
                    &&& (#[trigger] compiled_job(project, d).tasks[i]).depends.len()
                        == d.steps[i].parents.len()
                    &&& compiled_job(project, d).tasks[i].depends[k] == "task/"@
                        + #[trigger] d.steps[i].parents[k]
                },
    {
    }
}

} // verus!
