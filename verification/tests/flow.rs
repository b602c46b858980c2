use basin::config::BasinConfig;
use basin::controller::error::{ControllerReconciliationError, ValidationError};
use basin::controller::flow::{FlowController, JobSubmission, SubmitReply};
use basin::fluid::descriptor::flow::{
    FlowCondition, FlowCronCondition, FlowDescriptor, FlowSqlTransformation, FlowStep,
    FlowStepTransformation, FlowUpstreamCondition,
};
use basin::provisioner::waterwheel::{
    WaterwheelDockerTask, WaterwheelJob, WaterwheelTask, WaterwheelTrigger,
};

fn controller() -> FlowController {
    FlowController {
        waterwheel_project: "lake".to_string(),
        waterwheel_url: "http://waterwheel:8080".to_string(),
    }
}

fn step(name: &str, parents: &[&str], sql: &str) -> FlowStep {
    FlowStep {
        name: name.to_string(),
        summary: format!("step {}", name),
        parents: parents.iter().map(|p| p.to_string()).collect(),
        timeout: "1h".to_string(),
        transformation: FlowStepTransformation::Sql(FlowSqlTransformation { sql: sql.to_string() }),
    }
}

fn cron_flow(steps: Vec<FlowStep>) -> FlowDescriptor {
    FlowDescriptor {
        id: "f1".to_string(),
        name: "daily".to_string(),
        summary: "runs every day".to_string(),
        condition: FlowCondition::Cron(FlowCronCondition { schedule: "0 0 * * *".to_string() }),
        steps,
    }
}

fn upstream_flow() -> FlowDescriptor {
    FlowDescriptor {
        id: "f2".to_string(),
        name: "after".to_string(),
        summary: String::new(),
        condition: FlowCondition::Upstream(FlowUpstreamCondition { upstream: "t1".to_string() }),
        steps: vec![step("a", &[], "SELECT 1")],
    }
}

fn strings(items: &[&str]) -> Vec<String> {
    items.iter().map(|s| s.to_string()).collect()
}

#[test]
fn flow_with_cron() {
    let flow = cron_flow(vec![step("a", &[], "SELECT 1"), step("b", &["a"], "SELECT 2")]);
    let job = controller().build_waterwheel_job_spec(&flow).unwrap();
    let expected = WaterwheelJob {
        uuid: "f1".to_string(),
        project: "lake".to_string(),
        name: "daily".to_string(),
        description: "runs every day".to_string(),
        paused: false,
        triggers: vec![WaterwheelTrigger {
            name: "cron".to_string(),
            start: "2000-01-01T00:00:00Z".to_string(),
            cron: "0 0 * * *".to_string(),
        }],
        tasks: vec![
            WaterwheelTask {
                name: "a".to_string(),
                docker: WaterwheelDockerTask {
                    image: "bash".to_string(),
                    args: strings(&["-c", "echo \"'SELECT 1'\""]),
                },
                depends: strings(&["trigger/cron"]),
            },
            WaterwheelTask {
                name: "b".to_string(),
                docker: WaterwheelDockerTask {
                    image: "bash".to_string(),
                    args: strings(&["-c", "echo \"'SELECT 2'\""]),
                },
                depends: strings(&["task/a"]),
            },
        ],
    };
    assert_eq!(job, expected);
}

#[test]
fn one_trigger_and_one_task_for_each_step() {
    for n in [0usize, 1, 2, 7] {
        let steps: Vec<FlowStep> =
            (0..n).map(|i| step(&format!("s{}", i), &[], "SELECT 1")).collect();
        let job = controller().build_waterwheel_job_spec(&cron_flow(steps)).unwrap();
        assert_eq!(job.triggers.len(), 1);
        assert_eq!(job.tasks.len(), n);
        for (i, task) in job.tasks.iter().enumerate() {
            assert_eq!(task.name, format!("s{}", i));
        }
    }
}

#[test]
fn tasks_wait_for_their_parents_in_order() {
    let flow = cron_flow(vec![
        step("a", &[], "SELECT 1"),
        step("b", &[], "SELECT 2"),
        step("c", &["b", "a"], "SELECT 3"),
    ]);
    let job = controller().build_waterwheel_job_spec(&flow).unwrap();
    assert_eq!(job.tasks[0].depends, strings(&["trigger/cron"]));
    assert_eq!(job.tasks[1].depends, strings(&["trigger/cron"]));
    assert_eq!(job.tasks[2].depends, strings(&["task/b", "task/a"]));
    assert_eq!(FlowController::depends_on(&vec![]), strings(&["trigger/cron"]));
    assert_eq!(FlowController::depends_on(&strings(&["x"])), strings(&["task/x"]));
    assert_eq!(FlowController::depends_on(&strings(&[""])), strings(&["task/"]));
}

#[test]
fn statement_is_quoted_for_the_shell() {
    let plain = FlowController::compile_step(&step("a", &[], "abc-DEF_09=/,.+"));
    assert_eq!(plain.docker.args, strings(&["-c", "echo \"abc-DEF_09=/,.+\""]));
    let spaced = FlowController::compile_step(&step("a", &[], "SELECT 1"));
    assert_eq!(spaced.docker.args, strings(&["-c", "echo \"'SELECT 1'\""]));
    let quoted = FlowController::compile_step(&step("a", &[], "SELECT 'x' FROM t!"));
    assert_eq!(quoted.docker.args, strings(&["-c", "echo \"'SELECT '\\''x'\\'' FROM t'\\!''\""]));
    let empty = FlowController::compile_step(&step("a", &[], ""));
    assert_eq!(empty.docker.args, strings(&["-c", "echo \"''\""]));
}

#[test]
fn container_for_a_quoted_statement() {
    let docker = FlowController::docker_task("'SELECT 1'");
    assert_eq!(
        docker,
        WaterwheelDockerTask {
            image: "bash".to_string(),
            args: strings(&["-c", "echo \"'SELECT 1'\""]),
        }
    );
    assert_eq!(FlowController::docker_task("").args, strings(&["-c", "echo \"\""]));
}

#[test]
fn upstream_condition_is_turned_down() {
    let flow = upstream_flow();
    assert_eq!(
        controller().build_waterwheel_job_spec(&flow),
        Err(ValidationError::UnsupportedCondition)
    );
    assert_eq!(controller().validate(&flow), Err(ValidationError::UnsupportedCondition));
    assert_eq!(
        controller().reconcile(&flow),
        Err(ControllerReconciliationError::ControllerError(
            "unsupported trigger condition".to_string()
        ))
    );
}

#[test]
fn cron_flow_is_valid_and_posted_to_the_jobs_address() {
    let flow = cron_flow(vec![step("a", &[], "SELECT 1")]);
    assert_eq!(controller().validate(&flow), Ok(()));
    let JobSubmission { url, job } = controller().reconcile(&flow).unwrap();
    assert_eq!(url, "http://waterwheel:8080/api/jobs");
    assert_eq!(job, controller().build_waterwheel_job_spec(&flow).unwrap());
    assert_eq!(job.uuid, "f1");
    assert_eq!(job.project, "lake");
    assert!(!job.paused);
}

#[test]
fn timeout_is_not_carried_into_the_job() {
    let mut short = step("a", &[], "SELECT 1");
    short.timeout = "1s".to_string();
    let mut long = step("a", &[], "SELECT 1");
    long.timeout = "9h".to_string();
    assert_eq!(FlowController::compile_step(&short), FlowController::compile_step(&long));
}

#[test]
fn statuses_from_200_to_299_are_success() {
    for status in [200u16, 201, 202, 204, 299] {
        let reply = SubmitReply::Answered { status, body: "ok".to_string() };
        assert_eq!(FlowController::submitted(reply), Ok(()), "{}", status);
    }
}

#[test]
fn other_statuses_fail_with_the_body() {
    for status in [0u16, 100, 199, 300, 301, 400, 404, 500, 503, u16::MAX] {
        let reply = SubmitReply::Answered { status, body: "no such project".to_string() };
        assert_eq!(
            FlowController::submitted(reply),
            Err(ControllerReconciliationError::ProvisionerError("no such project".to_string())),
            "{}",
            status
        );
    }
}

#[test]
fn unsent_and_unreadable_replies_fail_with_their_cause() {
    assert_eq!(
        FlowController::submitted(SubmitReply::SendFailed("connection refused".to_string())),
        Err(ControllerReconciliationError::ProvisionerError("connection refused".to_string()))
    );
    assert_eq!(
        FlowController::submitted(SubmitReply::BodyUnreadable {
            status: 500,
            cause: "reset".to_string()
        }),
        Err(ControllerReconciliationError::ProvisionerError("reset".to_string()))
    );
    assert_eq!(
        FlowController::submitted(SubmitReply::BodyUnreadable {
            status: 200,
            cause: "reset".to_string()
        }),
        Ok(())
    );
}

#[test]
fn controller_is_built_from_the_settings() {
    let conf = BasinConfig {
        name: "basin".to_string(),
        waterwheel_username: "u".to_string(),
        waterwheel_password: "p".to_string(),
        waterwheel_project: "lake".to_string(),
        waterwheel_url: "http://waterwheel:8080".to_string(),
        event_sqs_url: "http://sqs/q".to_string(),
        redis_url: "redis://cache".to_string(),
    };
    assert_eq!(FlowController::new(&conf), controller());
    assert_eq!(controller().list_descriptors(), "descriptor/flow/*");
}
