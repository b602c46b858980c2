//! The descriptor of a data flow: a trigger condition and ordered steps.

use vstd::prelude::*;
use vstd::string::*;
use super::DescriptorKind;
use super::IdentifiableDescriptor;

verus! {

/// A request for a data flow.
#[derive(Clone, Debug, PartialEq, Eq)]
pub struct FlowDescriptor {
    pub id: String,
    pub name: String,
    pub summary: String,
    pub condition: FlowCondition,
    pub steps: Vec<FlowStep>,
}

/// What sets a flow off.
#[derive(Clone, Debug, PartialEq, Eq)]
pub enum FlowCondition {
    Cron(FlowCronCondition),
    Upstream(FlowUpstreamCondition),
}

/// A flow that runs on a schedule.
#[derive(Clone, Debug, PartialEq, Eq)]
pub struct FlowCronCondition {
    pub schedule: String,
}

/// A flow that runs when another resource changes.
#[derive(Clone, Debug, PartialEq, Eq)]
pub struct FlowUpstreamCondition {
    pub upstream: String,
}

/// A flow that runs after other flows.
#[derive(Clone, Debug, PartialEq, Eq)]
pub struct FlowUpstreamFlowCondition {
    pub flow: Vec<String>,
}

/// One step of a flow. `parents` names the steps that must finish first.
#[derive(Clone, Debug, PartialEq, Eq)]
pub struct FlowStep {
    pub name: String,
    pub summary: String,
    pub parents: Vec<String>,
    pub timeout: String,
    pub transformation: FlowStepTransformation,
}

/// What a step does to the data.
#[derive(Clone, Debug, PartialEq, Eq)]
pub enum FlowStepTransformation {
    Sql(FlowSqlTransformation),
}

/// A step that runs one SQL statement.
#[derive(Clone, Debug, PartialEq, Eq)]
pub struct FlowSqlTransformation {
    pub sql: String,
}

/// A flow descriptor as a mathematical value.
pub ghost struct FlowDescriptorView {
    pub id: Seq<char>,
    pub name: Seq<char>,
    pub summary: Seq<char>,
    pub condition: FlowConditionView,
    pub steps: Seq<FlowStepView>,
}

/// A trigger condition as a mathematical value.
pub ghost enum FlowConditionView {
    Cron { schedule: Seq<char> },
    Upstream { upstream: Seq<char> },
}

/// A step as a mathematical value.
pub ghost struct FlowStepView {
    pub name: Seq<char>,
    pub summary: Seq<char>,
    pub parents: Seq<Seq<char>>,
    pub timeout: Seq<char>,
    pub transformation: FlowStepTransformationView,
}

/// A transformation as a mathematical value.
pub ghost enum FlowStepTransformationView {
    Sql { sql: Seq<char> },
}

impl View for FlowCronCondition {
    type V = Seq<char>;

    open spec fn view(&self) -> Seq<char> {
        self.schedule@
    }
}

impl View for FlowUpstreamCondition {
    type V = Seq<char>;

    open spec fn view(&self) -> Seq<char> {
        self.upstream@
    }
}

impl View for FlowUpstreamFlowCondition {
    type V = Seq<Seq<char>>;

    open spec fn view(&self) -> Seq<Seq<char>> {
        self.flow.deep_view()
    }
}

impl View for FlowSqlTransformation {
    type V = Seq<char>;

    open spec fn view(&self) -> Seq<char> {
        self.sql@
    }
}

impl View for FlowCondition {
    type V = FlowConditionView;

    open spec fn view(&self) -> FlowConditionView {
        match self {
            FlowCondition::Cron(c) => FlowConditionView::Cron { schedule: c@ },
            FlowCondition::Upstream(u) => FlowConditionView::Upstream { upstream: u@ },
        }
    }
}

impl View for FlowStepTransformation {
    type V = FlowStepTransformationView;

    open spec fn view(&self) -> FlowStepTransformationView {
        match self {
            FlowStepTransformation::Sql(t) => FlowStepTransformationView::Sql { sql: t@ },
        }
    }
}

impl View for FlowStep {
    type V = FlowStepView;

    open spec fn view(&self) -> FlowStepView {
        FlowStepView {
            name: self.name@,
            summary: self.summary@,
            parents: self.parents.deep_view(),
            timeout: self.timeout@,
            transformation: self.transformation@,
        }
    }
}

impl DeepView for FlowStep {
    type V = FlowStepView;

    open spec fn deep_view(&self) -> FlowStepView {
        self.view()
    }
}

impl View for FlowDescriptor {
    type V = FlowDescriptorView;

    open spec fn view(&self) -> FlowDescriptorView {
        FlowDescriptorView {
            id: self.id@,
            name: self.name@,
            summary: self.summary@,
            condition: self.condition@,
            steps: self.steps.deep_view(),
        }
    }
}

impl DeepView for FlowDescriptor {
    type V = FlowDescriptorView;

    open spec fn deep_view(&self) -> FlowDescriptorView {
        self.view()
    }
}

impl IdentifiableDescriptor for FlowDescriptor {
    open spec fn spec_id(&self) -> Seq<char> {
        self.id@
    }

    open spec fn spec_kind(&self) -> DescriptorKind {
        DescriptorKind::Flow
    }

    fn id(&self) -> (r: String) {
        self.id.clone()
    }

    fn kind(&self) -> (r: String) {
        String::from_str("flow")
    }
}

} // verus!
