//! The report data model: the result of one test, its nested steps,
//! attachments, labels, links, parameters, status details, the container that
//! groups results for the report generator, fixtures and defect categories.

use vstd::prelude::*;

use crate::enums::LabelName;
use crate::enums::LinkType;
use crate::enums::ParameterMode;
use crate::enums::Severity;
use crate::enums::Stage;
use crate::enums::Status;
use crate::trusted::now_ms;

verus! {

/// Label attached to a test for categorisation and filtering.
#[derive(Debug, Clone)]
pub struct Label {
    /// Label name, reserved or custom.
    pub name: String,
    /// Label value.
    pub value: String,
}

/// External link associated with a test.
#[derive(Debug, Clone)]
pub struct Link {
    /// Display name of the link.
    pub name: Option<String>,
    /// Link URL.
    pub url: String,
    /// Kind of the link.
    pub link_type: Option<LinkType>,
}

/// Test parameter with display options.
#[derive(Debug, Clone)]
pub struct Parameter {
    /// Parameter name.
    pub name: String,
    /// Parameter value.
    pub value: String,
    /// Whether the parameter is left out of the history id computation.
    pub excluded: Option<bool>,
    /// How the value is displayed.
    pub mode: Option<ParameterMode>,
}

/// Reference to a persisted attachment file.
#[derive(Debug, Clone)]
pub struct Attachment {
    /// Display name of the attachment.
    pub name: String,
    /// Stored file name.
    pub source: String,
    /// MIME type of the payload.
    pub mime_type: Option<String>,
}

/// Additional detail on a test or step outcome.
#[derive(Debug, Clone)]
pub struct StatusDetails {
    /// Whether this is a known issue.
    pub known: Option<bool>,
    /// Whether the test is muted.
    pub muted: Option<bool>,
    /// Whether the test is flaky.
    pub flaky: Option<bool>,
    /// Error message.
    pub message: Option<String>,
    /// Stack trace.
    pub trace: Option<String>,
}

impl Default for StatusDetails {
    /// Details with every field absent.
    fn default() -> (r: Self)
        ensures
            r == (StatusDetails {
                known: None,
                muted: None,
                flaky: None,
                message: None,
                trace: None,
            }),
    {
        StatusDetails { known: None, muted: None, flaky: None, message: None, trace: None }
    }
}

/// The details recorded for a failing or broken outcome: present exactly when
/// a message or a trace was supplied, and then carrying both as given.
pub open spec fn spec_failure_details(message: Option<String>, trace: Option<String>) -> Option<
    StatusDetails,
> {
    if message is Some || trace is Some {
        Some(StatusDetails { known: None, muted: None, flaky: None, message, trace })
    } else {
        None
    }
}

/// A named, timed sub-unit of a test; steps nest to arbitrary depth.
#[derive(Debug)]
pub struct StepResult {
    /// Optional identifier of the step.
    pub uuid: Option<String>,
    /// Step name.
    pub name: String,
    /// Step outcome.
    pub status: Status,
    /// Additional outcome detail.
    pub status_details: Option<StatusDetails>,
    /// Execution stage.
    pub stage: Stage,
    /// Nested steps, in the order they finished.
    pub steps: Vec<StepResult>,
    /// Attachments recorded while the step was open.
    pub attachments: Vec<Attachment>,
    /// Parameters recorded while the step was open.
    pub parameters: Vec<Parameter>,
    /// Start time, milliseconds since the Unix epoch.
    pub start: i64,
    /// Stop time, milliseconds since the Unix epoch.
    pub stop: i64,
}

/// Root record of one test's outcome and everything nested beneath it.
#[derive(Debug)]
pub struct TestResult {
    /// Unique identifier of this result.
    pub uuid: String,
    /// Stable identity across runs, derived from the full name and the
    /// non-excluded parameters.
    pub history_id: Option<String>,
    /// Test case identifier for report tooling.
    pub test_case_id: Option<String>,
    /// Display name.
    pub name: String,
    /// Fully qualified name.
    pub full_name: Option<String>,
    /// Markdown description.
    pub description: Option<String>,
    /// HTML description.
    pub description_html: Option<String>,
    /// Outcome of the test.
    pub status: Status,
    /// Additional outcome detail.
    pub status_details: Option<StatusDetails>,
    /// Execution stage.
    pub stage: Stage,
    /// Top-level steps, in the order they finished.
    pub steps: Vec<StepResult>,
    /// Attachments recorded at the test level.
    pub attachments: Vec<Attachment>,
    /// Parameters of the test.
    pub parameters: Vec<Parameter>,
    /// Labels of the test.
    pub labels: Vec<Label>,
    /// External links.
    pub links: Vec<Link>,
    /// Start time, milliseconds since the Unix epoch.
    pub start: i64,
    /// Stop time, milliseconds since the Unix epoch.
    pub stop: i64,
}

impl TestResult {
    /// A fresh result: undecided status, running stage, no children, and a
    /// start time equal to its stop time.
    pub fn new(uuid: String, name: String) -> (r: Self)
        ensures
            r.uuid == uuid,
            r.history_id is None,
            r.test_case_id is None,
            r.name == name,
            r.full_name is None,
            r.description is None,
            r.description_html is None,
            r.status == Status::Unknown,
            r.status_details is None,
            r.stage == Stage::Running,
            r.steps@.len() == 0,
            r.attachments@.len() == 0,
            r.parameters@.len() == 0,
            r.labels@.len() == 0,
            r.links@.len() == 0,
            r.start == r.stop,
    {
        let now = now_ms();
        TestResult {
            uuid,
            history_id: None,
            test_case_id: None,
            name,
            full_name: None,
            description: None,
            description_html: None,
            status: Status::Unknown,
            status_details: None,
            stage: Stage::Running,
            steps: Vec::new(),
            attachments: Vec::new(),
            parameters: Vec::new(),
            labels: Vec::new(),
            links: Vec::new(),
            start: now,
            stop: now,
        }
    }

    /// Appends a label.
    pub fn add_label(&mut self, name: String, value: String)
        ensures
            final(self).labels@ == old(self).labels@.push((Label { name, value })),
            *final(self) == (TestResult { labels: final(self).labels, ..*old(self) }),
    {
        self.labels.push(Label { name, value });
    }

    /// Appends a label under a reserved name.
    pub fn add_label_name(&mut self, name: LabelName, value: String)
        ensures
            final(self).labels@.len() == old(self).labels@.len() + 1,
            final(self).labels@.drop_last() == old(self).labels@,
            final(self).labels@.last().name@ == name.spec_str(),
            final(self).labels@.last().value == value,
            *final(self) == (TestResult { labels: final(self).labels, ..*old(self) }),
    {
        let n = String::from_str(name.as_str());
        self.labels.push(Label { name: n, value });
    }

    /// Appends a link of the given kind.
    pub fn add_link(&mut self, url: String, name: Option<String>, link_type: LinkType)
        ensures
            final(self).links@ == old(self).links@.push(
                (Link { name, url, link_type: Some(link_type) }),
            ),
            *final(self) == (TestResult { links: final(self).links, ..*old(self) }),
    {
        self.links.push(Link { name, url, link_type: Some(link_type) });
    }

    /// Appends a plain parameter.
    pub fn add_parameter(&mut self, name: String, value: String)
        ensures
            final(self).parameters@ == old(self).parameters@.push(
                (Parameter { name, value, excluded: None, mode: None }),
            ),
            *final(self) == (TestResult { parameters: final(self).parameters, ..*old(self) }),
    {
        self.parameters.push(Parameter { name, value, excluded: None, mode: None });
    }

    /// Appends an attachment reference.
    pub fn add_attachment(&mut self, attachment: Attachment)
        ensures
            final(self).attachments@ == old(self).attachments@.push(attachment),
            *final(self) == (TestResult { attachments: final(self).attachments, ..*old(self) }),
    {
        self.attachments.push(attachment);
    }

    /// Appends a finished top-level step.
    pub fn add_step(&mut self, step: StepResult)
        ensures
            final(self).steps@ == old(self).steps@.push(step),
            *final(self) == (TestResult { steps: final(self).steps, ..*old(self) }),
    {
        self.steps.push(step);
    }

    /// Sets the status.
    pub fn set_status(&mut self, status: Status)
        ensures
            final(self).status == status,
            *final(self) == (TestResult { status: final(self).status, ..*old(self) }),
    {
        self.status = status;
    }

    /// Moves the result to the finished stage, stamping the stop time.
    pub fn finish(&mut self)
        ensures
            final(self).stage == Stage::Finished,
            *final(self) == (TestResult {
                stage: final(self).stage,
                stop: final(self).stop,
                ..*old(self)
            }),
    {
        self.stop = now_ms();
        self.stage = Stage::Finished;
    }

    /// Marks the result passed and finished; details are left as they are, so
    /// flaky or muted flags set earlier survive.
    pub fn pass(&mut self)
        ensures
            final(self).status == Status::Passed,
            final(self).stage == Stage::Finished,
            *final(self) == (TestResult {
                status: final(self).status,
                stage: final(self).stage,
                stop: final(self).stop,
                ..*old(self)
            }),
    {
        self.status = Status::Passed;
        self.finish();
    }

    /// Marks the result failed and finished; a supplied message or trace
    /// replaces the details.
    pub fn fail(&mut self, message: Option<String>, trace: Option<String>)
        ensures
            final(self).status == Status::Failed,
            final(self).stage == Stage::Finished,
            final(self).status_details == (if message is Some || trace is Some {
                spec_failure_details(message, trace)
            } else {
                old(self).status_details
            }),
            *final(self) == (TestResult {
                status: final(self).status,
                status_details: final(self).status_details,
                stage: final(self).stage,
                stop: final(self).stop,
                ..*old(self)
            }),
    {
        self.status = Status::Failed;
        if message.is_some() || trace.is_some() {
            self.status_details = Some(
                StatusDetails { known: None, muted: None, flaky: None, message, trace },
            );
        }
        self.finish();
    }

    /// Marks the result broken and finished; a supplied message or trace
    /// replaces the details.
    pub fn broken(&mut self, message: Option<String>, trace: Option<String>)
        ensures
            final(self).status == Status::Broken,
            final(self).stage == Stage::Finished,
            final(self).status_details == (if message is Some || trace is Some {
                spec_failure_details(message, trace)
            } else {
                old(self).status_details
            }),
            *final(self) == (TestResult {
                status: final(self).status,
                status_details: final(self).status_details,
                stage: final(self).stage,
                stop: final(self).stop,
                ..*old(self)
            }),
    {
        self.status = Status::Broken;
        if message.is_some() || trace.is_some() {
            self.status_details = Some(
                StatusDetails { known: None, muted: None, flaky: None, message, trace },
            );
        }
        self.finish();
    }
}

impl StepResult {
    /// A fresh open step: undecided status, running stage, no children, and a
    /// start time equal to its stop time.
    pub fn new(name: String) -> (r: Self)
        ensures
            r.uuid is None,
            r.name == name,
            r.status == Status::Unknown,
            r.status_details is None,
            r.stage == Stage::Running,
            r.steps@.len() == 0,
            r.attachments@.len() == 0,
            r.parameters@.len() == 0,
            r.start == r.stop,
    {
        let now = now_ms();
        StepResult {
            uuid: None,
            name,
            status: Status::Unknown,
            status_details: None,
            stage: Stage::Running,
            steps: Vec::new(),
            attachments: Vec::new(),
            parameters: Vec::new(),
            start: now,
            stop: now,
        }
    }

    /// Appends a finished nested step.
    pub fn add_step(&mut self, step: StepResult)
        ensures
            final(self).steps@ == old(self).steps@.push(step),
            *final(self) == (StepResult { steps: final(self).steps, ..*old(self) }),
    {
        self.steps.push(step);
    }

    /// Appends an attachment reference.
    pub fn add_attachment(&mut self, attachment: Attachment)
        ensures
            final(self).attachments@ == old(self).attachments@.push(attachment),
            *final(self) == (StepResult { attachments: final(self).attachments, ..*old(self) }),
    {
        self.attachments.push(attachment);
    }

    /// Appends a plain parameter.
    pub fn add_parameter(&mut self, name: String, value: String)
        ensures
            final(self).parameters@ == old(self).parameters@.push(
                (Parameter { name, value, excluded: None, mode: None }),
            ),
            *final(self) == (StepResult { parameters: final(self).parameters, ..*old(self) }),
    {
        self.parameters.push(Parameter { name, value, excluded: None, mode: None });
    }

    /// Marks the step passed and finished, clearing any detail.
    pub fn pass(&mut self)
        ensures
            final(self).status == Status::Passed,
            final(self).stage == Stage::Finished,
            final(self).status_details is None,
            *final(self) == (StepResult {
                status: final(self).status,
                status_details: final(self).status_details,
                stage: final(self).stage,
                stop: final(self).stop,
                ..*old(self)
            }),
    {
        self.status = Status::Passed;
        self.stage = Stage::Finished;
        self.status_details = None;
        self.stop = now_ms();
    }

    /// Marks the step failed and finished; a supplied message or trace
    /// replaces the details.
    pub fn fail(&mut self, message: Option<String>, trace: Option<String>)
        ensures
            final(self).status == Status::Failed,
            final(self).stage == Stage::Finished,
            final(self).status_details == (if message is Some || trace is Some {
                spec_failure_details(message, trace)
            } else {
                old(self).status_details
            }),
            *final(self) == (StepResult {
                status: final(self).status,
                status_details: final(self).status_details,
                stage: final(self).stage,
                stop: final(self).stop,
                ..*old(self)
            }),
    {
        self.status = Status::Failed;
        self.stage = Stage::Finished;
        self.stop = now_ms();
        if message.is_some() || trace.is_some() {
            self.status_details = Some(
                StatusDetails { known: None, muted: None, flaky: None, message, trace },
            );
        }
    }

    /// Marks the step broken and finished; a supplied message or trace
    /// replaces the details.
    pub fn broken(&mut self, message: Option<String>, trace: Option<String>)
        ensures
            final(self).status == Status::Broken,
            final(self).stage == Stage::Finished,
            final(self).status_details == (if message is Some || trace is Some {
                spec_failure_details(message, trace)
            } else {
                old(self).status_details
            }),
            *final(self) == (StepResult {
                status: final(self).status,
                status_details: final(self).status_details,
                stage: final(self).stage,
                stop: final(self).stop,
                ..*old(self)
            }),
    {
        self.status = Status::Broken;
        self.stage = Stage::Finished;
        self.stop = now_ms();
        if message.is_some() || trace.is_some() {
            self.status_details = Some(
                StatusDetails { known: None, muted: None, flaky: None, message, trace },
            );
        }
    }
}

impl Label {
    /// A label with the given name and value.
    pub fn new(name: String, value: String) -> (r: Self)
        ensures
            r == (Label { name, value }),
    {
        Label { name, value }
    }

    /// A label under a reserved name.
    pub fn from_name(name: LabelName, value: String) -> (r: Self)
        ensures
            r.name@ == name.spec_str(),
            r.value == value,
    {
        Label { name: String::from_str(name.as_str()), value }
    }

    /// An epic label.
    pub fn epic(value: String) -> (r: Self)
        ensures
            r.name@ == LabelName::Epic.spec_str(),
            r.value == value,
    {
        Self::from_name(LabelName::Epic, value)
    }

    /// A feature label.
    pub fn feature(value: String) -> (r: Self)
        ensures
            r.name@ == LabelName::Feature.spec_str(),
            r.value == value,
    {
        Self::from_name(LabelName::Feature, value)
    }

    /// A story label.
    pub fn story(value: String) -> (r: Self)
        ensures
            r.name@ == LabelName::Story.spec_str(),
            r.value == value,
    {
        Self::from_name(LabelName::Story, value)
    }

    /// A suite label.
    pub fn suite(value: String) -> (r: Self)
        ensures
            r.name@ == LabelName::Suite.spec_str(),
            r.value == value,
    {
        Self::from_name(LabelName::Suite, value)
    }

    /// A parent suite label.
    pub fn parent_suite(value: String) -> (r: Self)
        ensures
            r.name@ == LabelName::ParentSuite.spec_str(),
            r.value == value,
    {
        Self::from_name(LabelName::ParentSuite, value)
    }

    /// A sub-suite label.
    pub fn sub_suite(value: String) -> (r: Self)
        ensures
            r.name@ == LabelName::SubSuite.spec_str(),
            r.value == value,
    {
        Self::from_name(LabelName::SubSuite, value)
    }

    /// A severity label.
    pub fn severity(severity: Severity) -> (r: Self)
        ensures
            r.name@ == LabelName::Severity.spec_str(),
            r.value@ == severity.spec_str(),
    {
        Self::from_name(LabelName::Severity, String::from_str(severity.as_str()))
    }

    /// An owner label.
    pub fn owner(value: String) -> (r: Self)
        ensures
            r.name@ == LabelName::Owner.spec_str(),
            r.value == value,
    {
        Self::from_name(LabelName::Owner, value)
    }

    /// A tag label.
    pub fn tag(value: String) -> (r: Self)
        ensures
            r.name@ == LabelName::Tag.spec_str(),
            r.value == value,
    {
        Self::from_name(LabelName::Tag, value)
    }

    /// A test case identifier label.
    pub fn allure_id(value: String) -> (r: Self)
        ensures
            r.name@ == LabelName::AllureId.spec_str(),
            r.value == value,
    {
        Self::from_name(LabelName::AllureId, value)
    }

    /// A host label.
    pub fn host(value: String) -> (r: Self)
        ensures
            r.name@ == LabelName::Host.spec_str(),
            r.value == value,
    {
        Self::from_name(LabelName::Host, value)
    }

    /// A thread label.
    pub fn thread(value: String) -> (r: Self)
        ensures
            r.name@ == LabelName::Thread.spec_str(),
            r.value == value,
    {
        Self::from_name(LabelName::Thread, value)
    }

    /// A framework label.
    pub fn framework(value: String) -> (r: Self)
        ensures
            r.name@ == LabelName::Framework.spec_str(),
            r.value == value,
    {
        Self::from_name(LabelName::Framework, value)
    }

    /// A language label.
    pub fn language(value: String) -> (r: Self)
        ensures
            r.name@ == LabelName::Language.spec_str(),
            r.value == value,
    {
        Self::from_name(LabelName::Language, value)
    }

    /// A package label.
    pub fn package(value: String) -> (r: Self)
        ensures
            r.name@ == LabelName::Package.spec_str(),
            r.value == value,
    {
        Self::from_name(LabelName::Package, value)
    }

    /// A test class label.
    pub fn test_class(value: String) -> (r: Self)
        ensures
            r.name@ == LabelName::TestClass.spec_str(),
            r.value == value,
    {
        Self::from_name(LabelName::TestClass, value)
    }

    /// A test method label.
    pub fn test_method(value: String) -> (r: Self)
        ensures
            r.name@ == LabelName::TestMethod.spec_str(),
            r.value == value,
    {
        Self::from_name(LabelName::TestMethod, value)
    }
}

impl Link {
    /// A plain link without a name or kind.
    pub fn new(url: String) -> (r: Self)
        ensures
            r == (Link { name: None, url, link_type: None }),
    {
        Link { name: None, url, link_type: None }
    }

    /// A link with a display name.
    pub fn with_name(url: String, name: String) -> (r: Self)
        ensures
            r == (Link { name: Some(name), url, link_type: None }),
    {
        Link { name: Some(name), url, link_type: None }
    }

    /// A link into an issue tracker.
    pub fn issue(url: String, name: Option<String>) -> (r: Self)
        ensures
            r == (Link { name, url, link_type: Some(LinkType::Issue) }),
    {
        Link { name, url, link_type: Some(LinkType::Issue) }
    }

    /// A link into a test management system.
    pub fn tms(url: String, name: Option<String>) -> (r: Self)
        ensures
            r == (Link { name, url, link_type: Some(LinkType::Tms) }),
    {
        Link { name, url, link_type: Some(LinkType::Tms) }
    }
}

impl Parameter {
    /// A plain parameter.
    pub fn new(name: String, value: String) -> (r: Self)
        ensures
            r == (Parameter { name, value, excluded: None, mode: None }),
    {
        Parameter { name, value, excluded: None, mode: None }
    }

    /// A parameter left out of the history id computation.
    pub fn excluded(name: String, value: String) -> (r: Self)
        ensures
            r == (Parameter { name, value, excluded: Some(true), mode: None }),
    {
        Parameter { name, value, excluded: Some(true), mode: None }
    }

    /// A parameter whose value is hidden in the report.
    pub fn hidden(name: String, value: String) -> (r: Self)
        ensures
            r == (Parameter { name, value, excluded: None, mode: Some(ParameterMode::Hidden) }),
    {
        Parameter { name, value, excluded: None, mode: Some(ParameterMode::Hidden) }
    }

    /// A parameter whose value is masked in the report.
    pub fn masked(name: String, value: String) -> (r: Self)
        ensures
            r == (Parameter { name, value, excluded: None, mode: Some(ParameterMode::Masked) }),
    {
        Parameter { name, value, excluded: None, mode: Some(ParameterMode::Masked) }
    }
}

impl Attachment {
    /// An attachment reference.
    pub fn new(name: String, source: String, mime_type: Option<String>) -> (r: Self)
        ensures
            r == (Attachment { name, source, mime_type }),
    {
        Attachment { name, source, mime_type }
    }
}

/// Fixture outcome, recorded inside a container.
#[derive(Debug)]
pub struct FixtureResult {
    /// Fixture name.
    pub name: String,
    /// Fixture outcome.
    pub status: Status,
    /// Additional outcome detail.
    pub status_details: Option<StatusDetails>,
    /// Execution stage.
    pub stage: Stage,
    /// Nested steps.
    pub steps: Vec<StepResult>,
    /// Attachments.
    pub attachments: Vec<Attachment>,
    /// Parameters.
    pub parameters: Vec<Parameter>,
    /// Start time, milliseconds since the Unix epoch.
    pub start: i64,
    /// Stop time, milliseconds since the Unix epoch.
    pub stop: i64,
}

impl FixtureResult {
    /// A fresh fixture record.
    pub fn new(name: String) -> (r: Self)
        ensures
            r.name == name,
            r.status == Status::Unknown,
            r.status_details is None,
            r.stage == Stage::Running,
            r.steps@.len() == 0,
            r.attachments@.len() == 0,
            r.parameters@.len() == 0,
            r.start == r.stop,
    {
        let now = now_ms();
        FixtureResult {
            name,
            status: Status::Unknown,
            status_details: None,
            stage: Stage::Running,
            steps: Vec::new(),
            attachments: Vec::new(),
            parameters: Vec::new(),
            start: now,
            stop: now,
        }
    }

    /// Marks the fixture passed and finished.
    pub fn pass(&mut self)
        ensures
            final(self).status == Status::Passed,
            final(self).stage == Stage::Finished,
            *final(self) == (FixtureResult {
                status: final(self).status,
                stage: final(self).stage,
                stop: final(self).stop,
                ..*old(self)
            }),
    {
        self.status = Status::Passed;
        self.stage = Stage::Finished;
        self.stop = now_ms();
    }

    /// Marks the fixture failed and finished; a supplied message or trace
    /// replaces the details.
    pub fn fail(&mut self, message: Option<String>, trace: Option<String>)
        ensures
            final(self).status == Status::Failed,
            final(self).stage == Stage::Finished,
            final(self).status_details == (if message is Some || trace is Some {
                spec_failure_details(message, trace)
            } else {
                old(self).status_details
            }),
            *final(self) == (FixtureResult {
                status: final(self).status,
                status_details: final(self).status_details,
                stage: final(self).stage,
                stop: final(self).stop,
                ..*old(self)
            }),
    {
        self.status = Status::Failed;
        self.stage = Stage::Finished;
        self.stop = now_ms();
        if message.is_some() || trace.is_some() {
            self.status_details = Some(
                StatusDetails { known: None, muted: None, flaky: None, message, trace },
            );
        }
    }
}

/// Container grouping results (and optionally fixtures) for the report
/// generator's traversal.
#[derive(Debug)]
pub struct TestResultContainer {
    /// Unique identifier of this container.
    pub uuid: String,
    /// Container name.
    pub name: Option<String>,
    /// Identifiers of the results this container groups.
    pub children: Vec<String>,
    /// Setup fixtures.
    pub befores: Vec<FixtureResult>,
    /// Teardown fixtures.
    pub afters: Vec<FixtureResult>,
    /// Start of the covered time window.
    pub start: Option<i64>,
    /// End of the covered time window.
    pub stop: Option<i64>,
}

impl TestResultContainer {
    /// An empty container with the given identifier.
    pub fn new(uuid: String) -> (r: Self)
        ensures
            r.uuid == uuid,
            r.name is None,
            r.children@.len() == 0,
            r.befores@.len() == 0,
            r.afters@.len() == 0,
            r.start is None,
            r.stop is None,
    {
        TestResultContainer {
            uuid,
            name: None,
            children: Vec::new(),
            befores: Vec::new(),
            afters: Vec::new(),
            start: None,
            stop: None,
        }
    }

    /// Appends a result identifier as a child.
    pub fn add_child(&mut self, test_uuid: String)
        ensures
            final(self).children@ == old(self).children@.push(test_uuid),
            *final(self) == (TestResultContainer { children: final(self).children, ..*old(self) }),
    {
        self.children.push(test_uuid);
    }

    /// Appends a setup fixture.
    pub fn add_before(&mut self, fixture: FixtureResult)
        ensures
            final(self).befores@ == old(self).befores@.push(fixture),
            *final(self) == (TestResultContainer { befores: final(self).befores, ..*old(self) }),
    {
        self.befores.push(fixture);
    }

    /// Appends a teardown fixture.
    pub fn add_after(&mut self, fixture: FixtureResult)
        ensures
            final(self).afters@ == old(self).afters@.push(fixture),
            *final(self) == (TestResultContainer { afters: final(self).afters, ..*old(self) }),
    {
        self.afters.push(fixture);
    }
}

/// Defect category: a passthrough matching rule consumed by the report
/// generator.
#[derive(Debug, Clone)]
pub struct Category {
    /// Category name.
    pub name: String,
    /// Statuses matched by this category.
    pub matched_statuses: Vec<Status>,
    /// Pattern matched against the error message.
    pub message_regex: Option<String>,
    /// Pattern matched against the stack trace.
    pub trace_regex: Option<String>,
    /// Whether matching tests are marked flaky.
    pub flaky: Option<bool>,
}

impl Category {
    /// A category with the given name and no rules.
    pub fn new(name: String) -> (r: Self)
        ensures
            r.name == name,
            r.matched_statuses@.len() == 0,
            r.message_regex is None,
            r.trace_regex is None,
            r.flaky is None,
    {
        Category {
            name,
            matched_statuses: Vec::new(),
            message_regex: None,
            trace_regex: None,
            flaky: None,
        }
    }

    /// Adds a matched status.
    pub fn with_status(self, status: Status) -> (r: Self)
        ensures
            r.matched_statuses@ == self.matched_statuses@.push(status),
            r == (Category { matched_statuses: r.matched_statuses, ..self }),
    {
        let mut c = self;
        c.matched_statuses.push(status);
        c
    }

    /// Sets the message pattern.
    pub fn with_message_regex(self, regex: String) -> (r: Self)
        ensures
            r == (Category { message_regex: Some(regex), ..self }),
    {
        let mut c = self;
        c.message_regex = Some(regex);
        c
    }

    /// Sets the trace pattern.
    pub fn with_trace_regex(self, regex: String) -> (r: Self)
        ensures
            r == (Category { trace_regex: Some(regex), ..self }),
    {
        let mut c = self;
        c.trace_regex = Some(regex);
        c
    }

    /// Marks matching tests flaky.
    pub fn as_flaky(self) -> (r: Self)
        ensures
            r == (Category { flaky: Some(true), ..self }),
    {
        let mut c = self;
        c.flaky = Some(true);
        c
    }
}

/// The current time in milliseconds since the Unix epoch.
pub fn current_time_ms() -> i64 {
    now_ms()
}

} // verus!
