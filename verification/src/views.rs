//! Mathematical views of the data model: each record type has a ghost
//! counterpart whose strings are character sequences and whose collections
//! are sequences, and an `abs` function mapping a value to its view.
//! Contracts about encoding and decoding are stated over these views.

use vstd::prelude::*;

use crate::enums::LinkType;
use crate::enums::ParameterMode;
use crate::enums::Stage;
use crate::enums::Status;
use crate::model::Attachment;
use crate::model::Category;
use crate::model::FixtureResult;
use crate::model::Label;
use crate::model::Link;
use crate::model::Parameter;
use crate::model::StatusDetails;
use crate::model::StepResult;
use crate::model::TestResult;
use crate::model::TestResultContainer;

verus! {

/// View of a label.
pub struct LabelAbs {
    /// Label name.
    pub name: Seq<char>,
    /// Label value.
    pub value: Seq<char>,
}

/// View of a link.
pub struct LinkAbs {
    /// Display name.
    pub name: Option<Seq<char>>,
    /// URL.
    pub url: Seq<char>,
    /// Kind of the link.
    pub link_type: Option<LinkType>,
}

/// View of a parameter.
pub struct ParameterAbs {
    /// Parameter name.
    pub name: Seq<char>,
    /// Parameter value.
    pub value: Seq<char>,
    /// Whether the parameter is left out of the history id.
    pub excluded: Option<bool>,
    /// Display mode.
    pub mode: Option<ParameterMode>,
}

/// View of an attachment reference.
pub struct AttachmentAbs {
    /// Display name.
    pub name: Seq<char>,
    /// Stored file name.
    pub source: Seq<char>,
    /// MIME type.
    pub mime_type: Option<Seq<char>>,
}

/// View of status details.
pub struct DetailsAbs {
    /// Known issue flag.
    pub known: Option<bool>,
    /// Muted flag.
    pub muted: Option<bool>,
    /// Flaky flag.
    pub flaky: Option<bool>,
    /// Error message.
    pub message: Option<Seq<char>>,
    /// Stack trace.
    pub trace: Option<Seq<char>>,
}

/// View of a step: the same shape as the step itself, with nested step views.
pub struct StepAbs {
    /// Optional identifier.
    pub uuid: Option<Seq<char>>,
    /// Step name.
    pub name: Seq<char>,
    /// Outcome.
    pub status: Status,
    /// Outcome detail.
    pub status_details: Option<DetailsAbs>,
    /// Stage.
    pub stage: Stage,
    /// Nested step views.
    pub steps: Seq<StepAbs>,
    /// Attachment views.
    pub attachments: Seq<AttachmentAbs>,
    /// Parameter views.
    pub parameters: Seq<ParameterAbs>,
    /// Start time.
    pub start: int,
    /// Stop time.
    pub stop: int,
}

/// View of a test result.
pub struct ResultAbs {
    /// Identifier.
    pub uuid: Seq<char>,
    /// History id.
    pub history_id: Option<Seq<char>>,
    /// Test case id.
    pub test_case_id: Option<Seq<char>>,
    /// Display name.
    pub name: Seq<char>,
    /// Fully qualified name.
    pub full_name: Option<Seq<char>>,
    /// Markdown description.
    pub description: Option<Seq<char>>,
    /// HTML description.
    pub description_html: Option<Seq<char>>,
    /// Outcome.
    pub status: Status,
    /// Outcome detail.
    pub status_details: Option<DetailsAbs>,
    /// Stage.
    pub stage: Stage,
    /// Top-level step views.
    pub steps: Seq<StepAbs>,
    /// Attachment views.
    pub attachments: Seq<AttachmentAbs>,
    /// Parameter views.
    pub parameters: Seq<ParameterAbs>,
    /// Label views.
    pub labels: Seq<LabelAbs>,
    /// Link views.
    pub links: Seq<LinkAbs>,
    /// Start time.
    pub start: int,
    /// Stop time.
    pub stop: int,
}

/// View of a fixture result.
pub struct FixtureAbs {
    /// Fixture name.
    pub name: Seq<char>,
    /// Outcome.
    pub status: Status,
    /// Outcome detail.
    pub status_details: Option<DetailsAbs>,
    /// Stage.
    pub stage: Stage,
    /// Nested step views.
    pub steps: Seq<StepAbs>,
    /// Attachment views.
    pub attachments: Seq<AttachmentAbs>,
    /// Parameter views.
    pub parameters: Seq<ParameterAbs>,
    /// Start time.
    pub start: int,
    /// Stop time.
    pub stop: int,
}

/// View of a container.
pub struct ContainerAbs {
    /// Identifier.
    pub uuid: Seq<char>,
    /// Container name.
    pub name: Option<Seq<char>>,
    /// Identifiers of grouped results.
    pub children: Seq<Seq<char>>,
    /// Setup fixture views.
    pub befores: Seq<FixtureAbs>,
    /// Teardown fixture views.
    pub afters: Seq<FixtureAbs>,
    /// Start of the time window.
    pub start: Option<int>,
    /// End of the time window.
    pub stop: Option<int>,
}

/// View of a defect category.
pub struct CategoryAbs {
    /// Category name.
    pub name: Seq<char>,
    /// Matched statuses.
    pub matched_statuses: Seq<Status>,
    /// Message pattern.
    pub message_regex: Option<Seq<char>>,
    /// Trace pattern.
    pub trace_regex: Option<Seq<char>>,
    /// Flaky flag.
    pub flaky: Option<bool>,
}

/// The view of an optional string.
pub open spec fn opt_str_abs(v: Option<String>) -> Option<Seq<char>> {
    match v {
        Some(s) => Some(s@),
        None => None,
    }
}

impl Label {
    /// The view of this label.
    pub open spec fn abs(self) -> LabelAbs {
        LabelAbs { name: self.name@, value: self.value@ }
    }
}

impl Link {
    /// The view of this link.
    pub open spec fn abs(self) -> LinkAbs {
        LinkAbs { name: opt_str_abs(self.name), url: self.url@, link_type: self.link_type }
    }
}

impl Parameter {
    /// The view of this parameter.
    pub open spec fn abs(self) -> ParameterAbs {
        ParameterAbs {
            name: self.name@,
            value: self.value@,
            excluded: self.excluded,
            mode: self.mode,
        }
    }
}

impl Attachment {
    /// The view of this attachment reference.
    pub open spec fn abs(self) -> AttachmentAbs {
        AttachmentAbs {
            name: self.name@,
            source: self.source@,
            mime_type: opt_str_abs(self.mime_type),
        }
    }
}

impl StatusDetails {
    /// The view of these details.
    pub open spec fn abs(self) -> DetailsAbs {
        DetailsAbs {
            known: self.known,
            muted: self.muted,
            flaky: self.flaky,
            message: opt_str_abs(self.message),
            trace: opt_str_abs(self.trace),
        }
    }
}

/// The view of optional status details.
pub open spec fn opt_details_abs(v: Option<StatusDetails>) -> Option<DetailsAbs> {
    match v {
        Some(d) => Some(d.abs()),
        None => None,
    }
}

/// The views of the first `n` steps of a sequence, in order.
pub open spec fn steps_abs_to(steps: Seq<StepResult>, n: int) -> Seq<StepAbs>
    decreases steps, 0int, n,
{
    if n <= 0 || n > steps.len() {
        Seq::empty()
    } else {
        steps_abs_to(steps, n - 1).push(steps[n - 1].abs())
    }
}

/// The views of a step sequence.
pub open spec fn steps_abs(steps: Seq<StepResult>) -> Seq<StepAbs> {
    steps_abs_to(steps, steps.len() as int)
}

impl StepResult {
    /// The view of this step, nested steps included.
    pub open spec fn abs(self) -> StepAbs
        decreases self, 1int, 0int,
    {
        StepAbs {
            uuid: opt_str_abs(self.uuid),
            name: self.name@,
            status: self.status,
            status_details: opt_details_abs(self.status_details),
            stage: self.stage,
            steps: steps_abs_to(self.steps@, self.steps@.len() as int),
            attachments: self.attachments@.map_values(|a: Attachment| a.abs()),
            parameters: self.parameters@.map_values(|p: Parameter| p.abs()),
            start: self.start as int,
            stop: self.stop as int,
        }
    }
}

/// The views of the first `n` steps are the views of those steps.
pub proof fn lemma_steps_abs_to_index(steps: Seq<StepResult>, n: int, i: int)
    requires
        0 <= n <= steps.len(),
        0 <= i < n,
    ensures
        steps_abs_to(steps, n).len() == n,
        steps_abs_to(steps, n)[i] == steps[i].abs(),
    decreases n,
{
    lemma_steps_abs_to_len(steps, n);
    if i < n - 1 {
        lemma_steps_abs_to_index(steps, n - 1, i);
    }
}

/// The first `n` step views are `n` views.
pub proof fn lemma_steps_abs_to_len(steps: Seq<StepResult>, n: int)
    requires
        0 <= n <= steps.len(),
    ensures
        steps_abs_to(steps, n).len() == n,
    decreases n,
{
    if n > 0 {
        lemma_steps_abs_to_len(steps, n - 1);
    }
}

/// Appending a step appends its view.
pub proof fn lemma_steps_abs_push(steps: Seq<StepResult>, s: StepResult)
    ensures
        steps_abs(steps.push(s)) == steps_abs(steps).push(s.abs()),
{
    let n = steps.len() as int;
    lemma_steps_abs_to_len(steps, n);
    lemma_steps_abs_to_len(steps.push(s), n + 1);
    assert forall|i: int| 0 <= i < n + 1 implies steps_abs_to(steps.push(s), n + 1)[i]
        == steps_abs(steps).push(s.abs())[i] by {
        lemma_steps_abs_to_index(steps.push(s), n + 1, i);
        if i < n {
            lemma_steps_abs_to_index(steps, n, i);
            assert(steps.push(s)[i] == steps[i]);
        } else {
            assert(steps.push(s)[i] == s);
        }
    }
    assert(steps_abs(steps.push(s)) =~= steps_abs(steps).push(s.abs()));
}

/// The view of a step sequence is its members' views.
pub proof fn lemma_steps_abs_index(steps: Seq<StepResult>, i: int)
    requires
        0 <= i < steps.len(),
    ensures
        steps_abs(steps).len() == steps.len(),
        steps_abs(steps)[i] == steps[i].abs(),
{
    lemma_steps_abs_to_index(steps, steps.len() as int, i);
}

impl TestResult {
    /// The view of this result, steps included.
    pub open spec fn abs(self) -> ResultAbs {
        ResultAbs {
            uuid: self.uuid@,
            history_id: opt_str_abs(self.history_id),
            test_case_id: opt_str_abs(self.test_case_id),
            name: self.name@,
            full_name: opt_str_abs(self.full_name),
            description: opt_str_abs(self.description),
            description_html: opt_str_abs(self.description_html),
            status: self.status,
            status_details: opt_details_abs(self.status_details),
            stage: self.stage,
            steps: steps_abs(self.steps@),
            attachments: self.attachments@.map_values(|a: Attachment| a.abs()),
            parameters: self.parameters@.map_values(|p: Parameter| p.abs()),
            labels: self.labels@.map_values(|l: Label| l.abs()),
            links: self.links@.map_values(|l: Link| l.abs()),
            start: self.start as int,
            stop: self.stop as int,
        }
    }
}

impl FixtureResult {
    /// The view of this fixture.
    pub open spec fn abs(self) -> FixtureAbs {
        FixtureAbs {
            name: self.name@,
            status: self.status,
            status_details: opt_details_abs(self.status_details),
            stage: self.stage,
            steps: steps_abs(self.steps@),
            attachments: self.attachments@.map_values(|a: Attachment| a.abs()),
            parameters: self.parameters@.map_values(|p: Parameter| p.abs()),
            start: self.start as int,
            stop: self.stop as int,
        }
    }
}

/// The view of an optional time.
pub open spec fn opt_time_abs(v: Option<i64>) -> Option<int> {
    match v {
        Some(t) => Some(t as int),
        None => None,
    }
}

impl TestResultContainer {
    /// The view of this container.
    pub open spec fn abs(self) -> ContainerAbs {
        ContainerAbs {
            uuid: self.uuid@,
            name: opt_str_abs(self.name),
            children: self.children@.map_values(|c: String| c@),
            befores: self.befores@.map_values(|f: FixtureResult| f.abs()),
            afters: self.afters@.map_values(|f: FixtureResult| f.abs()),
            start: opt_time_abs(self.start),
            stop: opt_time_abs(self.stop),
        }
    }
}

impl Category {
    /// The view of this category.
    pub open spec fn abs(self) -> CategoryAbs {
        CategoryAbs {
            name: self.name@,
            matched_statuses: self.matched_statuses@,
            message_regex: opt_str_abs(self.message_regex),
            trace_regex: opt_str_abs(self.trace_regex),
            flaky: self.flaky,
        }
    }
}

} // verus!
