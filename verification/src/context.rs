//! The runtime context of one test: its result under construction, the
//! stack of open steps, and the finalizer that force-closes dangling steps,
//! stamps the history id, applies the terminal status and derives the files
//! to persist.

use vstd::prelude::*;

use crate::enums::LabelName;
use crate::enums::LinkType;
use crate::enums::Stage;
use crate::enums::Status;
use crate::history::compute_history_id;
use crate::history::spec_history_input;
use crate::machine::machine_of;
use crate::machine::step1;
use crate::machine::StepEvent;
use crate::model::spec_failure_details;
use crate::model::Attachment;
use crate::model::Label;
use crate::model::Parameter;
use crate::model::StatusDetails;
use crate::model::StepResult;
use crate::model::TestResult;
use crate::model::TestResultContainer;
use crate::trusted::host_name;
use crate::trusted::md5_hex_of;
use crate::trusted::now_ms;
use crate::writer::AllureWriter;
use crate::writer::OutputFile;

verus! {

/// The step a finished step becomes: terminal stage, the closing status, a
/// fresh stop time; a pass clears the detail, a failure or breakage records
/// the supplied message and trace, any other status leaves the detail alone.
pub open spec fn spec_close_step(
    s: StepResult,
    status: Status,
    message: Option<String>,
    trace: Option<String>,
    stop: i64,
) -> StepResult {
    match status {
        Status::Passed => StepResult {
            status: Status::Passed,
            stage: Stage::Finished,
            status_details: None,
            stop,
            ..s
        },
        Status::Failed => StepResult {
            status: Status::Failed,
            stage: Stage::Finished,
            status_details: if message is Some || trace is Some {
                spec_failure_details(message, trace)
            } else {
                s.status_details
            },
            stop,
            ..s
        },
        Status::Broken => StepResult {
            status: Status::Broken,
            stage: Stage::Finished,
            status_details: if message is Some || trace is Some {
                spec_failure_details(message, trace)
            } else {
                s.status_details
            },
            stop,
            ..s
        },
        _ => StepResult { status, stage: Stage::Finished, stop, ..s },
    }
}

/// The runtime context of one test.
#[derive(Debug)]
pub struct TestContext {
    /// The result under construction.
    pub result: TestResult,
    /// The open steps, outermost first.
    pub step_stack: Vec<StepResult>,
    /// Derives the artifact files for this context.
    pub writer: AllureWriter,
}

impl TestContext {
    /// A fresh context: a new result under the given names, default labels
    /// for language and framework, a host label when the platform reports a
    /// host name, and no open steps.
    pub fn new(name: String, full_name: String) -> (r: Self)
        ensures
            r.result.name == name,
            r.result.full_name matches Some(f) && f == full_name,
            r.result.status == Status::Unknown,
            r.result.stage == Stage::Running,
            r.result.history_id is None,
            r.result.status_details is None,
            r.result.steps@.len() == 0,
            r.result.parameters@.len() == 0,
            r.result.attachments@.len() == 0,
            r.result.links@.len() == 0,
            2 <= r.result.labels@.len() <= 3,
            r.result.labels@[0].name@ == LabelName::Language.spec_str(),
            r.result.labels@[0].value@ == "rust"@,
            r.result.labels@[1].name@ == LabelName::Framework.spec_str(),
            r.result.labels@[1].value@ == "allure-rs"@,
            r.result.labels@.len() == 3 ==> r.result.labels@[2].name@
                == LabelName::Host.spec_str(),
            r.step_stack@.len() == 0,
    {
        let uuid = crate::trusted::generate_uuid();
        let mut result = TestResult::new(uuid, name);
        result.full_name = Some(full_name);
        result.add_label_name(LabelName::Language, String::from_str("rust"));
        result.add_label_name(LabelName::Framework, String::from_str("allure-rs"));
        match host_name() {
            Some(host) => {
                result.add_label_name(LabelName::Host, host);
            },
            None => (),
        }
        TestContext { result, step_stack: Vec::new(), writer: AllureWriter::new() }
    }

    /// Appends a label to the test.
    pub fn add_label(&mut self, name: String, value: String)
        ensures
            final(self).result.labels@ == old(self).result.labels@.push((Label { name, value })),
            final(self).result == (TestResult {
                labels: final(self).result.labels,
                ..old(self).result
            }),
            final(self).step_stack@ == old(self).step_stack@,
            final(self).writer == old(self).writer,
    {
        self.result.add_label(name, value);
    }

    /// Appends a label under a reserved name.
    pub fn add_label_name(&mut self, name: LabelName, value: String)
        ensures
            final(self).result.labels@.len() == old(self).result.labels@.len() + 1,
            final(self).result.labels@.drop_last() == old(self).result.labels@,
            final(self).result.labels@.last().name@ == name.spec_str(),
            final(self).result.labels@.last().value == value,
            final(self).result == (TestResult {
                labels: final(self).result.labels,
                ..old(self).result
            }),
            final(self).step_stack@ == old(self).step_stack@,
            final(self).writer == old(self).writer,
    {
        self.result.add_label_name(name, value);
    }

    /// Appends a link to the test.
    pub fn add_link(&mut self, url: String, name: Option<String>, link_type: LinkType)
        ensures
            final(self).result.links@ == old(self).result.links@.push(
                (crate::model::Link { name, url, link_type: Some(link_type) }),
            ),
            final(self).result == (TestResult {
                links: final(self).result.links,
                ..old(self).result
            }),
            final(self).step_stack@ == old(self).step_stack@,
            final(self).writer == old(self).writer,
    {
        self.result.add_link(url, name, link_type);
    }

    /// Appends a plain parameter to the innermost open step, or to the test
    /// itself when no step is open.
    pub fn add_parameter(&mut self, name: String, value: String)
        ensures
            ({
                let p = Parameter { name, value, excluded: None, mode: None };
                if old(self).step_stack@.len() > 0 {
                    &&& final(self).result == old(self).result
                    &&& final(self).step_stack@ == old(self).step_stack@.update(
                        old(self).step_stack@.len() - 1,
                        (StepResult {
                            parameters: final(self).step_stack@.last().parameters,
                            ..old(self).step_stack@.last()
                        }),
                    )
                    &&& final(self).step_stack@.last().parameters@ == old(
                        self,
                    ).step_stack@.last().parameters@.push(p)
                } else {
                    &&& final(self).result.parameters@ == old(self).result.parameters@.push(p)
                    &&& final(self).result == (TestResult {
                        parameters: final(self).result.parameters,
                        ..old(self).result
                    })
                    &&& final(self).step_stack@ == old(self).step_stack@
                }
            }),
            final(self).writer == old(self).writer,
    {
        let param = Parameter { name, value, excluded: None, mode: None };
        self.add_parameter_struct(param);
    }

    /// Appends a parameter record to the innermost open step, or to the test
    /// itself when no step is open.
    pub fn add_parameter_struct(&mut self, parameter: Parameter)
        ensures
            (if old(self).step_stack@.len() > 0 {
                &&& final(self).result == old(self).result
                &&& final(self).step_stack@ == old(self).step_stack@.update(
                    old(self).step_stack@.len() - 1,
                    (StepResult {
                        parameters: final(self).step_stack@.last().parameters,
                        ..old(self).step_stack@.last()
                    }),
                )
                &&& final(self).step_stack@.last().parameters@ == old(
                    self,
                ).step_stack@.last().parameters@.push(parameter)
            } else {
                &&& final(self).result.parameters@ == old(self).result.parameters@.push(parameter)
                &&& final(self).result == (TestResult {
                    parameters: final(self).result.parameters,
                    ..old(self).result
                })
                &&& final(self).step_stack@ == old(self).step_stack@
            }),
            final(self).writer == old(self).writer,
    {
        let ghost pre = self.step_stack@;
        match self.step_stack.pop() {
            Some(mut st) => {
                st.parameters.push(parameter);
                self.step_stack.push(st);
                proof {
                    assert(self.step_stack@ =~= pre.update(
                        pre.len() - 1,
                        (StepResult { parameters: self.step_stack@.last().parameters, ..pre.last()
                        }),
                    ));
                }
            },
            None => {
                self.result.parameters.push(parameter);
            },
        }
    }

    /// Appends an attachment reference to the innermost open step, or to the
    /// test itself when no step is open.
    pub fn add_attachment(&mut self, attachment: Attachment)
        ensures
            (if old(self).step_stack@.len() > 0 {
                &&& final(self).result == old(self).result
                &&& final(self).step_stack@ == old(self).step_stack@.update(
                    old(self).step_stack@.len() - 1,
                    (StepResult {
                        attachments: final(self).step_stack@.last().attachments,
                        ..old(self).step_stack@.last()
                    }),
                )
                &&& final(self).step_stack@.last().attachments@ == old(
                    self,
                ).step_stack@.last().attachments@.push(attachment)
            } else {
                &&& final(self).result.attachments@ == old(self).result.attachments@.push(
                    attachment,
                )
                &&& final(self).result == (TestResult {
                    attachments: final(self).result.attachments,
                    ..old(self).result
                })
                &&& final(self).step_stack@ == old(self).step_stack@
            }),
            final(self).writer == old(self).writer,
    {
        let ghost pre = self.step_stack@;
        match self.step_stack.pop() {
            Some(mut st) => {
                st.attachments.push(attachment);
                self.step_stack.push(st);
                proof {
                    assert(self.step_stack@ =~= pre.update(
                        pre.len() - 1,
                        (StepResult { attachments: self.step_stack@.last().attachments, ..pre.last()
                        }),
                    ));
                }
            },
            None => {
                self.result.attachments.push(attachment);
            },
        }
    }

    /// Opens a new step: pushes a fresh open step under the given name.
    pub fn start_step(&mut self, name: String)
        ensures
            final(self).step_stack@.len() == old(self).step_stack@.len() + 1,
            final(self).step_stack@.drop_last() == old(self).step_stack@,
            ({
                let st = final(self).step_stack@.last();
                &&& st.name == name
                &&& st.status == Status::Unknown
                &&& st.stage == Stage::Running
                &&& st.status_details is None
                &&& st.uuid is None
                &&& st.steps@.len() == 0
                &&& st.attachments@.len() == 0
                &&& st.parameters@.len() == 0
                &&& st.start == st.stop
            }),
            final(self).result == old(self).result,
            final(self).writer == old(self).writer,
            machine_of(final(self).result.steps@, final(self).step_stack@) == step1(
                machine_of(old(self).result.steps@, old(self).step_stack@),
                (StepEvent::Start { name: name@ }),
            ),
    {
        let ghost pre = self.step_stack@;
        let step = StepResult::new(name);
        self.step_stack.push(step);
        proof {
            assert(self.step_stack@.drop_last() =~= pre);
            crate::machine::lemma_shapes_push(pre, step);
            assert(crate::machine::shapes_to(step.steps@, step.steps@.len() as int)
                =~= Seq::empty());
            assert(crate::machine::shape_of(step) == (crate::machine::StepTree {
                name: name@,
                status: Status::Unknown,
                kids: Seq::empty(),
            }));
        }
    }

    /// Closes the innermost open step: pops it, applies the terminal rules
    /// for the given status, and appends it to the children of the next open
    /// step, or to the test's own steps when none remains open. With no open
    /// step it does nothing.
    pub fn finish_step(&mut self, status: Status, message: Option<String>, trace: Option<String>)
        ensures
            old(self).step_stack@.len() == 0 ==> (final(self).result == old(self).result
                && final(self).step_stack@ == old(self).step_stack@),
            old(self).step_stack@.len() == 1 ==> {
                &&& final(self).step_stack@.len() == 0
                &&& final(self).result.steps@.len() == old(self).result.steps@.len() + 1
                &&& final(self).result.steps@.drop_last() == old(self).result.steps@
                &&& final(self).result.steps@.last() == spec_close_step(
                    old(self).step_stack@.last(),
                    status,
                    message,
                    trace,
                    final(self).result.steps@.last().stop,
                )
                &&& final(self).result == (TestResult {
                    steps: final(self).result.steps,
                    ..old(self).result
                })
            },
            old(self).step_stack@.len() > 1 ==> {
                &&& final(self).result == old(self).result
                &&& final(self).step_stack@.len() == old(self).step_stack@.len() - 1
                &&& final(self).step_stack@ == old(self).step_stack@.drop_last().update(
                    old(self).step_stack@.len() - 2,
                    (StepResult {
                        steps: final(self).step_stack@.last().steps,
                        ..old(self).step_stack@[old(self).step_stack@.len() - 2]
                    }),
                )
                &&& final(self).step_stack@.last().steps@ == old(self).step_stack@[old(
                    self,
                ).step_stack@.len() - 2].steps@.push(
                    spec_close_step(
                        old(self).step_stack@.last(),
                        status,
                        message,
                        trace,
                        final(self).step_stack@.last().steps@.last().stop,
                    ),
                )
            },
            final(self).writer == old(self).writer,
            machine_of(final(self).result.steps@, final(self).step_stack@) == step1(
                machine_of(old(self).result.steps@, old(self).step_stack@),
                (StepEvent::Finish { status }),
            ),
    {
        let ghost pre_stack = self.step_stack@;
        let ghost pre_steps = self.result.steps@;
        match self.step_stack.pop() {
            Some(mut step) => {
                match status {
                    Status::Passed => step.pass(),
                    Status::Failed => step.fail(message, trace),
                    Status::Broken => step.broken(message, trace),
                    _ => {
                        step.status = status;
                        step.stage = Stage::Finished;
                        step.stop = now_ms();
                    },
                }
                proof {
                    assert(step == spec_close_step(
                        pre_stack.last(),
                        status,
                        message,
                        trace,
                        step.stop,
                    ));
                    assert(crate::machine::shape_of(step) == (crate::machine::StepTree {
                        status,
                        ..crate::machine::shape_of(pre_stack.last())
                    }));
                }
                let ghost closed = step;
                if self.step_stack.len() > 0 {
                    let ghost mid_stack = self.step_stack@;
                    let mut parent = self.step_stack.pop().unwrap();
                    parent.steps.push(step);
                    self.step_stack.push(parent);
                    proof {
                        assert(self.step_stack@ =~= pre_stack.drop_last().update(
                            pre_stack.len() - 2,
                            (StepResult {
                                steps: self.step_stack@.last().steps,
                                ..pre_stack[pre_stack.len() - 2]
                            }),
                        ));
                        crate::machine::lemma_shapes_drop_last(pre_stack);
                        crate::machine::lemma_shapes_update(
                            pre_stack.drop_last(),
                            pre_stack.len() - 2,
                            self.step_stack@.last(),
                        );
                        crate::machine::lemma_shapes_push(
                            pre_stack[pre_stack.len() - 2].steps@,
                            closed,
                        );
                        crate::machine::lemma_shapes_to_index(pre_stack, pre_stack.len() as int,
                            pre_stack.len() - 2);
                        crate::machine::lemma_shapes_to_index(pre_stack, pre_stack.len() as int,
                            pre_stack.len() - 1);
                        assert(machine_of(self.result.steps@, self.step_stack@).stack
                            =~= step1(
                            machine_of(pre_steps, pre_stack),
                            (StepEvent::Finish { status }),
                        ).stack);
                    }
                } else {
                    self.result.steps.push(step);
                    proof {
                        assert(self.result.steps@.drop_last() =~= pre_steps);
                        crate::machine::lemma_shapes_push(pre_steps, closed);
                        crate::machine::lemma_shapes_drop_last(pre_stack);
                        crate::machine::lemma_shapes_to_index(pre_stack, pre_stack.len() as int,
                            pre_stack.len() - 1);
                        assert(machine_of(self.result.steps@, self.step_stack@).stack
                            =~= step1(
                            machine_of(pre_steps, pre_stack),
                            (StepEvent::Finish { status }),
                        ).stack);
                    }
                }
            },
            None => {
                proof {
                    assert(crate::machine::shapes(pre_stack) =~= Seq::empty());
                }
            },
        }
    }

    /// Finishes the test. Any step still open is force-closed as broken with
    /// the fixed diagnostic, so no dangling step reaches the output; the
    /// history id is stamped; the terminal status is applied (a skip records
    /// the supplied reason, a pass keeps earlier details such as flaky
    /// flags); and the two files to persist come back: the result file and a
    /// container whose only child is this result, sharing its time window.
    pub fn finish(
        &mut self,
        status: Status,
        message: Option<String>,
        trace: Option<String>,
    ) -> (files: (OutputFile, OutputFile))
        ensures
            final(self).step_stack@.len() == 0,
            final(self).result.status == status,
            final(self).result.stage == Stage::Finished,
            final(self).result.status_details == (match status {
                Status::Failed => if message is Some || trace is Some {
                    spec_failure_details(message, trace)
                } else {
                    old(self).result.status_details
                },
                Status::Broken => if message is Some || trace is Some {
                    spec_failure_details(message, trace)
                } else {
                    old(self).result.status_details
                },
                Status::Skipped => if message is Some || trace is Some {
                    spec_failure_details(message, trace)
                } else {
                    old(self).result.status_details
                },
                _ => old(self).result.status_details,
            }),
            (match old(self).result.full_name {
                Some(f) => {
                    &&& final(self).result.history_id matches Some(h)
                    &&& h@ == md5_hex_of(spec_history_input(f@, old(self).result.parameters@))
                    &&& h@.len() == 32
                },
                None => final(self).result.history_id == old(self).result.history_id,
            }),
            old(self).step_stack@.len() == 0 ==> final(self).result.steps@ == old(
                self,
            ).result.steps@,
            old(self).step_stack@.len() >= 1 ==> {
                &&& final(self).result.steps@.len() == old(self).result.steps@.len() + 1
                &&& final(self).result.steps@.drop_last() == old(self).result.steps@
                &&& final(self).result.steps@.last().status == Status::Broken
                &&& final(self).result.steps@.last().stage == Stage::Finished
                &&& final(self).result.steps@.last().status_details matches Some(d)
                    && d.message matches Some(m) && m@ == "Step not completed"@ && d.trace is None
            },
            old(self).step_stack@.len() == 1 ==> {
                let b = final(self).result.steps@.last();
                b == spec_close_step(
                    old(self).step_stack@.last(),
                    Status::Broken,
                    b.status_details->0.message,
                    None,
                    b.stop,
                )
            },
            final(self).result == (TestResult {
                history_id: final(self).result.history_id,
                status: final(self).result.status,
                status_details: final(self).result.status_details,
                stage: final(self).result.stage,
                steps: final(self).result.steps,
                stop: final(self).result.stop,
                ..old(self).result
            }),
            final(self).writer == old(self).writer,
            files.0.name@ == final(self).result.uuid@ + "-result.json"@,
            files.0.content@ == crate::json::spec_render(
                crate::codec::spec_result_json(final(self).result.abs()),
            ),
            files.1.name@.len() == 36 + "-container.json"@.len(),
            files.1.name@.skip(36) == "-container.json"@,
            files.1.content@ == crate::json::spec_render(
                crate::codec::spec_container_json(
                    (crate::views::ContainerAbs {
                        uuid: files.1.name@.take(36),
                        name: None,
                        children: seq![final(self).result.uuid@],
                        befores: Seq::empty(),
                        afters: Seq::empty(),
                        start: Some(final(self).result.start as int),
                        stop: Some(final(self).result.stop as int),
                    }),
                ),
            ),
    {
        let ghost old_stack_len = old(self).step_stack@.len();
        while self.step_stack.len() > 0
            invariant
                self.result == (TestResult { steps: self.result.steps, ..old(self).result }),
                self.writer == old(self).writer,
                old_stack_len == old(self).step_stack@.len(),
                self.step_stack@.len() <= old_stack_len,
                self.step_stack@.len() > 0 ==> self.result.steps@ == old(self).result.steps@,
                (self.step_stack@.len() == 0 && old_stack_len == 0) ==> self.result.steps@ == old(
                    self,
                ).result.steps@,
                (self.step_stack@.len() == 0 && old_stack_len >= 1) ==> {
                    &&& self.result.steps@.len() == old(self).result.steps@.len() + 1
                    &&& self.result.steps@.drop_last() == old(self).result.steps@
                    &&& self.result.steps@.last().status == Status::Broken
                    &&& self.result.steps@.last().stage == Stage::Finished
                    &&& self.result.steps@.last().status_details matches Some(d)
                        && d.message matches Some(m) && m@ == "Step not completed"@
                        && d.trace is None
                },
                (old_stack_len == 1 && self.step_stack@.len() > 0) ==> self.step_stack@ == old(
                    self,
                ).step_stack@,
                (old_stack_len == 1 && self.step_stack@.len() == 0) ==> {
                    let b = self.result.steps@.last();
                    b == spec_close_step(
                        old(self).step_stack@.last(),
                        Status::Broken,
                        b.status_details->0.message,
                        None,
                        b.stop,
                    )
                },
            decreases self.step_stack@.len(),
        {
            let msg = String::from_str("Step not completed");
            self.finish_step(Status::Broken, Some(msg), None);
        }
        self.compute_history_id();
        match status {
            Status::Passed => self.result.pass(),
            Status::Failed => self.result.fail(message, trace),
            Status::Broken => self.result.broken(message, trace),
            Status::Skipped => {
                if message.is_some() || trace.is_some() {
                    self.result.status_details = Some(
                        StatusDetails { known: None, muted: None, flaky: None, message, trace },
                    );
                }
                self.result.status = Status::Skipped;
                self.result.finish();
            },
            _ => {
                self.result.status = status;
                self.result.finish();
            },
        }
        let result_file = self.writer.plan_test_result(&self.result);
        let mut container = TestResultContainer::new(crate::trusted::generate_uuid());
        container.add_child(self.result.uuid.clone());
        container.start = Some(self.result.start);
        container.stop = Some(self.result.stop);
        let container_file = self.writer.plan_container(&container);
        proof {
            assert(container_file.name@.take(36) =~= container.uuid@);
            assert(container_file.name@.skip(36) =~= "-container.json"@);
            assert(container.abs().children =~= seq![self.result.uuid@]);
            assert(container.abs().befores =~= Seq::<crate::views::FixtureAbs>::empty());
            assert(container.abs().afters =~= Seq::<crate::views::FixtureAbs>::empty());
            assert(container.abs() == (crate::views::ContainerAbs {
                uuid: container_file.name@.take(36),
                name: None,
                children: seq![self.result.uuid@],
                befores: Seq::empty(),
                afters: Seq::empty(),
                start: Some(self.result.start as int),
                stop: Some(self.result.stop as int),
            }));
        }
        (result_file, container_file)
    }

    /// Stamps the history id: the digest of the full name and the
    /// non-excluded parameters. A result without a full name keeps its
    /// history id as it is.
    pub fn compute_history_id(&mut self)
        ensures
            (match old(self).result.full_name {
                Some(f) => {
                    &&& final(self).result.history_id matches Some(h)
                    &&& h@ == md5_hex_of(
                        spec_history_input(f@, old(self).result.parameters@),
                    )
                    &&& h@.len() == 32
                },
                None => final(self).result.history_id == old(self).result.history_id,
            }),
            final(self).result == (TestResult {
                history_id: final(self).result.history_id,
                ..old(self).result
            }),
            final(self).step_stack@ == old(self).step_stack@,
            final(self).writer == old(self).writer,
    {
        let id = match &self.result.full_name {
            Some(full_name) => Some(compute_history_id(full_name.as_str(), &self.result.parameters)),
            None => None,
        };
        match id {
            Some(h) => {
                self.result.history_id = Some(h);
            },
            None => (),
        }
    }
}

} // verus!
