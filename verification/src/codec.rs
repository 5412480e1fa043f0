//! The JSON encoding of the data model, and its decoding. The encoder
//! writes members in declaration order, leaves absent options and empty
//! collections out, renders names in camelCase and statuses in the fixed
//! lowercase vocabulary; the decoder reads that layout back. Decoding an
//! encoded result recovers it field for field.

use vstd::prelude::*;

use crate::enums::LinkType;
use crate::enums::ParameterMode;
use crate::enums::Stage;
use crate::enums::Status;
use crate::json::JsonAbs;
use crate::views::AttachmentAbs;
use crate::views::CategoryAbs;
use crate::views::ContainerAbs;
use crate::views::DetailsAbs;
use crate::views::FixtureAbs;
use crate::views::LabelAbs;
use crate::views::LinkAbs;
use crate::views::ParameterAbs;
use crate::views::ResultAbs;
use crate::views::StepAbs;

verus! {

/// One required member.
pub open spec fn fld(key: Seq<char>, v: JsonAbs) -> Seq<(Seq<char>, JsonAbs)> {
    seq![(key, v)]
}

/// An optional string member: absent when the option is.
pub open spec fn opt_str_fld(key: Seq<char>, v: Option<Seq<char>>) -> Seq<(Seq<char>, JsonAbs)> {
    match v {
        Some(s) => seq![(key, JsonAbs::Str(s))],
        None => Seq::empty(),
    }
}

/// An optional boolean member: absent when the option is.
pub open spec fn opt_bool_fld(key: Seq<char>, v: Option<bool>) -> Seq<(Seq<char>, JsonAbs)> {
    match v {
        Some(b) => seq![(key, JsonAbs::Bool(b))],
        None => Seq::empty(),
    }
}

/// A collection member: absent when the collection is empty.
pub open spec fn arr_fld(key: Seq<char>, items: Seq<JsonAbs>) -> Seq<(Seq<char>, JsonAbs)> {
    if items.len() == 0 {
        Seq::empty()
    } else {
        seq![(key, JsonAbs::Arr(items))]
    }
}

/// The encoding of a label.
pub open spec fn spec_label_json(l: LabelAbs) -> JsonAbs {
    JsonAbs::Obj(fld("name"@, JsonAbs::Str(l.name)) + fld("value"@, JsonAbs::Str(l.value)))
}

/// The encoding of a link.
pub open spec fn spec_link_json(l: LinkAbs) -> JsonAbs {
    JsonAbs::Obj(
        opt_str_fld("name"@, l.name) + fld("url"@, JsonAbs::Str(l.url)) + (match l.link_type {
            Some(t) => fld("type"@, JsonAbs::Str(t.spec_str())),
            None => Seq::empty(),
        }),
    )
}

/// The encoding of a parameter.
pub open spec fn spec_parameter_json(p: ParameterAbs) -> JsonAbs {
    JsonAbs::Obj(
        fld("name"@, JsonAbs::Str(p.name)) + fld("value"@, JsonAbs::Str(p.value)) + opt_bool_fld(
            "excluded"@,
            p.excluded,
        ) + (match p.mode {
            Some(m) => fld("mode"@, JsonAbs::Str(m.spec_str())),
            None => Seq::empty(),
        }),
    )
}

/// The encoding of an attachment reference.
pub open spec fn spec_attachment_json(a: AttachmentAbs) -> JsonAbs {
    JsonAbs::Obj(
        fld("name"@, JsonAbs::Str(a.name)) + fld("source"@, JsonAbs::Str(a.source)) + opt_str_fld(
            "type"@,
            a.mime_type,
        ),
    )
}

/// The encoding of status details.
pub open spec fn spec_details_json(d: DetailsAbs) -> JsonAbs {
    JsonAbs::Obj(
        opt_bool_fld("known"@, d.known) + opt_bool_fld("muted"@, d.muted) + opt_bool_fld(
            "flaky"@,
            d.flaky,
        ) + opt_str_fld("message"@, d.message) + opt_str_fld("trace"@, d.trace),
    )
}

/// The encoding of optional status details.
pub open spec fn opt_details_fld(key: Seq<char>, v: Option<DetailsAbs>) -> Seq<
    (Seq<char>, JsonAbs),
> {
    match v {
        Some(d) => seq![(key, spec_details_json(d))],
        None => Seq::empty(),
    }
}

/// The encodings of a label sequence, in order.
pub open spec fn spec_labels_json(ls: Seq<LabelAbs>) -> Seq<JsonAbs>
    decreases ls.len(),
{
    if ls.len() == 0 {
        Seq::empty()
    } else {
        spec_labels_json(ls.drop_last()).push(spec_label_json(ls.last()))
    }
}

/// The encodings of a link sequence, in order.
pub open spec fn spec_links_json(ls: Seq<LinkAbs>) -> Seq<JsonAbs>
    decreases ls.len(),
{
    if ls.len() == 0 {
        Seq::empty()
    } else {
        spec_links_json(ls.drop_last()).push(spec_link_json(ls.last()))
    }
}

/// The encodings of a parameter sequence, in order.
pub open spec fn spec_parameters_json(ps: Seq<ParameterAbs>) -> Seq<JsonAbs>
    decreases ps.len(),
{
    if ps.len() == 0 {
        Seq::empty()
    } else {
        spec_parameters_json(ps.drop_last()).push(spec_parameter_json(ps.last()))
    }
}

/// The encodings of an attachment sequence, in order.
pub open spec fn spec_attachments_json(attachments: Seq<AttachmentAbs>) -> Seq<JsonAbs>
    decreases attachments.len(),
{
    if attachments.len() == 0 {
        Seq::empty()
    } else {
        spec_attachments_json(attachments.drop_last()).push(
            spec_attachment_json(attachments.last()),
        )
    }
}

/// The encodings of a status sequence, in order.
pub open spec fn spec_statuses_json(statuses: Seq<Status>) -> Seq<JsonAbs>
    decreases statuses.len(),
{
    if statuses.len() == 0 {
        Seq::empty()
    } else {
        spec_statuses_json(statuses.drop_last()).push(
            JsonAbs::Str(statuses.last().spec_str()),
        )
    }
}

/// The encodings of a sequence of identifiers, in order.
pub open spec fn spec_children_json(children: Seq<Seq<char>>) -> Seq<JsonAbs>
    decreases children.len(),
{
    if children.len() == 0 {
        Seq::empty()
    } else {
        spec_children_json(children.drop_last()).push(JsonAbs::Str(children.last()))
    }
}

/// The encodings of a step sequence, in order.
pub open spec fn spec_steps_json(steps: Seq<StepAbs>) -> Seq<JsonAbs>
    decreases steps, 0int, 0int,
{
    if steps.len() == 0 {
        Seq::empty()
    } else {
        spec_steps_json(steps.drop_last()).push(spec_step_json(steps.last()))
    }
}

/// Each encoded label is the encoding of its label.
pub proof fn lemma_labels_json_index(ls: Seq<LabelAbs>, i: int)
    requires
        0 <= i < ls.len(),
    ensures
        spec_labels_json(ls).len() == ls.len(),
        spec_labels_json(ls)[i] == spec_label_json(ls[i]),
    decreases ls.len(),
{
    lemma_labels_json_len(ls);
    lemma_labels_json_len(ls.drop_last());
    if i < ls.len() - 1 {
        lemma_labels_json_index(ls.drop_last(), i);
        assert(ls.drop_last()[i] == ls[i]);
    }
}

/// An encoded sequence has one member per element.
pub proof fn lemma_labels_json_len(ls: Seq<LabelAbs>)
    ensures
        spec_labels_json(ls).len() == ls.len(),
    decreases ls.len(),
{
    if ls.len() > 0 {
        lemma_labels_json_len(ls.drop_last());
    }
}

/// Each encoded link is the encoding of its link.
pub proof fn lemma_links_json_index(ls: Seq<LinkAbs>, i: int)
    requires
        0 <= i < ls.len(),
    ensures
        spec_links_json(ls).len() == ls.len(),
        spec_links_json(ls)[i] == spec_link_json(ls[i]),
    decreases ls.len(),
{
    lemma_links_json_len(ls);
    lemma_links_json_len(ls.drop_last());
    if i < ls.len() - 1 {
        lemma_links_json_index(ls.drop_last(), i);
        assert(ls.drop_last()[i] == ls[i]);
    }
}

/// An encoded sequence has one member per element.
pub proof fn lemma_links_json_len(ls: Seq<LinkAbs>)
    ensures
        spec_links_json(ls).len() == ls.len(),
    decreases ls.len(),
{
    if ls.len() > 0 {
        lemma_links_json_len(ls.drop_last());
    }
}

/// Each encoded parameter is the encoding of its parameter.
pub proof fn lemma_parameters_json_index(ps: Seq<ParameterAbs>, i: int)
    requires
        0 <= i < ps.len(),
    ensures
        spec_parameters_json(ps).len() == ps.len(),
        spec_parameters_json(ps)[i] == spec_parameter_json(ps[i]),
    decreases ps.len(),
{
    lemma_parameters_json_len(ps);
    lemma_parameters_json_len(ps.drop_last());
    if i < ps.len() - 1 {
        lemma_parameters_json_index(ps.drop_last(), i);
        assert(ps.drop_last()[i] == ps[i]);
    }
}

/// An encoded sequence has one member per element.
pub proof fn lemma_parameters_json_len(ps: Seq<ParameterAbs>)
    ensures
        spec_parameters_json(ps).len() == ps.len(),
    decreases ps.len(),
{
    if ps.len() > 0 {
        lemma_parameters_json_len(ps.drop_last());
    }
}

/// Each encoded attachment is the encoding of its attachment.
pub proof fn lemma_attachments_json_index(attachments: Seq<AttachmentAbs>, i: int)
    requires
        0 <= i < attachments.len(),
    ensures
        spec_attachments_json(attachments).len() == attachments.len(),
        spec_attachments_json(attachments)[i] == spec_attachment_json(attachments[i]),
    decreases attachments.len(),
{
    lemma_attachments_json_len(attachments);
    lemma_attachments_json_len(attachments.drop_last());
    if i < attachments.len() - 1 {
        lemma_attachments_json_index(attachments.drop_last(), i);
        assert(attachments.drop_last()[i] == attachments[i]);
    }
}

/// An encoded sequence has one member per element.
pub proof fn lemma_attachments_json_len(attachments: Seq<AttachmentAbs>)
    ensures
        spec_attachments_json(attachments).len() == attachments.len(),
    decreases attachments.len(),
{
    if attachments.len() > 0 {
        lemma_attachments_json_len(attachments.drop_last());
    }
}

/// Each encoded status is the encoding of its status.
pub proof fn lemma_statuses_json_index(statuses: Seq<Status>, i: int)
    requires
        0 <= i < statuses.len(),
    ensures
        spec_statuses_json(statuses).len() == statuses.len(),
        spec_statuses_json(statuses)[i] == JsonAbs::Str(statuses[i].spec_str()),
    decreases statuses.len(),
{
    lemma_statuses_json_len(statuses);
    lemma_statuses_json_len(statuses.drop_last());
    if i < statuses.len() - 1 {
        lemma_statuses_json_index(statuses.drop_last(), i);
        assert(statuses.drop_last()[i] == statuses[i]);
    }
}

/// An encoded sequence has one member per element.
pub proof fn lemma_statuses_json_len(statuses: Seq<Status>)
    ensures
        spec_statuses_json(statuses).len() == statuses.len(),
    decreases statuses.len(),
{
    if statuses.len() > 0 {
        lemma_statuses_json_len(statuses.drop_last());
    }
}

/// Each encoded identifier is the encoding of its identifier.
pub proof fn lemma_children_json_index(children: Seq<Seq<char>>, i: int)
    requires
        0 <= i < children.len(),
    ensures
        spec_children_json(children).len() == children.len(),
        spec_children_json(children)[i] == JsonAbs::Str(children[i]),
    decreases children.len(),
{
    lemma_children_json_len(children);
    lemma_children_json_len(children.drop_last());
    if i < children.len() - 1 {
        lemma_children_json_index(children.drop_last(), i);
        assert(children.drop_last()[i] == children[i]);
    }
}

/// An encoded sequence has one member per element.
pub proof fn lemma_children_json_len(children: Seq<Seq<char>>)
    ensures
        spec_children_json(children).len() == children.len(),
    decreases children.len(),
{
    if children.len() > 0 {
        lemma_children_json_len(children.drop_last());
    }
}

/// Each encoded step is the encoding of its step.
pub proof fn lemma_steps_json_index(steps: Seq<StepAbs>, i: int)
    requires
        0 <= i < steps.len(),
    ensures
        spec_steps_json(steps).len() == steps.len(),
        spec_steps_json(steps)[i] == spec_step_json(steps[i]),
    decreases steps.len(),
{
    lemma_steps_json_len(steps);
    lemma_steps_json_len(steps.drop_last());
    if i < steps.len() - 1 {
        lemma_steps_json_index(steps.drop_last(), i);
        assert(steps.drop_last()[i] == steps[i]);
    }
}

/// An encoded sequence has one member per element.
pub proof fn lemma_steps_json_len(steps: Seq<StepAbs>)
    ensures
        spec_steps_json(steps).len() == steps.len(),
    decreases steps.len(),
{
    if steps.len() > 0 {
        lemma_steps_json_len(steps.drop_last());
    }
}

/// Each encoded fixture is the encoding of its fixture.
pub proof fn lemma_fixtures_json_index(fs: Seq<FixtureAbs>, i: int)
    requires
        0 <= i < fs.len(),
    ensures
        spec_fixtures_json(fs).len() == fs.len(),
        spec_fixtures_json(fs)[i] == spec_fixture_json(fs[i]),
    decreases fs.len(),
{
    lemma_fixtures_json_len(fs);
    lemma_fixtures_json_len(fs.drop_last());
    if i < fs.len() - 1 {
        lemma_fixtures_json_index(fs.drop_last(), i);
        assert(fs.drop_last()[i] == fs[i]);
    }
}

/// An encoded sequence has one member per element.
pub proof fn lemma_fixtures_json_len(fs: Seq<FixtureAbs>)
    ensures
        spec_fixtures_json(fs).len() == fs.len(),
    decreases fs.len(),
{
    if fs.len() > 0 {
        lemma_fixtures_json_len(fs.drop_last());
    }
}

/// The encoding of a step, nested steps included.
pub open spec fn spec_step_json(s: StepAbs) -> JsonAbs
    decreases s, 1int, 0int,
{
    JsonAbs::Obj(
        opt_str_fld("uuid"@, s.uuid) + fld("name"@, JsonAbs::Str(s.name)) + fld(
            "status"@,
            JsonAbs::Str(s.status.spec_str()),
        ) + opt_details_fld("statusDetails"@, s.status_details) + fld(
            "stage"@,
            JsonAbs::Str(s.stage.spec_str()),
        ) + arr_fld("steps"@, spec_steps_json(s.steps)) + arr_fld(
            "attachments"@,
            spec_attachments_json(s.attachments),
        ) + arr_fld("parameters"@, spec_parameters_json(s.parameters)) + fld(
            "start"@,
            JsonAbs::Int(s.start),
        ) + fld("stop"@, JsonAbs::Int(s.stop)),
    )
}

/// The encoding of a test result.
pub open spec fn spec_result_json(r: ResultAbs) -> JsonAbs {
    JsonAbs::Obj(
        fld("uuid"@, JsonAbs::Str(r.uuid)) + opt_str_fld("historyId"@, r.history_id) + opt_str_fld(
            "testCaseId"@,
            r.test_case_id,
        ) + fld("name"@, JsonAbs::Str(r.name)) + opt_str_fld("fullName"@, r.full_name)
            + opt_str_fld("description"@, r.description) + opt_str_fld(
            "descriptionHtml"@,
            r.description_html,
        ) + fld("status"@, JsonAbs::Str(r.status.spec_str())) + opt_details_fld(
            "statusDetails"@,
            r.status_details,
        ) + fld("stage"@, JsonAbs::Str(r.stage.spec_str())) + arr_fld(
            "steps"@,
            spec_steps_json(r.steps),
        ) + arr_fld("attachments"@, spec_attachments_json(r.attachments)) + arr_fld(
            "parameters"@,
            spec_parameters_json(r.parameters),
        ) + arr_fld("labels"@, spec_labels_json(r.labels)) + arr_fld(
            "links"@,
            spec_links_json(r.links),
        ) + fld("start"@, JsonAbs::Int(r.start)) + fld("stop"@, JsonAbs::Int(r.stop)),
    )
}

/// The encoding of a fixture.
pub open spec fn spec_fixture_json(f: FixtureAbs) -> JsonAbs {
    JsonAbs::Obj(
        fld("name"@, JsonAbs::Str(f.name)) + fld("status"@, JsonAbs::Str(f.status.spec_str()))
            + opt_details_fld("statusDetails"@, f.status_details) + fld(
            "stage"@,
            JsonAbs::Str(f.stage.spec_str()),
        ) + arr_fld("steps"@, spec_steps_json(f.steps)) + arr_fld(
            "attachments"@,
            spec_attachments_json(f.attachments),
        ) + arr_fld("parameters"@, spec_parameters_json(f.parameters)) + fld(
            "start"@,
            JsonAbs::Int(f.start),
        ) + fld("stop"@, JsonAbs::Int(f.stop)),
    )
}

/// The encodings of a fixture sequence, in order.
pub open spec fn spec_fixtures_json(fs: Seq<FixtureAbs>) -> Seq<JsonAbs>
    decreases fs.len(),
{
    if fs.len() == 0 {
        Seq::empty()
    } else {
        spec_fixtures_json(fs.drop_last()).push(spec_fixture_json(fs.last()))
    }
}

/// The encoding of a container.
pub open spec fn spec_container_json(c: ContainerAbs) -> JsonAbs {
    JsonAbs::Obj(
        fld("uuid"@, JsonAbs::Str(c.uuid)) + opt_str_fld("name"@, c.name) + arr_fld(
            "children"@,
            spec_children_json(c.children),
        ) + arr_fld("befores"@, spec_fixtures_json(c.befores)) + arr_fld(
            "afters"@,
            spec_fixtures_json(c.afters),
        ) + (
        match c.start {
            Some(t) => fld("start"@, JsonAbs::Int(t)),
            None => Seq::empty(),
        }) + (match c.stop {
            Some(t) => fld("stop"@, JsonAbs::Int(t)),
            None => Seq::empty(),
        }),
    )
}

/// The encodings of a category sequence, in order.
pub open spec fn spec_categories_json(cs: Seq<CategoryAbs>) -> Seq<JsonAbs>
    decreases cs.len(),
{
    if cs.len() == 0 {
        Seq::empty()
    } else {
        spec_categories_json(cs.drop_last()).push(spec_category_json(cs.last()))
    }
}

/// Each encoded category is the encoding of its category.
pub proof fn lemma_categories_json_index(cs: Seq<CategoryAbs>, i: int)
    requires
        0 <= i < cs.len(),
    ensures
        spec_categories_json(cs).len() == cs.len(),
        spec_categories_json(cs)[i] == spec_category_json(cs[i]),
    decreases cs.len(),
{
    lemma_categories_json_len(cs);
    lemma_categories_json_len(cs.drop_last());
    if i < cs.len() - 1 {
        lemma_categories_json_index(cs.drop_last(), i);
        assert(cs.drop_last()[i] == cs[i]);
    }
}

/// An encoded sequence has one member per element.
pub proof fn lemma_categories_json_len(cs: Seq<CategoryAbs>)
    ensures
        spec_categories_json(cs).len() == cs.len(),
    decreases cs.len(),
{
    if cs.len() > 0 {
        lemma_categories_json_len(cs.drop_last());
    }
}

/// The encoding of a defect category.
pub open spec fn spec_category_json(c: CategoryAbs) -> JsonAbs {
    JsonAbs::Obj(
        fld("name"@, JsonAbs::Str(c.name)) + arr_fld(
            "matchedStatuses"@,
            spec_statuses_json(c.matched_statuses),
        ) + opt_str_fld("messageRegex"@, c.message_regex) + opt_str_fld(
            "traceRegex"@,
            c.trace_regex,
        ) + opt_bool_fld("flaky"@, c.flaky),
    )
}

// ---------------------------------------------------------------------------
// Decoding
// ---------------------------------------------------------------------------
/// The status named by a string, if any.
pub open spec fn spec_status_from(s: Seq<char>) -> Option<Status> {
    if s == "passed"@ {
        Some(Status::Passed)
    } else if s == "failed"@ {
        Some(Status::Failed)
    } else if s == "broken"@ {
        Some(Status::Broken)
    } else if s == "skipped"@ {
        Some(Status::Skipped)
    } else if s == "unknown"@ {
        Some(Status::Unknown)
    } else {
        None
    }
}

/// The stage named by a string, if any.
pub open spec fn spec_stage_from(s: Seq<char>) -> Option<Stage> {
    if s == "scheduled"@ {
        Some(Stage::Scheduled)
    } else if s == "running"@ {
        Some(Stage::Running)
    } else if s == "finished"@ {
        Some(Stage::Finished)
    } else if s == "pending"@ {
        Some(Stage::Pending)
    } else if s == "interrupted"@ {
        Some(Stage::Interrupted)
    } else {
        None
    }
}

/// The link kind named by a string, if any.
pub open spec fn spec_link_type_from(s: Seq<char>) -> Option<LinkType> {
    if s == "link"@ {
        Some(LinkType::Default)
    } else if s == "issue"@ {
        Some(LinkType::Issue)
    } else if s == "tms"@ {
        Some(LinkType::Tms)
    } else {
        None
    }
}

/// The parameter mode named by a string, if any.
pub open spec fn spec_mode_from(s: Seq<char>) -> Option<ParameterMode> {
    if s == "default"@ {
        Some(ParameterMode::Default)
    } else if s == "hidden"@ {
        Some(ParameterMode::Hidden)
    } else if s == "masked"@ {
        Some(ParameterMode::Masked)
    } else {
        None
    }
}

/// Reads a required string member at the cursor.
pub open spec fn take_str(fields: Seq<(Seq<char>, JsonAbs)>, i: int, key: Seq<char>) -> Option<
    (Seq<char>, int),
> {
    if 0 <= i < fields.len() && fields[i].0 == key {
        match fields[i].1 {
            JsonAbs::Str(s) => Some((s, i + 1)),
            _ => None,
        }
    } else {
        None
    }
}

/// Reads a required integer member at the cursor.
pub open spec fn take_int(fields: Seq<(Seq<char>, JsonAbs)>, i: int, key: Seq<char>) -> Option<
    (int, int),
> {
    if 0 <= i < fields.len() && fields[i].0 == key {
        match fields[i].1 {
            JsonAbs::Int(n) => Some((n, i + 1)),
            _ => None,
        }
    } else {
        None
    }
}

/// Reads an optional string member at the cursor; an absent member reads as
/// `None` and leaves the cursor alone.
pub open spec fn take_opt_str(fields: Seq<(Seq<char>, JsonAbs)>, i: int, key: Seq<char>) -> Option<
    (Option<Seq<char>>, int),
> {
    if 0 <= i < fields.len() && fields[i].0 == key {
        match fields[i].1 {
            JsonAbs::Str(s) => Some((Some(s), i + 1)),
            _ => None,
        }
    } else {
        Some((None, i))
    }
}

/// Reads an optional boolean member at the cursor.
pub open spec fn take_opt_bool(fields: Seq<(Seq<char>, JsonAbs)>, i: int, key: Seq<char>) -> Option<
    (Option<bool>, int),
> {
    if 0 <= i < fields.len() && fields[i].0 == key {
        match fields[i].1 {
            JsonAbs::Bool(b) => Some((Some(b), i + 1)),
            _ => None,
        }
    } else {
        Some((None, i))
    }
}

/// Reads an optional collection member at the cursor; an absent member reads
/// as the empty collection.
pub open spec fn take_opt_arr(fields: Seq<(Seq<char>, JsonAbs)>, i: int, key: Seq<char>) -> Option<
    (Seq<JsonAbs>, int),
> {
    if 0 <= i < fields.len() && fields[i].0 == key {
        match fields[i].1 {
            JsonAbs::Arr(items) => Some((items, i + 1)),
            _ => None,
        }
    } else {
        Some((Seq::empty(), i))
    }
}

/// Reads an optional member holding any value at the cursor.
pub open spec fn take_opt_val(fields: Seq<(Seq<char>, JsonAbs)>, i: int, key: Seq<char>) -> (
    Option<JsonAbs>,
    int,
) {
    if 0 <= i < fields.len() && fields[i].0 == key {
        (Some(fields[i].1), i + 1)
    } else {
        (None, i)
    }
}

/// The decoding of status details.
pub open spec fn spec_details_from(v: JsonAbs) -> Option<DetailsAbs> {
    match v {
        JsonAbs::Obj(fields) => match take_opt_bool(fields, 0, "known"@) {
            None => None,
            Some((known, i1)) => match take_opt_bool(fields, i1, "muted"@) {
                None => None,
                Some((muted, i2)) => match take_opt_bool(fields, i2, "flaky"@) {
                    None => None,
                    Some((flaky, i3)) => match take_opt_str(fields, i3, "message"@) {
                        None => None,
                        Some((message, i4)) => match take_opt_str(fields, i4, "trace"@) {
                            None => None,
                            Some((trace, _)) => Some(
                                DetailsAbs { known, muted, flaky, message, trace },
                            ),
                        },
                    },
                },
            },
        },
        _ => None,
    }
}

/// The decoding of optional status details read by `take_opt_val`.
pub open spec fn spec_opt_details_from(v: Option<JsonAbs>) -> Option<Option<DetailsAbs>> {
    match v {
        None => Some(None),
        Some(d) => match spec_details_from(d) {
            Some(details) => Some(Some(details)),
            None => None,
        },
    }
}

/// The decoding of a label.
pub open spec fn spec_label_from(v: JsonAbs) -> Option<LabelAbs> {
    match v {
        JsonAbs::Obj(fields) => match take_str(fields, 0, "name"@) {
            None => None,
            Some((name, i1)) => match take_str(fields, i1, "value"@) {
                None => None,
                Some((value, _)) => Some(LabelAbs { name, value }),
            },
        },
        _ => None,
    }
}

/// The decoding of a link.
pub open spec fn spec_link_from(v: JsonAbs) -> Option<LinkAbs> {
    match v {
        JsonAbs::Obj(fields) => match take_opt_str(fields, 0, "name"@) {
            None => None,
            Some((name, i1)) => match take_str(fields, i1, "url"@) {
                None => None,
                Some((url, i2)) => match take_opt_str(fields, i2, "type"@) {
                    None => None,
                    Some((kind, _)) => match kind {
                        None => Some(LinkAbs { name, url, link_type: None }),
                        Some(ks) => match spec_link_type_from(ks) {
                            None => None,
                            Some(t) => Some(LinkAbs { name, url, link_type: Some(t) }),
                        },
                    },
                },
            },
        },
        _ => None,
    }
}

/// The decoding of a parameter.
pub open spec fn spec_parameter_from(v: JsonAbs) -> Option<ParameterAbs> {
    match v {
        JsonAbs::Obj(fields) => match take_str(fields, 0, "name"@) {
            None => None,
            Some((name, i1)) => match take_str(fields, i1, "value"@) {
                None => None,
                Some((value, i2)) => match take_opt_bool(fields, i2, "excluded"@) {
                    None => None,
                    Some((excluded, i3)) => match take_opt_str(fields, i3, "mode"@) {
                        None => None,
                        Some((mode, _)) => match mode {
                            None => Some(ParameterAbs { name, value, excluded, mode: None }),
                            Some(ms) => match spec_mode_from(ms) {
                                None => None,
                                Some(m) => Some(
                                    ParameterAbs { name, value, excluded, mode: Some(m) },
                                ),
                            },
                        },
                    },
                },
            },
        },
        _ => None,
    }
}

/// The decoding of an attachment reference.
pub open spec fn spec_attachment_from(v: JsonAbs) -> Option<AttachmentAbs> {
    match v {
        JsonAbs::Obj(fields) => match take_str(fields, 0, "name"@) {
            None => None,
            Some((name, i1)) => match take_str(fields, i1, "source"@) {
                None => None,
                Some((source, i2)) => match take_opt_str(fields, i2, "type"@) {
                    None => None,
                    Some((mime_type, _)) => Some(AttachmentAbs { name, source, mime_type }),
                },
            },
        },
        _ => None,
    }
}

/// The decodings of a sequence of labels; any bad member fails the whole.
pub open spec fn spec_labels_from(items: Seq<JsonAbs>) -> Option<Seq<LabelAbs>>
    decreases items.len(),
{
    if items.len() == 0 {
        Some(Seq::empty())
    } else {
        match spec_labels_from(items.drop_last()) {
            None => None,
            Some(rest) => match spec_label_from(items.last()) {
                None => None,
                Some(l) => Some(rest.push(l)),
            },
        }
    }
}

/// The decodings of a sequence of links.
pub open spec fn spec_links_from(items: Seq<JsonAbs>) -> Option<Seq<LinkAbs>>
    decreases items.len(),
{
    if items.len() == 0 {
        Some(Seq::empty())
    } else {
        match spec_links_from(items.drop_last()) {
            None => None,
            Some(rest) => match spec_link_from(items.last()) {
                None => None,
                Some(l) => Some(rest.push(l)),
            },
        }
    }
}

/// The decodings of a sequence of parameters.
pub open spec fn spec_parameters_from(items: Seq<JsonAbs>) -> Option<Seq<ParameterAbs>>
    decreases items.len(),
{
    if items.len() == 0 {
        Some(Seq::empty())
    } else {
        match spec_parameters_from(items.drop_last()) {
            None => None,
            Some(rest) => match spec_parameter_from(items.last()) {
                None => None,
                Some(p) => Some(rest.push(p)),
            },
        }
    }
}

/// The decodings of a sequence of attachment references.
pub open spec fn spec_attachments_from(items: Seq<JsonAbs>) -> Option<Seq<AttachmentAbs>>
    decreases items.len(),
{
    if items.len() == 0 {
        Some(Seq::empty())
    } else {
        match spec_attachments_from(items.drop_last()) {
            None => None,
            Some(rest) => match spec_attachment_from(items.last()) {
                None => None,
                Some(a) => Some(rest.push(a)),
            },
        }
    }
}

/// The decodings of a sequence of steps.
pub open spec fn spec_steps_from(items: Seq<JsonAbs>) -> Option<Seq<StepAbs>>
    decreases items, 1int, 0int,
{
    if items.len() == 0 {
        Some(Seq::empty())
    } else {
        match spec_steps_from(items.drop_last()) {
            None => None,
            Some(rest) => match spec_step_from(items.last()) {
                None => None,
                Some(s) => Some(rest.push(s)),
            },
        }
    }
}

/// The decoding of a step, nested steps included.
pub open spec fn spec_step_from(v: JsonAbs) -> Option<StepAbs>
    decreases v, 2int, 0int,
{
    match v {
        JsonAbs::Obj(fields) => match take_opt_str(fields, 0, "uuid"@) {
            None => None,
            Some((uuid, i1)) => match take_str(fields, i1, "name"@) {
                None => None,
                Some((name, i2)) => match take_str(fields, i2, "status"@) {
                    None => None,
                    Some((status_s, i3)) => match spec_status_from(status_s) {
                        None => None,
                        Some(status) => {
                            let (details_v, i4) = take_opt_val(fields, i3, "statusDetails"@);
                            match spec_opt_details_from(details_v) {
                                None => None,
                                Some(status_details) => match take_str(fields, i4, "stage"@) {
                                    None => None,
                                    Some((stage_s, i5)) => match spec_stage_from(stage_s) {
                                        None => None,
                                        Some(stage) => {
                                            let has_steps = 0 <= i5 < fields.len()
                                                && fields[i5].0 == "steps"@;
                                            if has_steps && !(fields[i5].1 is Arr) {
                                                None
                                            } else {
                                                let steps_opt = if has_steps {
                                                    spec_steps_from(v->Obj_0[i5].1->Arr_0)
                                                } else {
                                                    Some(Seq::empty())
                                                };
                                                let i6 = if has_steps {
                                                    i5 + 1
                                                } else {
                                                    i5
                                                };
                                                match steps_opt {
                                                None => None,
                                                Some(steps) => match take_opt_arr(
                                                    fields,
                                                    i6,
                                                    "attachments"@,
                                                ) {
                                                    None => None,
                                                    Some((atts_v, i7)) => match
                                                        spec_attachments_from(atts_v) {
                                                        None => None,
                                                        Some(attachments) => match take_opt_arr(
                                                            fields,
                                                            i7,
                                                            "parameters"@,
                                                        ) {
                                                            None => None,
                                                            Some((params_v, i8)) => match
                                                                spec_parameters_from(params_v) {
                                                                None => None,
                                                                Some(parameters) => match take_int(
                                                                    fields,
                                                                    i8,
                                                                    "start"@,
                                                                ) {
                                                                    None => None,
                                                                    Some((start, i9)) => match
                                                                        take_int(
                                                                        fields,
                                                                        i9,
                                                                        "stop"@,
                                                                    ) {
                                                                        None => None,
                                                                        Some((stop, _)) => Some(
                                                                            StepAbs {
                                                                                uuid,
                                                                                name,
                                                                                status,
                                                                                status_details,
                                                                                stage,
                                                                                steps,
                                                                                attachments,
                                                                                parameters,
                                                                                start,
                                                                                stop,
                                                                            },
                                                                        ),
                                                                    },
                                                                },
                                                            },
                                                        },
                                                    },
                                                },
                                                }
                                            }
                                        },
                                    },
                                },
                            }
                        },
                    },
                },
            },
        },
        _ => None,
    }
}

/// The decoding of a test result.
pub open spec fn spec_result_from(v: JsonAbs) -> Option<ResultAbs> {
    match v {
        JsonAbs::Obj(fields) => match take_str(fields, 0, "uuid"@) {
            None => None,
            Some((uuid, i1)) => match take_opt_str(fields, i1, "historyId"@) {
                None => None,
                Some((history_id, i2)) => match take_opt_str(fields, i2, "testCaseId"@) {
                    None => None,
                    Some((test_case_id, i3)) => match take_str(fields, i3, "name"@) {
                        None => None,
                        Some((name, i4)) => match take_opt_str(fields, i4, "fullName"@) {
                            None => None,
                            Some((full_name, i5)) => match take_opt_str(
                                fields,
                                i5,
                                "description"@,
                            ) {
                                None => None,
                                Some((description, i6)) => match take_opt_str(
                                    fields,
                                    i6,
                                    "descriptionHtml"@,
                                ) {
                                    None => None,
                                    Some((description_html, i7)) => match take_str(
                                        fields,
                                        i7,
                                        "status"@,
                                    ) {
                                        None => None,
                                        Some((status_s, i8)) => match spec_status_from(status_s) {
                                            None => None,
                                            Some(status) => {
                                                let (details_v, i9) = take_opt_val(
                                                    fields,
                                                    i8,
                                                    "statusDetails"@,
                                                );
                                                match spec_opt_details_from(details_v) {
                                                    None => None,
                                                    Some(status_details) => match take_str(
                                                        fields,
                                                        i9,
                                                        "stage"@,
                                                    ) {
                                                        None => None,
                                                        Some((stage_s, i10)) => match
                                                            spec_stage_from(stage_s) {
                                                            None => None,
                                                            Some(stage) => spec_result_from_rest(
                                                                fields,
                                                                i10,
                                                                uuid,
                                                                history_id,
                                                                test_case_id,
                                                                name,
                                                                full_name,
                                                                description,
                                                                description_html,
                                                                status,
                                                                status_details,
                                                                stage,
                                                            ),
                                                        },
                                                    },
                                                }
                                            },
                                        },
                                    },
                                },
                            },
                        },
                    },
                },
            },
        },
        _ => None,
    }
}

/// The decoding of a test result's collections and times, after the scalar
/// members.
pub open spec fn spec_result_from_rest(
    fields: Seq<(Seq<char>, JsonAbs)>,
    i: int,
    uuid: Seq<char>,
    history_id: Option<Seq<char>>,
    test_case_id: Option<Seq<char>>,
    name: Seq<char>,
    full_name: Option<Seq<char>>,
    description: Option<Seq<char>>,
    description_html: Option<Seq<char>>,
    status: Status,
    status_details: Option<DetailsAbs>,
    stage: Stage,
) -> Option<ResultAbs> {
    match take_opt_arr(fields, i, "steps"@) {
        None => None,
        Some((steps_v, i11)) => match spec_steps_from(steps_v) {
            None => None,
            Some(steps) => match take_opt_arr(fields, i11, "attachments"@) {
                None => None,
                Some((atts_v, i12)) => match spec_attachments_from(atts_v) {
                    None => None,
                    Some(attachments) => match take_opt_arr(fields, i12, "parameters"@) {
                        None => None,
                        Some((params_v, i13)) => match spec_parameters_from(params_v) {
                            None => None,
                            Some(parameters) => match take_opt_arr(fields, i13, "labels"@) {
                                None => None,
                                Some((labels_v, i14)) => match spec_labels_from(labels_v) {
                                    None => None,
                                    Some(labels) => match take_opt_arr(fields, i14, "links"@) {
                                        None => None,
                                        Some((links_v, i15)) => match spec_links_from(links_v) {
                                            None => None,
                                            Some(links) => match take_int(fields, i15, "start"@) {
                                                None => None,
                                                Some((start, i16)) => match take_int(
                                                    fields,
                                                    i16,
                                                    "stop"@,
                                                ) {
                                                    None => None,
                                                    Some((stop, _)) => Some(
                                                        ResultAbs {
                                                            uuid,
                                                            history_id,
                                                            test_case_id,
                                                            name,
                                                            full_name,
                                                            description,
                                                            description_html,
                                                            status,
                                                            status_details,
                                                            stage,
                                                            steps,
                                                            attachments,
                                                            parameters,
                                                            labels,
                                                            links,
                                                            start,
                                                            stop,
                                                        },
                                                    ),
                                                },
                                            },
                                        },
                                    },
                                },
                            },
                        },
                    },
                },
            },
        },
    }
}


// ---------------------------------------------------------------------------
// Decoding an encoding recovers the value
// ---------------------------------------------------------------------------

/// Two character sequences differing at one position differ.
proof fn lemma_seq_neq_at(a: Seq<char>, b: Seq<char>, i: int)
    requires
        0 <= i < a.len(),
        0 <= i < b.len(),
        a[i] != b[i],
    ensures
        a != b,
{
}

/// Two character sequences of different lengths differ.
proof fn lemma_seq_neq_len(a: Seq<char>, b: Seq<char>)
    requires
        a.len() != b.len(),
    ensures
        a != b,
{
}

/// Decoding the lowercase name of a status gives the status back.
pub proof fn lemma_status_round_trip(st: Status)
    ensures
        spec_status_from(st.spec_str()) == Some(st),
{
    reveal_strlit("passed");
    reveal_strlit("failed");
    reveal_strlit("broken");
    reveal_strlit("skipped");
    reveal_strlit("unknown");
    lemma_seq_neq_at("failed"@, "passed"@, 0);
    lemma_seq_neq_at("broken"@, "passed"@, 0);
    lemma_seq_neq_at("broken"@, "failed"@, 0);
    lemma_seq_neq_at("skipped"@, "passed"@, 0);
    lemma_seq_neq_at("skipped"@, "failed"@, 0);
    lemma_seq_neq_at("skipped"@, "broken"@, 0);
    lemma_seq_neq_at("unknown"@, "passed"@, 0);
    lemma_seq_neq_at("unknown"@, "failed"@, 0);
    lemma_seq_neq_at("unknown"@, "broken"@, 0);
    lemma_seq_neq_at("unknown"@, "skipped"@, 0);
}

/// Decoding the lowercase name of a stage gives the stage back.
pub proof fn lemma_stage_round_trip(st: Stage)
    ensures
        spec_stage_from(st.spec_str()) == Some(st),
{
    reveal_strlit("scheduled");
    reveal_strlit("running");
    reveal_strlit("finished");
    reveal_strlit("pending");
    reveal_strlit("interrupted");
    lemma_seq_neq_at("running"@, "scheduled"@, 0);
    lemma_seq_neq_at("finished"@, "scheduled"@, 0);
    lemma_seq_neq_at("finished"@, "running"@, 0);
    lemma_seq_neq_at("pending"@, "scheduled"@, 0);
    lemma_seq_neq_at("pending"@, "running"@, 0);
    lemma_seq_neq_at("pending"@, "finished"@, 0);
    lemma_seq_neq_at("interrupted"@, "scheduled"@, 0);
    lemma_seq_neq_at("interrupted"@, "running"@, 0);
    lemma_seq_neq_at("interrupted"@, "finished"@, 0);
    lemma_seq_neq_at("interrupted"@, "pending"@, 0);
}

/// Decoding the name of a link kind gives the kind back.
pub proof fn lemma_link_type_round_trip(t: LinkType)
    ensures
        spec_link_type_from(t.spec_str()) == Some(t),
{
    reveal_strlit("link");
    reveal_strlit("issue");
    reveal_strlit("tms");
    lemma_seq_neq_at("issue"@, "link"@, 0);
    lemma_seq_neq_at("tms"@, "link"@, 0);
    lemma_seq_neq_at("tms"@, "issue"@, 0);
}

/// Decoding the name of a parameter mode gives the mode back.
pub proof fn lemma_mode_round_trip(m: ParameterMode)
    ensures
        spec_mode_from(m.spec_str()) == Some(m),
{
    reveal_strlit("default");
    reveal_strlit("hidden");
    reveal_strlit("masked");
    lemma_seq_neq_at("hidden"@, "default"@, 0);
    lemma_seq_neq_at("masked"@, "default"@, 0);
    lemma_seq_neq_at("masked"@, "hidden"@, 0);
}

/// Decoding an encoded label gives the label back.
pub proof fn lemma_label_round_trip(l: LabelAbs)
    ensures
        spec_label_from(spec_label_json(l)) == Some(l),
{
    reveal_strlit("name");
    reveal_strlit("value");
}

/// Decoding encoded status details gives the details back.
pub proof fn lemma_details_round_trip(d: DetailsAbs)
    ensures
        spec_details_from(spec_details_json(d)) == Some(d),
{
    reveal_strlit("known");
    reveal_strlit("muted");
    reveal_strlit("flaky");
    reveal_strlit("message");
    reveal_strlit("trace");
    lemma_seq_neq_at("known"@, "muted"@, 0);
    lemma_seq_neq_at("known"@, "flaky"@, 0);
    lemma_seq_neq_at("known"@, "message"@, 0);
    lemma_seq_neq_at("known"@, "trace"@, 0);
    lemma_seq_neq_at("muted"@, "flaky"@, 0);
    lemma_seq_neq_at("muted"@, "message"@, 1);
    lemma_seq_neq_at("muted"@, "trace"@, 0);
    lemma_seq_neq_at("flaky"@, "message"@, 0);
    lemma_seq_neq_at("flaky"@, "trace"@, 0);
    lemma_seq_neq_at("message"@, "trace"@, 0);
}

/// Decoding an encoded link gives the link back.
pub proof fn lemma_link_round_trip(l: LinkAbs)
    ensures
        spec_link_from(spec_link_json(l)) == Some(l),
{
    reveal_strlit("name");
    reveal_strlit("url");
    reveal_strlit("type");
    lemma_seq_neq_at("name"@, "url"@, 0);
    lemma_seq_neq_at("name"@, "type"@, 0);
    lemma_seq_neq_at("url"@, "type"@, 0);
    match l.link_type {
        Some(t) => lemma_link_type_round_trip(t),
        None => (),
    }
}

/// Decoding an encoded parameter gives the parameter back.
pub proof fn lemma_parameter_round_trip(p: ParameterAbs)
    ensures
        spec_parameter_from(spec_parameter_json(p)) == Some(p),
{
    reveal_strlit("name");
    reveal_strlit("value");
    reveal_strlit("excluded");
    reveal_strlit("mode");
    lemma_seq_neq_at("excluded"@, "mode"@, 0);
    match p.mode {
        Some(m) => lemma_mode_round_trip(m),
        None => (),
    }
}

/// Decoding an encoded attachment reference gives it back.
pub proof fn lemma_attachment_round_trip(a: AttachmentAbs)
    ensures
        spec_attachment_from(spec_attachment_json(a)) == Some(a),
{
    reveal_strlit("name");
    reveal_strlit("source");
    reveal_strlit("type");
}

/// Decoding an encoded label sequence gives the sequence back.
pub proof fn lemma_labels_round_trip(ls: Seq<LabelAbs>)
    ensures
        spec_labels_from(spec_labels_json(ls)) == Some(ls),
    decreases ls.len(),
{
    if ls.len() == 0 {
        assert(ls =~= Seq::<LabelAbs>::empty());
    } else {
        lemma_labels_round_trip(ls.drop_last());
        lemma_label_round_trip(ls.last());
        let enc = spec_labels_json(ls);
        assert(enc.drop_last() =~= spec_labels_json(ls.drop_last()));
        assert(enc.last() == spec_label_json(ls.last()));
        assert(ls.drop_last().push(ls.last()) =~= ls);
    }
}

/// Decoding an encoded link sequence gives the sequence back.
pub proof fn lemma_links_round_trip(ls: Seq<LinkAbs>)
    ensures
        spec_links_from(spec_links_json(ls)) == Some(ls),
    decreases ls.len(),
{
    if ls.len() == 0 {
        assert(ls =~= Seq::<LinkAbs>::empty());
    } else {
        lemma_links_round_trip(ls.drop_last());
        lemma_link_round_trip(ls.last());
        let enc = spec_links_json(ls);
        assert(enc.drop_last() =~= spec_links_json(ls.drop_last()));
        assert(enc.last() == spec_link_json(ls.last()));
        assert(ls.drop_last().push(ls.last()) =~= ls);
    }
}

/// Decoding an encoded parameter sequence gives the sequence back.
pub proof fn lemma_parameters_round_trip(ps: Seq<ParameterAbs>)
    ensures
        spec_parameters_from(spec_parameters_json(ps)) == Some(ps),
    decreases ps.len(),
{
    if ps.len() == 0 {
        assert(ps =~= Seq::<ParameterAbs>::empty());
    } else {
        lemma_parameters_round_trip(ps.drop_last());
        lemma_parameter_round_trip(ps.last());
        let enc = spec_parameters_json(ps);
        assert(enc.drop_last() =~= spec_parameters_json(ps.drop_last()));
        assert(enc.last() == spec_parameter_json(ps.last()));
        assert(ps.drop_last().push(ps.last()) =~= ps);
    }
}

/// Decoding an encoded attachment sequence gives the sequence back.
pub proof fn lemma_attachments_round_trip(attachments: Seq<AttachmentAbs>)
    ensures
        spec_attachments_from(spec_attachments_json(attachments)) == Some(attachments),
    decreases attachments.len(),
{
    if attachments.len() == 0 {
        assert(attachments =~= Seq::<AttachmentAbs>::empty());
    } else {
        lemma_attachments_round_trip(attachments.drop_last());
        lemma_attachment_round_trip(attachments.last());
        let enc = spec_attachments_json(attachments);
        assert(enc.drop_last() =~= spec_attachments_json(attachments.drop_last()));
        assert(enc.last() == spec_attachment_json(attachments.last()));
        assert(attachments.drop_last().push(attachments.last()) =~= attachments);
    }
}

/// Decoding an encoded step sequence gives the sequence back.
pub proof fn lemma_steps_round_trip(steps: Seq<StepAbs>)
    ensures
        spec_steps_from(spec_steps_json(steps)) == Some(steps),
    decreases steps, 1int,
{
    if steps.len() == 0 {
        assert(steps =~= Seq::<StepAbs>::empty());
    } else {
        lemma_steps_round_trip(steps.drop_last());
        lemma_step_round_trip(steps.last());
        let enc = spec_steps_json(steps);
        assert(enc.drop_last() =~= spec_steps_json(steps.drop_last()));
        assert(enc.last() == spec_step_json(steps.last()));
        assert(steps.drop_last().push(steps.last()) =~= steps);
    }
}

/// Decoding an encoded step gives the step back, nested steps included.
#[verifier::rlimit(100)]
pub proof fn lemma_step_round_trip(s: StepAbs)
    ensures
        spec_step_from(spec_step_json(s)) == Some(s),
    decreases s, 0int,
{
    reveal_strlit("uuid");
    reveal_strlit("name");
    reveal_strlit("status");
    reveal_strlit("statusDetails");
    reveal_strlit("stage");
    reveal_strlit("steps");
    reveal_strlit("attachments");
    reveal_strlit("parameters");
    reveal_strlit("start");
    reveal_strlit("stop");
    lemma_seq_neq_at("uuid"@, "name"@, 0);
    lemma_seq_neq_at("statusDetails"@, "stage"@, 3);
    lemma_seq_neq_at("steps"@, "attachments"@, 0);
    lemma_seq_neq_at("steps"@, "parameters"@, 0);
    lemma_seq_neq_at("steps"@, "start"@, 2);
    lemma_seq_neq_at("attachments"@, "parameters"@, 0);
    lemma_seq_neq_at("attachments"@, "start"@, 0);
    lemma_seq_neq_at("parameters"@, "start"@, 0);
    lemma_status_round_trip(s.status);
    lemma_stage_round_trip(s.stage);
    match s.status_details {
        Some(d) => lemma_details_round_trip(d),
        None => (),
    }
    lemma_steps_round_trip(s.steps);
    lemma_attachments_round_trip(s.attachments);
    lemma_parameters_round_trip(s.parameters);
    if s.steps.len() == 0 {
        assert(Seq::<StepAbs>::empty() =~= s.steps);
    }
    if s.attachments.len() == 0 {
        assert(Seq::<AttachmentAbs>::empty() =~= s.attachments);
    }
    if s.parameters.len() == 0 {
        assert(Seq::<ParameterAbs>::empty() =~= s.parameters);
    }
}

/// The number of members the scalar part of a result's encoding occupies.
pub open spec fn spec_result_scalar_len(r: ResultAbs) -> int {
    4 + (if r.history_id is Some { 1int } else { 0 }) + (if r.test_case_id is Some { 1int } else { 0 })
        + (if r.full_name is Some { 1int } else { 0 }) + (if r.description is Some { 1int } else { 0 })
        + (if r.description_html is Some { 1int } else { 0 }) + (if r.status_details is Some { 1int } else { 0 })
}

/// Decoding an encoded result reads its scalar members back and hands the
/// rest of the members to the collection decoder at the right cursor.
#[verifier::rlimit(100)]
proof fn lemma_result_scalars_round_trip(r: ResultAbs)
    ensures
        spec_result_from(spec_result_json(r)) == spec_result_from_rest(
            spec_result_json(r)->Obj_0,
            spec_result_scalar_len(r),
            r.uuid,
            r.history_id,
            r.test_case_id,
            r.name,
            r.full_name,
            r.description,
            r.description_html,
            r.status,
            r.status_details,
            r.stage,
        ),
{
    reveal_strlit("uuid");
    reveal_strlit("historyId");
    reveal_strlit("testCaseId");
    reveal_strlit("name");
    reveal_strlit("fullName");
    reveal_strlit("description");
    reveal_strlit("descriptionHtml");
    reveal_strlit("status");
    reveal_strlit("statusDetails");
    reveal_strlit("stage");
    lemma_seq_neq_at("historyId"@, "testCaseId"@, 0);
    lemma_seq_neq_at("historyId"@, "name"@, 0);
    lemma_seq_neq_at("testCaseId"@, "name"@, 0);
    lemma_seq_neq_at("fullName"@, "description"@, 0);
    lemma_seq_neq_at("fullName"@, "descriptionHtml"@, 0);
    lemma_seq_neq_at("fullName"@, "status"@, 0);
    lemma_seq_neq_len("description"@, "descriptionHtml"@);
    lemma_seq_neq_at("description"@, "status"@, 0);
    lemma_seq_neq_at("descriptionHtml"@, "status"@, 0);
    lemma_seq_neq_at("statusDetails"@, "stage"@, 3);
    lemma_status_round_trip(r.status);
    lemma_stage_round_trip(r.stage);
    match r.status_details {
        Some(d) => lemma_details_round_trip(d),
        None => (),
    }
    let fields = spec_result_json(r)->Obj_0;
    let c1 = 1int;
    let c2 = c1 + (if r.history_id is Some { 1int } else { 0 });
    let c3 = c2 + (if r.test_case_id is Some { 1int } else { 0 });
    let c4 = c3 + 1;
    let c5 = c4 + (if r.full_name is Some { 1int } else { 0 });
    let c6 = c5 + (if r.description is Some { 1int } else { 0 });
    let c7 = c6 + (if r.description_html is Some { 1int } else { 0 });
    let c8 = c7 + 1;
    let c9 = c8 + (if r.status_details is Some { 1int } else { 0 });
    let c10 = c9 + 1;
    assert(take_str(fields, 0, "uuid"@) == Some((r.uuid, c1)));
    assert(take_opt_str(fields, c1, "historyId"@) == Some((r.history_id, c2)));
    assert(take_opt_str(fields, c2, "testCaseId"@) == Some((r.test_case_id, c3)));
    assert(take_str(fields, c3, "name"@) == Some((r.name, c4)));
    assert(take_opt_str(fields, c4, "fullName"@) == Some((r.full_name, c5)));
    assert(take_opt_str(fields, c5, "description"@) == Some((r.description, c6)));
    assert(take_opt_str(fields, c6, "descriptionHtml"@) == Some((r.description_html, c7)));
    assert(take_str(fields, c7, "status"@) == Some((r.status.spec_str(), c8)));
    assert(take_opt_val(fields, c8, "statusDetails"@) == (
        match r.status_details {
            Some(d) => Some(spec_details_json(d)),
            None => None::<JsonAbs>,
        },
        c9,
    ));
    assert(take_str(fields, c9, "stage"@) == Some((r.stage.spec_str(), c10)));
    assert(c10 == spec_result_scalar_len(r));
}

/// The cursor standing before each collection member of a result's encoding.
pub open spec fn spec_pos_attachments(r: ResultAbs) -> int {
    spec_result_scalar_len(r) + (if r.steps.len() > 0 { 1int } else { 0 })
}

/// The cursor standing before the parameter member.
pub open spec fn spec_pos_parameters(r: ResultAbs) -> int {
    spec_pos_attachments(r) + (if r.attachments.len() > 0 { 1int } else { 0 })
}

/// The cursor standing before the label member.
pub open spec fn spec_pos_labels(r: ResultAbs) -> int {
    spec_pos_parameters(r) + (if r.parameters.len() > 0 { 1int } else { 0 })
}

/// The cursor standing before the link member.
pub open spec fn spec_pos_links(r: ResultAbs) -> int {
    spec_pos_labels(r) + (if r.labels.len() > 0 { 1int } else { 0 })
}

/// The cursor standing before the start member.
pub open spec fn spec_pos_start(r: ResultAbs) -> int {
    spec_pos_links(r) + (if r.links.len() > 0 { 1int } else { 0 })
}

/// The disequalities of the collection member names, revealed once.
proof fn lemma_rest_keys()
    ensures
        "steps"@ != "attachments"@,
        "steps"@ != "parameters"@,
        "steps"@ != "labels"@,
        "steps"@ != "links"@,
        "steps"@ != "start"@,
        "attachments"@ != "parameters"@,
        "attachments"@ != "labels"@,
        "attachments"@ != "links"@,
        "attachments"@ != "start"@,
        "parameters"@ != "labels"@,
        "parameters"@ != "links"@,
        "parameters"@ != "start"@,
        "labels"@ != "links"@,
        "labels"@ != "start"@,
        "links"@ != "start"@,
        "start"@ != "stop"@,
{
    reveal_strlit("steps");
    reveal_strlit("attachments");
    reveal_strlit("parameters");
    reveal_strlit("labels");
    reveal_strlit("links");
    reveal_strlit("start");
    reveal_strlit("stop");
    lemma_seq_neq_at("steps"@, "attachments"@, 0);
    lemma_seq_neq_at("steps"@, "parameters"@, 0);
    lemma_seq_neq_at("steps"@, "labels"@, 0);
    lemma_seq_neq_at("steps"@, "links"@, 0);
    lemma_seq_neq_at("steps"@, "start"@, 2);
    lemma_seq_neq_at("attachments"@, "parameters"@, 0);
    lemma_seq_neq_at("attachments"@, "labels"@, 0);
    lemma_seq_neq_at("attachments"@, "links"@, 0);
    lemma_seq_neq_at("attachments"@, "start"@, 0);
    lemma_seq_neq_at("parameters"@, "labels"@, 0);
    lemma_seq_neq_at("parameters"@, "links"@, 0);
    lemma_seq_neq_at("parameters"@, "start"@, 0);
    lemma_seq_neq_len("labels"@, "links"@);
    lemma_seq_neq_at("labels"@, "start"@, 0);
    lemma_seq_neq_at("links"@, "start"@, 0);
    lemma_seq_neq_len("start"@, "stop"@);
}

/// Reading the step member at its cursor.
#[verifier::rlimit(100)]
proof fn lemma_rest_take_steps(r: ResultAbs)
    ensures
        take_opt_arr(spec_result_json(r)->Obj_0, spec_result_scalar_len(r), "steps"@) == Some(
            (spec_steps_json(r.steps), spec_pos_attachments(r)),
        ),
{
    lemma_rest_keys();
}

/// Reading the attachment member at its cursor.
#[verifier::rlimit(100)]
proof fn lemma_rest_take_attachments(r: ResultAbs)
    ensures
        take_opt_arr(spec_result_json(r)->Obj_0, spec_pos_attachments(r), "attachments"@) == Some(
            (spec_attachments_json(r.attachments), spec_pos_parameters(r)),
        ),
{
    lemma_rest_keys();
}

/// Reading the parameter member at its cursor.
#[verifier::rlimit(100)]
proof fn lemma_rest_take_parameters(r: ResultAbs)
    ensures
        take_opt_arr(spec_result_json(r)->Obj_0, spec_pos_parameters(r), "parameters"@) == Some(
            (spec_parameters_json(r.parameters), spec_pos_labels(r)),
        ),
{
    lemma_rest_keys();
}

/// Reading the label member at its cursor.
#[verifier::rlimit(100)]
proof fn lemma_rest_take_labels(r: ResultAbs)
    ensures
        take_opt_arr(spec_result_json(r)->Obj_0, spec_pos_labels(r), "labels"@) == Some(
            (spec_labels_json(r.labels), spec_pos_links(r)),
        ),
{
    lemma_rest_keys();
}

/// Reading the link member at its cursor.
#[verifier::rlimit(100)]
proof fn lemma_rest_take_links(r: ResultAbs)
    ensures
        take_opt_arr(spec_result_json(r)->Obj_0, spec_pos_links(r), "links"@) == Some(
            (spec_links_json(r.links), spec_pos_start(r)),
        ),
{
    lemma_rest_keys();
}

/// Reading the two time members at their cursors.
#[verifier::rlimit(100)]
proof fn lemma_rest_take_times(r: ResultAbs)
    ensures
        take_int(spec_result_json(r)->Obj_0, spec_pos_start(r), "start"@) == Some(
            (r.start, spec_pos_start(r) + 1),
        ),
        take_int(spec_result_json(r)->Obj_0, spec_pos_start(r) + 1, "stop"@) == Some(
            (r.stop, spec_pos_start(r) + 2),
        ),
{
    lemma_rest_keys();
}

/// Decoding the collection members of an encoded result, from the cursor
/// after the scalar members, recovers the whole result.
#[verifier::rlimit(100)]
proof fn lemma_result_rest_round_trip(r: ResultAbs)
    ensures
        spec_result_from_rest(
            spec_result_json(r)->Obj_0,
            spec_result_scalar_len(r),
            r.uuid,
            r.history_id,
            r.test_case_id,
            r.name,
            r.full_name,
            r.description,
            r.description_html,
            r.status,
            r.status_details,
            r.stage,
        ) == Some(r),
{
    lemma_rest_take_steps(r);
    lemma_rest_take_attachments(r);
    lemma_rest_take_parameters(r);
    lemma_rest_take_labels(r);
    lemma_rest_take_links(r);
    lemma_rest_take_times(r);
    lemma_steps_round_trip(r.steps);
    lemma_attachments_round_trip(r.attachments);
    lemma_parameters_round_trip(r.parameters);
    lemma_labels_round_trip(r.labels);
    lemma_links_round_trip(r.links);
}

/// Decoding an encoded test result gives the result back, field for field:
/// the serialized form loses nothing.
pub proof fn lemma_result_round_trip(r: ResultAbs)
    ensures
        spec_result_from(spec_result_json(r)) == Some(r),
{
    lemma_result_scalars_round_trip(r);
    lemma_result_rest_round_trip(r);
}

} // verus!
