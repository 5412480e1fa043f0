//! Executable construction of the JSON documents that the encoding
//! specifies: each function builds the document whose shape is exactly the
//! one `codec` assigns to the value's view.

use vstd::prelude::*;

use crate::codec::arr_fld;
use crate::codec::fld;
use crate::codec::lemma_attachments_json_index;
use crate::codec::lemma_attachments_json_len;
use crate::codec::lemma_children_json_index;
use crate::codec::lemma_children_json_len;
use crate::codec::lemma_fixtures_json_index;
use crate::codec::lemma_fixtures_json_len;
use crate::codec::lemma_labels_json_index;
use crate::codec::lemma_labels_json_len;
use crate::codec::lemma_links_json_index;
use crate::codec::lemma_links_json_len;
use crate::codec::lemma_parameters_json_index;
use crate::codec::lemma_parameters_json_len;
use crate::codec::lemma_statuses_json_index;
use crate::codec::lemma_statuses_json_len;
use crate::codec::lemma_steps_json_index;
use crate::codec::lemma_steps_json_len;
use crate::codec::opt_bool_fld;
use crate::codec::opt_str_fld;
use crate::codec::spec_attachment_json;
use crate::codec::spec_attachments_json;
use crate::codec::spec_category_json;
use crate::codec::spec_children_json;
use crate::codec::spec_container_json;
use crate::codec::spec_details_json;
use crate::codec::spec_fixture_json;
use crate::codec::spec_fixtures_json;
use crate::codec::spec_label_json;
use crate::codec::spec_labels_json;
use crate::codec::spec_link_json;
use crate::codec::spec_links_json;
use crate::codec::spec_parameter_json;
use crate::codec::spec_parameters_json;
use crate::codec::spec_result_json;
use crate::codec::spec_statuses_json;
use crate::codec::spec_step_json;
use crate::codec::spec_steps_json;
use crate::json::abs_fields;
use crate::json::abs_items;
use crate::json::lemma_abs_fields_push;
use crate::json::lemma_abs_items_push;
use crate::json::JsonValue;
use crate::model::Attachment;
use crate::model::Category;
use crate::model::FixtureResult;
use crate::model::Label;
use crate::model::Link;
use crate::model::Parameter;
use crate::model::StatusDetails;
use crate::model::StepResult;
use crate::model::TestResult;
use crate::model::TestResultContainer;
use crate::views::lemma_steps_abs_index;

verus! {

broadcast use vstd::std_specs::vec::group_vec_axioms;

/// The shape of the members built so far.
pub open spec fn fields_abs(fields: Vec<(String, JsonValue)>) -> Seq<
    (Seq<char>, crate::json::JsonAbs),
> {
    abs_fields(fields@, fields@.len() as int)
}

/// The shape of the elements built so far.
pub open spec fn items_abs(items: Vec<JsonValue>) -> Seq<crate::json::JsonAbs> {
    abs_items(items@, items@.len() as int)
}

/// Appends one member.
fn push_field(fields: &mut Vec<(String, JsonValue)>, key: &str, v: JsonValue)
    ensures
        fields_abs(*final(fields)) == fields_abs(*old(fields)) + fld(key@, v.abs()),
{
    let ghost pre = fields@;
    let k = String::from_str(key);
    fields.push((k, v));
    proof {
        lemma_abs_fields_push(pre, (k, v));
        assert(fields_abs(*fields) =~= fields_abs(*old(fields)) + fld(key@, v.abs()));
    }
}

/// Appends an optional string member.
fn push_opt_str_field(fields: &mut Vec<(String, JsonValue)>, key: &str, v: &Option<String>)
    ensures
        fields_abs(*final(fields)) == fields_abs(*old(fields)) + opt_str_fld(
            key@,
            crate::views::opt_str_abs(*v),
        ),
{
    match v {
        Some(s) => {
            push_field(fields, key, JsonValue::Str(s.clone()));
            assert(fields_abs(*fields) =~= fields_abs(*old(fields)) + opt_str_fld(
                key@,
                crate::views::opt_str_abs(*v),
            ));
        },
        None => {
            assert(fields_abs(*fields) =~= fields_abs(*old(fields)) + opt_str_fld(
                key@,
                crate::views::opt_str_abs(*v),
            ));
        },
    }
}

/// Appends an optional boolean member.
fn push_opt_bool_field(fields: &mut Vec<(String, JsonValue)>, key: &str, v: &Option<bool>)
    ensures
        fields_abs(*final(fields)) == fields_abs(*old(fields)) + opt_bool_fld(key@, *v),
{
    match v {
        Some(b) => {
            push_field(fields, key, JsonValue::Bool(*b));
            assert(fields_abs(*fields) =~= fields_abs(*old(fields)) + opt_bool_fld(key@, *v));
        },
        None => {
            assert(fields_abs(*fields) =~= fields_abs(*old(fields)) + opt_bool_fld(key@, *v));
        },
    }
}

/// Appends a collection member unless it is empty.
fn push_arr_field(fields: &mut Vec<(String, JsonValue)>, key: &str, items: Vec<JsonValue>)
    ensures
        fields_abs(*final(fields)) == fields_abs(*old(fields)) + arr_fld(key@, items_abs(items)),
{
    let ghost ia = items_abs(items);
    if items.len() > 0 {
        proof {
            crate::json::lemma_abs_items_len(items@, items@.len() as int);
        }
        push_field(fields, key, JsonValue::Arr(items));
        assert(fields_abs(*fields) =~= fields_abs(*old(fields)) + arr_fld(key@, ia));
    } else {
        assert(ia =~= Seq::empty());
        assert(fields_abs(*fields) =~= fields_abs(*old(fields)) + arr_fld(key@, ia));
    }
}

/// The document encoding status details.
pub fn details_to_json(d: &StatusDetails) -> (v: JsonValue)
    ensures
        v.abs() == spec_details_json(d.abs()),
{
    let mut fields: Vec<(String, JsonValue)> = Vec::new();
    assert(fields_abs(fields) =~= Seq::empty());
    push_opt_bool_field(&mut fields, "known", &d.known);
    push_opt_bool_field(&mut fields, "muted", &d.muted);
    push_opt_bool_field(&mut fields, "flaky", &d.flaky);
    push_opt_str_field(&mut fields, "message", &d.message);
    push_opt_str_field(&mut fields, "trace", &d.trace);
    let v = JsonValue::Obj(fields);
    proof {
        assert(v.abs()->Obj_0 =~= spec_details_json(d.abs())->Obj_0);
    }
    v
}

/// The document encoding a label.
pub fn label_to_json(l: &Label) -> (v: JsonValue)
    ensures
        v.abs() == spec_label_json(l.abs()),
{
    let mut fields: Vec<(String, JsonValue)> = Vec::new();
    assert(fields_abs(fields) =~= Seq::empty());
    push_field(&mut fields, "name", JsonValue::Str(l.name.clone()));
    push_field(&mut fields, "value", JsonValue::Str(l.value.clone()));
    let v = JsonValue::Obj(fields);
    proof {
        assert(v.abs()->Obj_0 =~= spec_label_json(l.abs())->Obj_0);
    }
    v
}

/// The document encoding a link.
pub fn link_to_json(l: &Link) -> (v: JsonValue)
    ensures
        v.abs() == spec_link_json(l.abs()),
{
    let mut fields: Vec<(String, JsonValue)> = Vec::new();
    assert(fields_abs(fields) =~= Seq::empty());
    push_opt_str_field(&mut fields, "name", &l.name);
    push_field(&mut fields, "url", JsonValue::Str(l.url.clone()));
    match &l.link_type {
        Some(t) => {
            push_field(&mut fields, "type", JsonValue::Str(String::from_str(t.as_str())));
        },
        None => (),
    }
    let v = JsonValue::Obj(fields);
    proof {
        assert(v.abs()->Obj_0 =~= spec_link_json(l.abs())->Obj_0);
    }
    v
}

/// The document encoding a parameter.
pub fn parameter_to_json(p: &Parameter) -> (v: JsonValue)
    ensures
        v.abs() == spec_parameter_json(p.abs()),
{
    let mut fields: Vec<(String, JsonValue)> = Vec::new();
    assert(fields_abs(fields) =~= Seq::empty());
    push_field(&mut fields, "name", JsonValue::Str(p.name.clone()));
    push_field(&mut fields, "value", JsonValue::Str(p.value.clone()));
    push_opt_bool_field(&mut fields, "excluded", &p.excluded);
    match &p.mode {
        Some(m) => {
            push_field(&mut fields, "mode", JsonValue::Str(String::from_str(m.as_str())));
        },
        None => (),
    }
    let v = JsonValue::Obj(fields);
    proof {
        assert(v.abs()->Obj_0 =~= spec_parameter_json(p.abs())->Obj_0);
    }
    v
}

/// The document encoding an attachment reference.
pub fn attachment_to_json(a: &Attachment) -> (v: JsonValue)
    ensures
        v.abs() == spec_attachment_json(a.abs()),
{
    let mut fields: Vec<(String, JsonValue)> = Vec::new();
    assert(fields_abs(fields) =~= Seq::empty());
    push_field(&mut fields, "name", JsonValue::Str(a.name.clone()));
    push_field(&mut fields, "source", JsonValue::Str(a.source.clone()));
    push_opt_str_field(&mut fields, "type", &a.mime_type);
    let v = JsonValue::Obj(fields);
    proof {
        assert(v.abs()->Obj_0 =~= spec_attachment_json(a.abs())->Obj_0);
    }
    v
}

/// The documents encoding a label sequence.
pub fn labels_to_items(ls: &Vec<Label>) -> (items: Vec<JsonValue>)
    ensures
        items_abs(items) == spec_labels_json(ls@.map_values(|l: Label| l.abs())),
{
    let ghost lsa = ls@.map_values(|l: Label| l.abs());
    let mut items: Vec<JsonValue> = Vec::new();
    let n = ls.len();
    for i in 0..n
        invariant
            n == ls@.len(),
            lsa == ls@.map_values(|l: Label| l.abs()),
            items@.len() == i,
            forall|j: int|
                0 <= j < i ==> #[trigger] items_abs(items)[j] == spec_label_json(lsa[j]),
    {
        let ghost pre = items@;
        let v = label_to_json(&ls[i]);
        items.push(v);
        proof {
            lemma_abs_items_push(pre, v);
            crate::json::lemma_abs_items_len(items@, items@.len() as int);
            assert forall|j: int| 0 <= j < i + 1 implies #[trigger] items_abs(items)[j]
                == spec_label_json(lsa[j]) by {
                crate::json::lemma_abs_items_index(items@, items@.len() as int, j);
                if j < i {
                    crate::json::lemma_abs_items_index(pre, pre.len() as int, j);
                    assert(items@[j] == pre[j]);
                }
            }
        }
    }
    proof {
        crate::json::lemma_abs_items_len(items@, items@.len() as int);
        lemma_labels_json_len(lsa);
        assert forall|j: int| 0 <= j < n implies items_abs(items)[j] == spec_labels_json(lsa)[j] by {
            lemma_labels_json_index(lsa, j);
        }
        assert(items_abs(items) =~= spec_labels_json(lsa));
    }
    items
}

/// The documents encoding a link sequence.
pub fn links_to_items(ls: &Vec<Link>) -> (items: Vec<JsonValue>)
    ensures
        items_abs(items) == spec_links_json(ls@.map_values(|l: Link| l.abs())),
{
    let ghost lsa = ls@.map_values(|l: Link| l.abs());
    let mut items: Vec<JsonValue> = Vec::new();
    let n = ls.len();
    for i in 0..n
        invariant
            n == ls@.len(),
            lsa == ls@.map_values(|l: Link| l.abs()),
            items@.len() == i,
            forall|j: int| 0 <= j < i ==> #[trigger] items_abs(items)[j] == spec_link_json(lsa[j]),
    {
        let ghost pre = items@;
        let v = link_to_json(&ls[i]);
        items.push(v);
        proof {
            lemma_abs_items_push(pre, v);
            crate::json::lemma_abs_items_len(items@, items@.len() as int);
            assert forall|j: int| 0 <= j < i + 1 implies #[trigger] items_abs(items)[j]
                == spec_link_json(lsa[j]) by {
                crate::json::lemma_abs_items_index(items@, items@.len() as int, j);
                if j < i {
                    crate::json::lemma_abs_items_index(pre, pre.len() as int, j);
                    assert(items@[j] == pre[j]);
                }
            }
        }
    }
    proof {
        crate::json::lemma_abs_items_len(items@, items@.len() as int);
        lemma_links_json_len(lsa);
        assert forall|j: int| 0 <= j < n implies items_abs(items)[j] == spec_links_json(lsa)[j] by {
            lemma_links_json_index(lsa, j);
        }
        assert(items_abs(items) =~= spec_links_json(lsa));
    }
    items
}

/// The documents encoding a parameter sequence.
pub fn parameters_to_items(ps: &Vec<Parameter>) -> (items: Vec<JsonValue>)
    ensures
        items_abs(items) == spec_parameters_json(ps@.map_values(|p: Parameter| p.abs())),
{
    let ghost psa = ps@.map_values(|p: Parameter| p.abs());
    let mut items: Vec<JsonValue> = Vec::new();
    let n = ps.len();
    for i in 0..n
        invariant
            n == ps@.len(),
            psa == ps@.map_values(|p: Parameter| p.abs()),
            items@.len() == i,
            forall|j: int|
                0 <= j < i ==> #[trigger] items_abs(items)[j] == spec_parameter_json(psa[j]),
    {
        let ghost pre = items@;
        let v = parameter_to_json(&ps[i]);
        items.push(v);
        proof {
            lemma_abs_items_push(pre, v);
            crate::json::lemma_abs_items_len(items@, items@.len() as int);
            assert forall|j: int| 0 <= j < i + 1 implies #[trigger] items_abs(items)[j]
                == spec_parameter_json(psa[j]) by {
                crate::json::lemma_abs_items_index(items@, items@.len() as int, j);
                if j < i {
                    crate::json::lemma_abs_items_index(pre, pre.len() as int, j);
                    assert(items@[j] == pre[j]);
                }
            }
        }
    }
    proof {
        crate::json::lemma_abs_items_len(items@, items@.len() as int);
        lemma_parameters_json_len(psa);
        assert forall|j: int| 0 <= j < n implies items_abs(items)[j] == spec_parameters_json(
            psa,
        )[j] by {
            lemma_parameters_json_index(psa, j);
        }
        assert(items_abs(items) =~= spec_parameters_json(psa));
    }
    items
}

/// The documents encoding an attachment sequence.
pub fn attachments_to_items(attachments: &Vec<Attachment>) -> (items: Vec<JsonValue>)
    ensures
        items_abs(items) == spec_attachments_json(
            attachments@.map_values(|a: Attachment| a.abs()),
        ),
{
    let ghost asa = attachments@.map_values(|a: Attachment| a.abs());
    let mut items: Vec<JsonValue> = Vec::new();
    let n = attachments.len();
    for i in 0..n
        invariant
            n == attachments@.len(),
            asa == attachments@.map_values(|a: Attachment| a.abs()),
            items@.len() == i,
            forall|j: int|
                0 <= j < i ==> #[trigger] items_abs(items)[j] == spec_attachment_json(asa[j]),
    {
        let ghost pre = items@;
        let v = attachment_to_json(&attachments[i]);
        items.push(v);
        proof {
            lemma_abs_items_push(pre, v);
            crate::json::lemma_abs_items_len(items@, items@.len() as int);
            assert forall|j: int| 0 <= j < i + 1 implies #[trigger] items_abs(items)[j]
                == spec_attachment_json(asa[j]) by {
                crate::json::lemma_abs_items_index(items@, items@.len() as int, j);
                if j < i {
                    crate::json::lemma_abs_items_index(pre, pre.len() as int, j);
                    assert(items@[j] == pre[j]);
                }
            }
        }
    }
    proof {
        crate::json::lemma_abs_items_len(items@, items@.len() as int);
        lemma_attachments_json_len(asa);
        assert forall|j: int| 0 <= j < n implies items_abs(items)[j] == spec_attachments_json(
            asa,
        )[j] by {
            lemma_attachments_json_index(asa, j);
        }
        assert(items_abs(items) =~= spec_attachments_json(asa));
    }
    items
}

/// The documents encoding a step sequence, nested steps included.
pub fn steps_to_items(steps: &Vec<StepResult>) -> (items: Vec<JsonValue>)
    ensures
        items_abs(items) == spec_steps_json(crate::views::steps_abs(steps@)),
    decreases steps@,
{
    let ghost ssa = crate::views::steps_abs(steps@);
    let mut items: Vec<JsonValue> = Vec::new();
    let n = steps.len();
    proof {
        assert forall|j: int| 0 <= j < steps@.len() implies #[trigger] (decreases_to!(
            steps@ => steps@[j],
        )) by {
            assert(decreases_to!(steps@ => steps@[j]));
        }
    }
    for i in 0..n
        invariant
            n == steps@.len(),
            ssa == crate::views::steps_abs(steps@),
            items@.len() == i,
            forall|j: int| 0 <= j < i ==> #[trigger] items_abs(items)[j] == spec_step_json(ssa[j]),
            forall|j: int| 0 <= j < steps@.len() ==> #[trigger] (decreases_to!(steps@ => steps@[j])),
    {
        let ghost pre = items@;
        proof {
            assert(decreases_to!(steps@ => steps@[i as int]));
        }
        let v = step_to_json(&steps[i]);
        items.push(v);
        proof {
            lemma_steps_abs_index(steps@, i as int);
            lemma_abs_items_push(pre, v);
            crate::json::lemma_abs_items_len(items@, items@.len() as int);
            assert forall|j: int| 0 <= j < i + 1 implies #[trigger] items_abs(items)[j]
                == spec_step_json(ssa[j]) by {
                crate::json::lemma_abs_items_index(items@, items@.len() as int, j);
                if j < i {
                    crate::json::lemma_abs_items_index(pre, pre.len() as int, j);
                    assert(items@[j] == pre[j]);
                }
            }
        }
    }
    proof {
        crate::json::lemma_abs_items_len(items@, items@.len() as int);
        crate::views::lemma_steps_abs_to_len(steps@, steps@.len() as int);
        lemma_steps_json_len(ssa);
        assert forall|j: int| 0 <= j < n implies items_abs(items)[j] == spec_steps_json(ssa)[j] by {
            lemma_steps_json_index(ssa, j);
        }
        assert(items_abs(items) =~= spec_steps_json(ssa));
    }
    items
}

/// The document encoding a step, nested steps included.
pub fn step_to_json(s: &StepResult) -> (v: JsonValue)
    ensures
        v.abs() == spec_step_json(s.abs()),
    decreases *s,
{
    let mut fields: Vec<(String, JsonValue)> = Vec::new();
    assert(fields_abs(fields) =~= Seq::empty());
    push_opt_str_field(&mut fields, "uuid", &s.uuid);
    push_field(&mut fields, "name", JsonValue::Str(s.name.clone()));
    push_field(&mut fields, "status", JsonValue::Str(String::from_str(s.status.as_str())));
    match &s.status_details {
        Some(d) => {
            let dv = details_to_json(d);
            push_field(&mut fields, "statusDetails", dv);
        },
        None => (),
    }
    push_field(&mut fields, "stage", JsonValue::Str(String::from_str(s.stage.as_str())));
    proof {
        assert(decreases_to!(*s => s.steps));
        assert(decreases_to!(s.steps => s.steps@));
    }
    let step_items = steps_to_items(&s.steps);
    push_arr_field(&mut fields, "steps", step_items);
    let att_items = attachments_to_items(&s.attachments);
    push_arr_field(&mut fields, "attachments", att_items);
    let par_items = parameters_to_items(&s.parameters);
    push_arr_field(&mut fields, "parameters", par_items);
    push_field(&mut fields, "start", JsonValue::Int(s.start));
    push_field(&mut fields, "stop", JsonValue::Int(s.stop));
    let v = JsonValue::Obj(fields);
    proof {
        assert(v.abs()->Obj_0 =~= spec_step_json(s.abs())->Obj_0);
    }
    v
}

/// The document encoding a test result.
pub fn result_to_json(r: &TestResult) -> (v: JsonValue)
    ensures
        v.abs() == spec_result_json(r.abs()),
{
    let mut fields: Vec<(String, JsonValue)> = Vec::new();
    assert(fields_abs(fields) =~= Seq::empty());
    push_field(&mut fields, "uuid", JsonValue::Str(r.uuid.clone()));
    push_opt_str_field(&mut fields, "historyId", &r.history_id);
    push_opt_str_field(&mut fields, "testCaseId", &r.test_case_id);
    push_field(&mut fields, "name", JsonValue::Str(r.name.clone()));
    push_opt_str_field(&mut fields, "fullName", &r.full_name);
    push_opt_str_field(&mut fields, "description", &r.description);
    push_opt_str_field(&mut fields, "descriptionHtml", &r.description_html);
    push_field(&mut fields, "status", JsonValue::Str(String::from_str(r.status.as_str())));
    match &r.status_details {
        Some(d) => {
            let dv = details_to_json(d);
            push_field(&mut fields, "statusDetails", dv);
        },
        None => (),
    }
    push_field(&mut fields, "stage", JsonValue::Str(String::from_str(r.stage.as_str())));
    let step_items = steps_to_items(&r.steps);
    push_arr_field(&mut fields, "steps", step_items);
    let att_items = attachments_to_items(&r.attachments);
    push_arr_field(&mut fields, "attachments", att_items);
    let par_items = parameters_to_items(&r.parameters);
    push_arr_field(&mut fields, "parameters", par_items);
    let label_items = labels_to_items(&r.labels);
    push_arr_field(&mut fields, "labels", label_items);
    let link_items = links_to_items(&r.links);
    push_arr_field(&mut fields, "links", link_items);
    push_field(&mut fields, "start", JsonValue::Int(r.start));
    push_field(&mut fields, "stop", JsonValue::Int(r.stop));
    let v = JsonValue::Obj(fields);
    proof {
        assert(v.abs()->Obj_0 =~= spec_result_json(r.abs())->Obj_0);
    }
    v
}

/// The document encoding a fixture.
pub fn fixture_to_json(f: &FixtureResult) -> (v: JsonValue)
    ensures
        v.abs() == spec_fixture_json(f.abs()),
{
    let mut fields: Vec<(String, JsonValue)> = Vec::new();
    assert(fields_abs(fields) =~= Seq::empty());
    push_field(&mut fields, "name", JsonValue::Str(f.name.clone()));
    push_field(&mut fields, "status", JsonValue::Str(String::from_str(f.status.as_str())));
    match &f.status_details {
        Some(d) => {
            let dv = details_to_json(d);
            push_field(&mut fields, "statusDetails", dv);
        },
        None => (),
    }
    push_field(&mut fields, "stage", JsonValue::Str(String::from_str(f.stage.as_str())));
    let step_items = steps_to_items(&f.steps);
    push_arr_field(&mut fields, "steps", step_items);
    let att_items = attachments_to_items(&f.attachments);
    push_arr_field(&mut fields, "attachments", att_items);
    let par_items = parameters_to_items(&f.parameters);
    push_arr_field(&mut fields, "parameters", par_items);
    push_field(&mut fields, "start", JsonValue::Int(f.start));
    push_field(&mut fields, "stop", JsonValue::Int(f.stop));
    let v = JsonValue::Obj(fields);
    proof {
        assert(v.abs()->Obj_0 =~= spec_fixture_json(f.abs())->Obj_0);
    }
    v
}

/// The document encoding a container.
pub fn container_to_json(c: &TestResultContainer) -> (v: JsonValue)
    ensures
        v.abs() == spec_container_json(c.abs()),
{
    let ghost ca = c.children@.map_values(|u: String| u@);
    let mut child_items: Vec<JsonValue> = Vec::new();
    let n = c.children.len();
    for i in 0..n
        invariant
            n == c.children@.len(),
            ca == c.children@.map_values(|u: String| u@),
            child_items@.len() == i,
            forall|j: int|
                0 <= j < i ==> #[trigger] items_abs(child_items)[j] == crate::json::JsonAbs::Str(
                    ca[j],
                ),
    {
        let ghost pre = child_items@;
        let v = JsonValue::Str(c.children[i].clone());
        child_items.push(v);
        proof {
            lemma_abs_items_push(pre, v);
            crate::json::lemma_abs_items_len(child_items@, child_items@.len() as int);
            assert forall|j: int| 0 <= j < i + 1 implies #[trigger] items_abs(child_items)[j]
                == crate::json::JsonAbs::Str(ca[j]) by {
                crate::json::lemma_abs_items_index(child_items@, child_items@.len() as int, j);
                if j < i {
                    crate::json::lemma_abs_items_index(pre, pre.len() as int, j);
                    assert(child_items@[j] == pre[j]);
                }
            }
        }
    }
    proof {
        crate::json::lemma_abs_items_len(child_items@, child_items@.len() as int);
        lemma_children_json_len(ca);
        assert forall|j: int| 0 <= j < n implies items_abs(child_items)[j] == spec_children_json(
            ca,
        )[j] by {
            lemma_children_json_index(ca, j);
        }
        assert(items_abs(child_items) =~= spec_children_json(ca));
    }
    let before_items = fixtures_to_items(&c.befores);
    let after_items = fixtures_to_items(&c.afters);
    let mut fields: Vec<(String, JsonValue)> = Vec::new();
    assert(fields_abs(fields) =~= Seq::empty());
    push_field(&mut fields, "uuid", JsonValue::Str(c.uuid.clone()));
    push_opt_str_field(&mut fields, "name", &c.name);
    push_arr_field(&mut fields, "children", child_items);
    push_arr_field(&mut fields, "befores", before_items);
    push_arr_field(&mut fields, "afters", after_items);
    match c.start {
        Some(t) => {
            push_field(&mut fields, "start", JsonValue::Int(t));
        },
        None => (),
    }
    match c.stop {
        Some(t) => {
            push_field(&mut fields, "stop", JsonValue::Int(t));
        },
        None => (),
    }
    let v = JsonValue::Obj(fields);
    proof {
        assert(v.abs()->Obj_0 =~= spec_container_json(c.abs())->Obj_0);
    }
    v
}

/// The documents encoding a fixture sequence.
pub fn fixtures_to_items(fs: &Vec<FixtureResult>) -> (items: Vec<JsonValue>)
    ensures
        items_abs(items) == spec_fixtures_json(fs@.map_values(|f: FixtureResult| f.abs())),
{
    let ghost fsa = fs@.map_values(|f: FixtureResult| f.abs());
    let mut items: Vec<JsonValue> = Vec::new();
    let n = fs.len();
    for i in 0..n
        invariant
            n == fs@.len(),
            fsa == fs@.map_values(|f: FixtureResult| f.abs()),
            items@.len() == i,
            forall|j: int|
                0 <= j < i ==> #[trigger] items_abs(items)[j] == spec_fixture_json(fsa[j]),
    {
        let ghost pre = items@;
        let v = fixture_to_json(&fs[i]);
        items.push(v);
        proof {
            lemma_abs_items_push(pre, v);
            crate::json::lemma_abs_items_len(items@, items@.len() as int);
            assert forall|j: int| 0 <= j < i + 1 implies #[trigger] items_abs(items)[j]
                == spec_fixture_json(fsa[j]) by {
                crate::json::lemma_abs_items_index(items@, items@.len() as int, j);
                if j < i {
                    crate::json::lemma_abs_items_index(pre, pre.len() as int, j);
                    assert(items@[j] == pre[j]);
                }
            }
        }
    }
    proof {
        crate::json::lemma_abs_items_len(items@, items@.len() as int);
        lemma_fixtures_json_len(fsa);
        assert forall|j: int| 0 <= j < n implies items_abs(items)[j] == spec_fixtures_json(
            fsa,
        )[j] by {
            lemma_fixtures_json_index(fsa, j);
        }
        assert(items_abs(items) =~= spec_fixtures_json(fsa));
    }
    items
}

/// The document encoding a defect category.
pub fn category_to_json(c: &Category) -> (v: JsonValue)
    ensures
        v.abs() == spec_category_json(c.abs()),
{
    let ghost sta = c.matched_statuses@;
    let mut status_items: Vec<JsonValue> = Vec::new();
    let n = c.matched_statuses.len();
    for i in 0..n
        invariant
            n == c.matched_statuses@.len(),
            sta == c.matched_statuses@,
            status_items@.len() == i,
            forall|j: int|
                0 <= j < i ==> #[trigger] items_abs(status_items)[j] == crate::json::JsonAbs::Str(
                    sta[j].spec_str(),
                ),
    {
        let ghost pre = status_items@;
        let v = JsonValue::Str(String::from_str(c.matched_statuses[i].as_str()));
        status_items.push(v);
        proof {
            lemma_abs_items_push(pre, v);
            crate::json::lemma_abs_items_len(status_items@, status_items@.len() as int);
            assert forall|j: int| 0 <= j < i + 1 implies #[trigger] items_abs(status_items)[j]
                == crate::json::JsonAbs::Str(sta[j].spec_str()) by {
                crate::json::lemma_abs_items_index(status_items@, status_items@.len() as int, j);
                if j < i {
                    crate::json::lemma_abs_items_index(pre, pre.len() as int, j);
                    assert(status_items@[j] == pre[j]);
                }
            }
        }
    }
    proof {
        crate::json::lemma_abs_items_len(status_items@, status_items@.len() as int);
        lemma_statuses_json_len(sta);
        assert forall|j: int| 0 <= j < n implies items_abs(status_items)[j] == spec_statuses_json(
            sta,
        )[j] by {
            lemma_statuses_json_index(sta, j);
        }
        assert(items_abs(status_items) =~= spec_statuses_json(sta));
    }
    let mut fields: Vec<(String, JsonValue)> = Vec::new();
    assert(fields_abs(fields) =~= Seq::empty());
    push_field(&mut fields, "name", JsonValue::Str(c.name.clone()));
    push_arr_field(&mut fields, "matchedStatuses", status_items);
    push_opt_str_field(&mut fields, "messageRegex", &c.message_regex);
    push_opt_str_field(&mut fields, "traceRegex", &c.trace_regex);
    push_opt_bool_field(&mut fields, "flaky", &c.flaky);
    let v = JsonValue::Obj(fields);
    proof {
        assert(v.abs()->Obj_0 =~= spec_category_json(c.abs())->Obj_0);
    }
    v
}

} // verus!
