//! Executable decoding of the JSON documents back into the data model: each
//! function reads the layout the encoder writes and returns exactly what the
//! decoding specification assigns to the document's shape.

use vstd::prelude::*;

use crate::codec::spec_attachment_from;
use crate::codec::spec_attachments_from;
use crate::codec::spec_details_from;
use crate::codec::spec_label_from;
use crate::codec::spec_labels_from;
use crate::codec::spec_link_from;
use crate::codec::spec_link_type_from;
use crate::codec::spec_links_from;
use crate::codec::spec_mode_from;
use crate::codec::spec_parameter_from;
use crate::codec::spec_parameters_from;
use crate::codec::spec_result_from;
use crate::codec::spec_result_from_rest;
use crate::codec::spec_stage_from;
use crate::codec::spec_status_from;
use crate::codec::spec_step_from;
use crate::codec::spec_steps_from;
use crate::codec::take_int;
use crate::codec::take_opt_arr;
use crate::codec::take_opt_bool;
use crate::codec::take_opt_str;
use crate::codec::take_opt_val;
use crate::codec::take_str;
use crate::enums::LinkType;
use crate::enums::ParameterMode;
use crate::enums::Stage;
use crate::enums::Status;
use crate::json::abs_fields;
use crate::json::abs_items;
use crate::json::lemma_abs_fields_index;
use crate::json::lemma_abs_fields_len;
use crate::json::lemma_abs_items_index;
use crate::json::lemma_abs_items_len;
use crate::json::JsonAbs;
use crate::json::JsonValue;
use crate::model::Attachment;
use crate::model::Label;
use crate::model::Link;
use crate::model::Parameter;
use crate::model::StatusDetails;
use crate::model::StepResult;
use crate::model::TestResult;
use crate::views::opt_str_abs;

verus! {

broadcast use vstd::std_specs::vec::group_vec_axioms;

/// The shape of an object's member list.
pub open spec fn fa(fields: Seq<(String, JsonValue)>) -> Seq<(Seq<char>, JsonAbs)> {
    abs_fields(fields, fields.len() as int)
}

/// Reads a required string member at the cursor.
fn take_str_x(fields: &Vec<(String, JsonValue)>, i: usize, key: &str) -> (r: Option<
    (String, usize),
>)
    requires
        i <= fields@.len(),
    ensures
        match r {
            Some(p) => take_str(fa(fields@), i as int, key@) == Some((p.0@, p.1 as int)) && i < p.1
                <= fields@.len(),
            None => take_str(fa(fields@), i as int, key@) is None,
        },
{
    proof {
        lemma_abs_fields_len(fields@, fields@.len() as int);
    }
    if i < fields.len() {
        proof {
            lemma_abs_fields_index(fields@, fields@.len() as int, i as int);
        }
        if fields[i].0 == String::from_str(key) {
            match &fields[i].1 {
                JsonValue::Str(s) => Some((s.clone(), i + 1)),
                _ => None,
            }
        } else {
            None
        }
    } else {
        None
    }
}

/// Reads a required integer member at the cursor.
fn take_int_x(fields: &Vec<(String, JsonValue)>, i: usize, key: &str) -> (r: Option<(i64, usize)>)
    requires
        i <= fields@.len(),
    ensures
        match r {
            Some(p) => take_int(fa(fields@), i as int, key@) == Some((p.0 as int, p.1 as int)) && i
                < p.1 <= fields@.len(),
            None => take_int(fa(fields@), i as int, key@) is None,
        },
{
    proof {
        lemma_abs_fields_len(fields@, fields@.len() as int);
    }
    if i < fields.len() {
        proof {
            lemma_abs_fields_index(fields@, fields@.len() as int, i as int);
        }
        if fields[i].0 == String::from_str(key) {
            match &fields[i].1 {
                JsonValue::Int(n) => Some((*n, i + 1)),
                _ => None,
            }
        } else {
            None
        }
    } else {
        None
    }
}

/// Reads an optional string member at the cursor.
fn take_opt_str_x(fields: &Vec<(String, JsonValue)>, i: usize, key: &str) -> (r: Option<
    (Option<String>, usize),
>)
    requires
        i <= fields@.len(),
    ensures
        match r {
            Some(p) => take_opt_str(fa(fields@), i as int, key@) == Some(
                (opt_str_abs(p.0), p.1 as int),
            ) && i <= p.1 <= fields@.len(),
            None => take_opt_str(fa(fields@), i as int, key@) is None,
        },
{
    proof {
        lemma_abs_fields_len(fields@, fields@.len() as int);
    }
    if i < fields.len() {
        proof {
            lemma_abs_fields_index(fields@, fields@.len() as int, i as int);
        }
        if fields[i].0 == String::from_str(key) {
            match &fields[i].1 {
                JsonValue::Str(s) => Some((Some(s.clone()), i + 1)),
                _ => None,
            }
        } else {
            Some((None, i))
        }
    } else {
        Some((None, i))
    }
}

/// Reads an optional boolean member at the cursor.
fn take_opt_bool_x(fields: &Vec<(String, JsonValue)>, i: usize, key: &str) -> (r: Option<
    (Option<bool>, usize),
>)
    requires
        i <= fields@.len(),
    ensures
        match r {
            Some(p) => take_opt_bool(fa(fields@), i as int, key@) == Some((p.0, p.1 as int)) && i
                <= p.1 <= fields@.len(),
            None => take_opt_bool(fa(fields@), i as int, key@) is None,
        },
{
    proof {
        lemma_abs_fields_len(fields@, fields@.len() as int);
    }
    if i < fields.len() {
        proof {
            lemma_abs_fields_index(fields@, fields@.len() as int, i as int);
        }
        if fields[i].0 == String::from_str(key) {
            match &fields[i].1 {
                JsonValue::Bool(b) => Some((Some(*b), i + 1)),
                _ => None,
            }
        } else {
            Some((None, i))
        }
    } else {
        Some((None, i))
    }
}

/// The status named by a string, if any.
pub fn status_from_string(s: &String) -> (r: Option<Status>)
    ensures
        r == spec_status_from(s@),
{
    if *s == String::from_str("passed") {
        Some(Status::Passed)
    } else if *s == String::from_str("failed") {
        Some(Status::Failed)
    } else if *s == String::from_str("broken") {
        Some(Status::Broken)
    } else if *s == String::from_str("skipped") {
        Some(Status::Skipped)
    } else if *s == String::from_str("unknown") {
        Some(Status::Unknown)
    } else {
        None
    }
}

/// The stage named by a string, if any.
pub fn stage_from_string(s: &String) -> (r: Option<Stage>)
    ensures
        r == spec_stage_from(s@),
{
    if *s == String::from_str("scheduled") {
        Some(Stage::Scheduled)
    } else if *s == String::from_str("running") {
        Some(Stage::Running)
    } else if *s == String::from_str("finished") {
        Some(Stage::Finished)
    } else if *s == String::from_str("pending") {
        Some(Stage::Pending)
    } else if *s == String::from_str("interrupted") {
        Some(Stage::Interrupted)
    } else {
        None
    }
}

/// The link kind named by a string, if any.
pub fn link_type_from_string(s: &String) -> (r: Option<LinkType>)
    ensures
        r == spec_link_type_from(s@),
{
    if *s == String::from_str("link") {
        Some(LinkType::Default)
    } else if *s == String::from_str("issue") {
        Some(LinkType::Issue)
    } else if *s == String::from_str("tms") {
        Some(LinkType::Tms)
    } else {
        None
    }
}

/// The parameter mode named by a string, if any.
pub fn mode_from_string(s: &String) -> (r: Option<ParameterMode>)
    ensures
        r == spec_mode_from(s@),
{
    if *s == String::from_str("default") {
        Some(ParameterMode::Default)
    } else if *s == String::from_str("hidden") {
        Some(ParameterMode::Hidden)
    } else if *s == String::from_str("masked") {
        Some(ParameterMode::Masked)
    } else {
        None
    }
}

/// Decodes status details from a document.
pub fn details_from_json(v: &JsonValue) -> (r: Option<StatusDetails>)
    ensures
        match r {
            Some(d) => spec_details_from(v.abs()) == Some(d.abs()),
            None => spec_details_from(v.abs()) is None,
        },
{
    match v {
        JsonValue::Obj(fields) => {
            let (known, i1) = match take_opt_bool_x(fields, 0, "known") {
                Some(p) => p,
                None => { return None; },
            };
            let (muted, i2) = match take_opt_bool_x(fields, i1, "muted") {
                Some(p) => p,
                None => { return None; },
            };
            let (flaky, i3) = match take_opt_bool_x(fields, i2, "flaky") {
                Some(p) => p,
                None => { return None; },
            };
            let (message, i4) = match take_opt_str_x(fields, i3, "message") {
                Some(p) => p,
                None => { return None; },
            };
            let (trace, _i5) = match take_opt_str_x(fields, i4, "trace") {
                Some(p) => p,
                None => { return None; },
            };
            Some(StatusDetails { known, muted, flaky, message, trace })
        },
        _ => None,
    }
}

/// Decodes a label from a document.
pub fn label_from_json(v: &JsonValue) -> (r: Option<Label>)
    ensures
        match r {
            Some(l) => spec_label_from(v.abs()) == Some(l.abs()),
            None => spec_label_from(v.abs()) is None,
        },
{
    match v {
        JsonValue::Obj(fields) => {
            let (name, i1) = match take_str_x(fields, 0, "name") {
                Some(p) => p,
                None => { return None; },
            };
            let (value, _i2) = match take_str_x(fields, i1, "value") {
                Some(p) => p,
                None => { return None; },
            };
            Some(Label { name, value })
        },
        _ => None,
    }
}

/// Decodes a link from a document.
pub fn link_from_json(v: &JsonValue) -> (r: Option<Link>)
    ensures
        match r {
            Some(l) => spec_link_from(v.abs()) == Some(l.abs()),
            None => spec_link_from(v.abs()) is None,
        },
{
    match v {
        JsonValue::Obj(fields) => {
            let (name, i1) = match take_opt_str_x(fields, 0, "name") {
                Some(p) => p,
                None => { return None; },
            };
            let (url, i2) = match take_str_x(fields, i1, "url") {
                Some(p) => p,
                None => { return None; },
            };
            let (kind, _i3) = match take_opt_str_x(fields, i2, "type") {
                Some(p) => p,
                None => { return None; },
            };
            match kind {
                None => Some(Link { name, url, link_type: None }),
                Some(ks) => match link_type_from_string(&ks) {
                    None => None,
                    Some(t) => Some(Link { name, url, link_type: Some(t) }),
                },
            }
        },
        _ => None,
    }
}

/// Decodes a parameter from a document.
pub fn parameter_from_json(v: &JsonValue) -> (r: Option<Parameter>)
    ensures
        match r {
            Some(p) => spec_parameter_from(v.abs()) == Some(p.abs()),
            None => spec_parameter_from(v.abs()) is None,
        },
{
    match v {
        JsonValue::Obj(fields) => {
            let (name, i1) = match take_str_x(fields, 0, "name") {
                Some(p) => p,
                None => { return None; },
            };
            let (value, i2) = match take_str_x(fields, i1, "value") {
                Some(p) => p,
                None => { return None; },
            };
            let (excluded, i3) = match take_opt_bool_x(fields, i2, "excluded") {
                Some(p) => p,
                None => { return None; },
            };
            let (mode, _i4) = match take_opt_str_x(fields, i3, "mode") {
                Some(p) => p,
                None => { return None; },
            };
            match mode {
                None => Some(Parameter { name, value, excluded, mode: None }),
                Some(ms) => match mode_from_string(&ms) {
                    None => None,
                    Some(m) => Some(Parameter { name, value, excluded, mode: Some(m) }),
                },
            }
        },
        _ => None,
    }
}

/// Decodes an attachment reference from a document.
pub fn attachment_from_json(v: &JsonValue) -> (r: Option<Attachment>)
    ensures
        match r {
            Some(a) => spec_attachment_from(v.abs()) == Some(a.abs()),
            None => spec_attachment_from(v.abs()) is None,
        },
{
    match v {
        JsonValue::Obj(fields) => {
            let (name, i1) = match take_str_x(fields, 0, "name") {
                Some(p) => p,
                None => { return None; },
            };
            let (source, i2) = match take_str_x(fields, i1, "source") {
                Some(p) => p,
                None => { return None; },
            };
            let (mime_type, _i3) = match take_opt_str_x(fields, i2, "type") {
                Some(p) => p,
                None => { return None; },
            };
            Some(Attachment { name, source, mime_type })
        },
        _ => None,
    }
}

/// A bad element anywhere fails the whole sequence decoding.
proof fn lemma_labels_from_fail(s: Seq<JsonAbs>, i: int)
    requires
        0 <= i < s.len(),
        spec_label_from(s[i]) is None,
    ensures
        spec_labels_from(s) is None,
    decreases s.len(),
{
    if i < s.len() - 1 {
        lemma_labels_from_fail(s.drop_last(), i);
    }
}

/// A bad element anywhere fails the whole sequence decoding.
proof fn lemma_links_from_fail(s: Seq<JsonAbs>, i: int)
    requires
        0 <= i < s.len(),
        spec_link_from(s[i]) is None,
    ensures
        spec_links_from(s) is None,
    decreases s.len(),
{
    if i < s.len() - 1 {
        lemma_links_from_fail(s.drop_last(), i);
    }
}

/// A bad element anywhere fails the whole sequence decoding.
proof fn lemma_parameters_from_fail(s: Seq<JsonAbs>, i: int)
    requires
        0 <= i < s.len(),
        spec_parameter_from(s[i]) is None,
    ensures
        spec_parameters_from(s) is None,
    decreases s.len(),
{
    if i < s.len() - 1 {
        lemma_parameters_from_fail(s.drop_last(), i);
    }
}

/// A bad element anywhere fails the whole sequence decoding.
proof fn lemma_attachments_from_fail(s: Seq<JsonAbs>, i: int)
    requires
        0 <= i < s.len(),
        spec_attachment_from(s[i]) is None,
    ensures
        spec_attachments_from(s) is None,
    decreases s.len(),
{
    if i < s.len() - 1 {
        lemma_attachments_from_fail(s.drop_last(), i);
    }
}

/// A bad element anywhere fails the whole sequence decoding.
proof fn lemma_steps_from_fail(s: Seq<JsonAbs>, i: int)
    requires
        0 <= i < s.len(),
        spec_step_from(s[i]) is None,
    ensures
        spec_steps_from(s) is None,
    decreases s.len(),
{
    if i < s.len() - 1 {
        lemma_steps_from_fail(s.drop_last(), i);
    }
}

/// Decodes a sequence of labels.
fn labels_from_items(items: &Vec<JsonValue>) -> (r: Option<Vec<Label>>)
    ensures
        match r {
            Some(ls) => spec_labels_from(abs_items(items@, items@.len() as int)) == Some(
                ls@.map_values(|l: Label| l.abs()),
            ),
            None => spec_labels_from(abs_items(items@, items@.len() as int)) is None,
        },
{
    let ghost ia = abs_items(items@, items@.len() as int);
    proof {
        lemma_abs_items_len(items@, items@.len() as int);
    }
    let mut out: Vec<Label> = Vec::new();
    let n = items.len();
    for i in 0..n
        invariant
            n == items@.len(),
            ia == abs_items(items@, items@.len() as int),
            ia.len() == n,
            out@.len() == i,
            spec_labels_from(ia.take(i as int)) == Some(out@.map_values(|l: Label| l.abs())),
    {
        let ghost pre = out@;
        proof {
            lemma_abs_items_index(items@, items@.len() as int, i as int);
        }
        match label_from_json(&items[i]) {
            Some(l) => {
                out.push(l);
                proof {
                    assert(ia.take(i + 1).drop_last() =~= ia.take(i as int));
                    assert(ia.take(i + 1).last() == ia[i as int]);
                    assert(out@.map_values(|l2: Label| l2.abs()) =~= pre.map_values(
                        |l2: Label| l2.abs(),
                    ).push(l.abs()));
                }
            },
            None => {
                proof {
                    lemma_labels_from_fail(ia, i as int);
                }
                return None;
            },
        }
    }
    proof {
        assert(ia.take(n as int) =~= ia);
    }
    Some(out)
}

/// Decodes a sequence of links.
fn links_from_items(items: &Vec<JsonValue>) -> (r: Option<Vec<Link>>)
    ensures
        match r {
            Some(ls) => spec_links_from(abs_items(items@, items@.len() as int)) == Some(
                ls@.map_values(|l: Link| l.abs()),
            ),
            None => spec_links_from(abs_items(items@, items@.len() as int)) is None,
        },
{
    let ghost ia = abs_items(items@, items@.len() as int);
    proof {
        lemma_abs_items_len(items@, items@.len() as int);
    }
    let mut out: Vec<Link> = Vec::new();
    let n = items.len();
    for i in 0..n
        invariant
            n == items@.len(),
            ia == abs_items(items@, items@.len() as int),
            ia.len() == n,
            out@.len() == i,
            spec_links_from(ia.take(i as int)) == Some(out@.map_values(|l: Link| l.abs())),
    {
        let ghost pre = out@;
        proof {
            lemma_abs_items_index(items@, items@.len() as int, i as int);
        }
        match link_from_json(&items[i]) {
            Some(l) => {
                out.push(l);
                proof {
                    assert(ia.take(i + 1).drop_last() =~= ia.take(i as int));
                    assert(ia.take(i + 1).last() == ia[i as int]);
                    assert(out@.map_values(|l2: Link| l2.abs()) =~= pre.map_values(
                        |l2: Link| l2.abs(),
                    ).push(l.abs()));
                }
            },
            None => {
                proof {
                    lemma_links_from_fail(ia, i as int);
                }
                return None;
            },
        }
    }
    proof {
        assert(ia.take(n as int) =~= ia);
    }
    Some(out)
}

/// Decodes a sequence of parameters.
fn parameters_from_items(items: &Vec<JsonValue>) -> (r: Option<Vec<Parameter>>)
    ensures
        match r {
            Some(ps) => spec_parameters_from(abs_items(items@, items@.len() as int)) == Some(
                ps@.map_values(|p: Parameter| p.abs()),
            ),
            None => spec_parameters_from(abs_items(items@, items@.len() as int)) is None,
        },
{
    let ghost ia = abs_items(items@, items@.len() as int);
    proof {
        lemma_abs_items_len(items@, items@.len() as int);
    }
    let mut out: Vec<Parameter> = Vec::new();
    let n = items.len();
    for i in 0..n
        invariant
            n == items@.len(),
            ia == abs_items(items@, items@.len() as int),
            ia.len() == n,
            out@.len() == i,
            spec_parameters_from(ia.take(i as int)) == Some(
                out@.map_values(|p: Parameter| p.abs()),
            ),
    {
        let ghost pre = out@;
        proof {
            lemma_abs_items_index(items@, items@.len() as int, i as int);
        }
        match parameter_from_json(&items[i]) {
            Some(p) => {
                out.push(p);
                proof {
                    assert(ia.take(i + 1).drop_last() =~= ia.take(i as int));
                    assert(ia.take(i + 1).last() == ia[i as int]);
                    assert(out@.map_values(|p2: Parameter| p2.abs()) =~= pre.map_values(
                        |p2: Parameter| p2.abs(),
                    ).push(p.abs()));
                }
            },
            None => {
                proof {
                    lemma_parameters_from_fail(ia, i as int);
                }
                return None;
            },
        }
    }
    proof {
        assert(ia.take(n as int) =~= ia);
    }
    Some(out)
}

/// Decodes a sequence of attachment references.
fn attachments_from_items(items: &Vec<JsonValue>) -> (r: Option<Vec<Attachment>>)
    ensures
        match r {
            Some(attachments) => spec_attachments_from(abs_items(items@, items@.len() as int))
                == Some(attachments@.map_values(|a: Attachment| a.abs())),
            None => spec_attachments_from(abs_items(items@, items@.len() as int)) is None,
        },
{
    let ghost ia = abs_items(items@, items@.len() as int);
    proof {
        lemma_abs_items_len(items@, items@.len() as int);
    }
    let mut out: Vec<Attachment> = Vec::new();
    let n = items.len();
    for i in 0..n
        invariant
            n == items@.len(),
            ia == abs_items(items@, items@.len() as int),
            ia.len() == n,
            out@.len() == i,
            spec_attachments_from(ia.take(i as int)) == Some(
                out@.map_values(|a: Attachment| a.abs()),
            ),
    {
        let ghost pre = out@;
        proof {
            lemma_abs_items_index(items@, items@.len() as int, i as int);
        }
        match attachment_from_json(&items[i]) {
            Some(a) => {
                out.push(a);
                proof {
                    assert(ia.take(i + 1).drop_last() =~= ia.take(i as int));
                    assert(ia.take(i + 1).last() == ia[i as int]);
                    assert(out@.map_values(|a2: Attachment| a2.abs()) =~= pre.map_values(
                        |a2: Attachment| a2.abs(),
                    ).push(a.abs()));
                }
            },
            None => {
                proof {
                    lemma_attachments_from_fail(ia, i as int);
                }
                return None;
            },
        }
    }
    proof {
        assert(ia.take(n as int) =~= ia);
    }
    Some(out)
}

/// Decodes a sequence of steps, nested steps included.
fn steps_from_items(items: &Vec<JsonValue>) -> (r: Option<Vec<StepResult>>)
    ensures
        match r {
            Some(steps) => spec_steps_from(abs_items(items@, items@.len() as int)) == Some(
                crate::views::steps_abs(steps@),
            ),
            None => spec_steps_from(abs_items(items@, items@.len() as int)) is None,
        },
    decreases items@,
{
    let ghost ia = abs_items(items@, items@.len() as int);
    proof {
        lemma_abs_items_len(items@, items@.len() as int);
        assert forall|j: int| 0 <= j < items@.len() implies #[trigger] (decreases_to!(
            items@ => items@[j],
        )) by {
            assert(decreases_to!(items@ => items@[j]));
        }
    }
    let mut out: Vec<StepResult> = Vec::new();
    let n = items.len();
    for i in 0..n
        invariant
            n == items@.len(),
            ia == abs_items(items@, items@.len() as int),
            ia.len() == n,
            out@.len() == i,
            spec_steps_from(ia.take(i as int)) == Some(crate::views::steps_abs(out@)),
            forall|j: int| 0 <= j < items@.len() ==> #[trigger] (decreases_to!(items@ => items@[j])),
    {
        let ghost pre = out@;
        proof {
            lemma_abs_items_index(items@, items@.len() as int, i as int);
            assert(decreases_to!(items@ => items@[i as int]));
        }
        match step_from_json(&items[i]) {
            Some(s) => {
                proof {
                    crate::views::lemma_steps_abs_push(pre, s);
                }
                out.push(s);
                proof {
                    assert(ia.take(i + 1).drop_last() =~= ia.take(i as int));
                    assert(ia.take(i + 1).last() == ia[i as int]);
                }
            },
            None => {
                proof {
                    lemma_steps_from_fail(ia, i as int);
                }
                return None;
            },
        }
    }
    proof {
        assert(ia.take(n as int) =~= ia);
    }
    Some(out)
}

/// Reads the optional step collection member at the cursor.
#[verifier::rlimit(100)]
fn read_steps(fields: &Vec<(String, JsonValue)>, i: usize) -> (r: Option<(Vec<StepResult>, usize)>)
    requires
        i <= fields@.len(),
    ensures
        match r {
            Some(p) => take_opt_arr(fa(fields@), i as int, "steps"@) matches Some(q)
                && q.1 == p.1 as int && i <= p.1 <= fields@.len() && spec_steps_from(q.0) == Some(
                crate::views::steps_abs(p.0@),
            ),
            None => (take_opt_arr(fa(fields@), i as int, "steps"@) is None || (take_opt_arr(
                fa(fields@),
                i as int,
                "steps"@,
            ) matches Some(q) && spec_steps_from(q.0) is None)),
        },
    decreases fields@, 0int,
{
    proof {
        lemma_abs_fields_len(fields@, fields@.len() as int);
        if i < fields@.len() {
            lemma_abs_fields_index(fields@, fields@.len() as int, i as int);
        }
    }
    let has = i < fields.len() && fields[i].0 == String::from_str("steps");
    if has {
        match &fields[i].1 {
            JsonValue::Arr(step_items) => {
                proof {
                    assert(decreases_to!(fields@ => fields@[i as int]));
                    assert(decreases_to!(fields@[i as int] => fields@[i as int].1));
                    assert(decreases_to!(fields@[i as int].1 => fields@[i as int].1->Arr_0));
                    assert(decreases_to!(
                        fields@[i as int].1->Arr_0 => fields@[i as int].1->Arr_0@));
                    assert(decreases_to!(fields@ => step_items@));
                }
                match steps_from_items(step_items) {
                    Some(ss) => {
                        let out = Some((ss, i + 1));
                        assert(crate::views::steps_abs(Seq::<StepResult>::empty())
                            =~= Seq::empty());
                        out
                    },
                    None => None,
                }
            },
            _ => None,
        }
    } else {
        let ss: Vec<StepResult> = Vec::new();
        assert(crate::views::steps_abs(ss@) =~= Seq::empty());
        Some((ss, i))
    }
}

/// Reads the optional attachment collection member at the cursor.
#[verifier::rlimit(100)]
fn read_attachments(fields: &Vec<(String, JsonValue)>, i: usize, key: &str) -> (r: Option<
    (Vec<Attachment>, usize),
>)
    requires
        i <= fields@.len(),
    ensures
        match r {
            Some(p) => take_opt_arr(fa(fields@), i as int, key@) matches Some(q) && q.1
                == p.1 as int && i <= p.1 <= fields@.len() && spec_attachments_from(q.0) == Some(
                p.0@.map_values(|a: Attachment| a.abs()),
            ),
            None => (take_opt_arr(fa(fields@), i as int, key@) is None || (take_opt_arr(
                fa(fields@),
                i as int,
                key@,
            ) matches Some(q) && spec_attachments_from(q.0) is None)),
        },
{
    proof {
        lemma_abs_fields_len(fields@, fields@.len() as int);
        if i < fields@.len() {
            lemma_abs_fields_index(fields@, fields@.len() as int, i as int);
        }
    }
    let has = i < fields.len() && fields[i].0 == String::from_str(key);
    if has {
        match &fields[i].1 {
            JsonValue::Arr(items) => {
                match attachments_from_items(items) {
                    Some(a) => Some((a, i + 1)),
                    None => None,
                }
            },
            _ => None,
        }
    } else {
        let a: Vec<Attachment> = Vec::new();
        assert(a@.map_values(|x: Attachment| x.abs()) =~= Seq::empty());
        Some((a, i))
    }
}

/// Reads the optional parameter collection member at the cursor.
#[verifier::rlimit(100)]
fn read_parameters(fields: &Vec<(String, JsonValue)>, i: usize, key: &str) -> (r: Option<
    (Vec<Parameter>, usize),
>)
    requires
        i <= fields@.len(),
    ensures
        match r {
            Some(p) => take_opt_arr(fa(fields@), i as int, key@) matches Some(q) && q.1
                == p.1 as int && i <= p.1 <= fields@.len() && spec_parameters_from(q.0) == Some(
                p.0@.map_values(|x: Parameter| x.abs()),
            ),
            None => (take_opt_arr(fa(fields@), i as int, key@) is None || (take_opt_arr(
                fa(fields@),
                i as int,
                key@,
            ) matches Some(q) && spec_parameters_from(q.0) is None)),
        },
{
    proof {
        lemma_abs_fields_len(fields@, fields@.len() as int);
        if i < fields@.len() {
            lemma_abs_fields_index(fields@, fields@.len() as int, i as int);
        }
    }
    let has = i < fields.len() && fields[i].0 == String::from_str(key);
    if has {
        match &fields[i].1 {
            JsonValue::Arr(items) => {
                match parameters_from_items(items) {
                    Some(p) => Some((p, i + 1)),
                    None => None,
                }
            },
            _ => None,
        }
    } else {
        let p: Vec<Parameter> = Vec::new();
        assert(p@.map_values(|x: Parameter| x.abs()) =~= Seq::empty());
        Some((p, i))
    }
}

/// Reads the optional label collection member at the cursor.
#[verifier::rlimit(100)]
fn read_labels(fields: &Vec<(String, JsonValue)>, i: usize) -> (r: Option<(Vec<Label>, usize)>)
    requires
        i <= fields@.len(),
    ensures
        match r {
            Some(p) => take_opt_arr(fa(fields@), i as int, "labels"@) matches Some(q) && q.1
                == p.1 as int && i <= p.1 <= fields@.len() && spec_labels_from(q.0) == Some(
                p.0@.map_values(|x: Label| x.abs()),
            ),
            None => (take_opt_arr(fa(fields@), i as int, "labels"@) is None || (take_opt_arr(
                fa(fields@),
                i as int,
                "labels"@,
            ) matches Some(q) && spec_labels_from(q.0) is None)),
        },
{
    proof {
        lemma_abs_fields_len(fields@, fields@.len() as int);
        if i < fields@.len() {
            lemma_abs_fields_index(fields@, fields@.len() as int, i as int);
        }
    }
    let has = i < fields.len() && fields[i].0 == String::from_str("labels");
    if has {
        match &fields[i].1 {
            JsonValue::Arr(items) => {
                match labels_from_items(items) {
                    Some(ls) => Some((ls, i + 1)),
                    None => None,
                }
            },
            _ => None,
        }
    } else {
        let ls: Vec<Label> = Vec::new();
        assert(ls@.map_values(|x: Label| x.abs()) =~= Seq::empty());
        Some((ls, i))
    }
}

/// Reads the optional link collection member at the cursor.
#[verifier::rlimit(100)]
fn read_links(fields: &Vec<(String, JsonValue)>, i: usize) -> (r: Option<(Vec<Link>, usize)>)
    requires
        i <= fields@.len(),
    ensures
        match r {
            Some(p) => take_opt_arr(fa(fields@), i as int, "links"@) matches Some(q) && q.1
                == p.1 as int && i <= p.1 <= fields@.len() && spec_links_from(q.0) == Some(
                p.0@.map_values(|x: Link| x.abs()),
            ),
            None => (take_opt_arr(fa(fields@), i as int, "links"@) is None || (take_opt_arr(
                fa(fields@),
                i as int,
                "links"@,
            ) matches Some(q) && spec_links_from(q.0) is None)),
        },
{
    proof {
        lemma_abs_fields_len(fields@, fields@.len() as int);
        if i < fields@.len() {
            lemma_abs_fields_index(fields@, fields@.len() as int, i as int);
        }
    }
    let has = i < fields.len() && fields[i].0 == String::from_str("links");
    if has {
        match &fields[i].1 {
            JsonValue::Arr(items) => {
                match links_from_items(items) {
                    Some(ls) => Some((ls, i + 1)),
                    None => None,
                }
            },
            _ => None,
        }
    } else {
        let ls: Vec<Link> = Vec::new();
        assert(ls@.map_values(|x: Link| x.abs()) =~= Seq::empty());
        Some((ls, i))
    }
}

/// Reads the optional status details member at the cursor.
#[verifier::rlimit(100)]
fn read_details(fields: &Vec<(String, JsonValue)>, i: usize) -> (r: Option<
    (Option<StatusDetails>, usize),
>)
    requires
        i <= fields@.len(),
    ensures
        match r {
            Some(p) => ({
                let tk = take_opt_val(fa(fields@), i as int, "statusDetails"@);
                tk.1 == p.1 as int && i <= p.1 <= fields@.len()
                    && crate::codec::spec_opt_details_from(tk.0) == Some(
                    crate::views::opt_details_abs(p.0),
                )
            }),
            None => crate::codec::spec_opt_details_from(
                take_opt_val(fa(fields@), i as int, "statusDetails"@).0,
            ) is None,
        },
{
    proof {
        lemma_abs_fields_len(fields@, fields@.len() as int);
        if i < fields@.len() {
            lemma_abs_fields_index(fields@, fields@.len() as int, i as int);
        }
    }
    let has = i < fields.len() && fields[i].0 == String::from_str("statusDetails");
    if has {
        match details_from_json(&fields[i].1) {
            Some(d) => Some((Some(d), i + 1)),
            None => None,
        }
    } else {
        Some((None, i))
    }
}

/// Decodes a step from a document, nested steps included.
#[verifier::rlimit(100)]
pub fn step_from_json(v: &JsonValue) -> (r: Option<StepResult>)
    ensures
        match r {
            Some(s) => spec_step_from(v.abs()) == Some(s.abs()),
            None => spec_step_from(v.abs()) is None,
        },
    decreases *v, 1int,
{
    match v {
        JsonValue::Obj(fields) => {
            proof {
                lemma_abs_fields_len(fields@, fields@.len() as int);
            }
            let (uuid, i1) = match take_opt_str_x(fields, 0, "uuid") {
                Some(p) => p,
                None => { return None; },
            };
            let (name, i2) = match take_str_x(fields, i1, "name") {
                Some(p) => p,
                None => { return None; },
            };
            let (status_s, i3) = match take_str_x(fields, i2, "status") {
                Some(p) => p,
                None => { return None; },
            };
            let status = match status_from_string(&status_s) {
                Some(st) => st,
                None => { return None; },
            };
            let (status_details, i4) = match read_details(fields, i3) {
                Some(p) => p,
                None => { return None; },
            };
            let (stage_s, i5) = match take_str_x(fields, i4, "stage") {
                Some(p) => p,
                None => { return None; },
            };
            let stage = match stage_from_string(&stage_s) {
                Some(st) => st,
                None => { return None; },
            };
            proof {
                assert(decreases_to!(*v => v->Obj_0));
                assert(decreases_to!(*fields => fields@));
                assert(decreases_to!(*v => fields@));
            }
            let (steps, i6) = match read_steps(fields, i5) {
                Some(p) => p,
                None => { return None; },
            };
            let (attachments, i7) = match read_attachments(fields, i6, "attachments") {
                Some(p) => p,
                None => { return None; },
            };
            let (parameters, i8) = match read_parameters(fields, i7, "parameters") {
                Some(p) => p,
                None => { return None; },
            };
            let (start, i9) = match take_int_x(fields, i8, "start") {
                Some(p) => p,
                None => { return None; },
            };
            let (stop, _i10) = match take_int_x(fields, i9, "stop") {
                Some(p) => p,
                None => { return None; },
            };
            let s = StepResult {
                uuid,
                name,
                status,
                status_details,
                stage,
                steps,
                attachments,
                parameters,
                start,
                stop,
            };
            proof {
                assert(s.abs().steps =~= crate::views::steps_abs(s.steps@));
                assert(s.abs().attachments =~= s.attachments@.map_values(
                    |a: Attachment| a.abs(),
                ));
                assert(s.abs().parameters =~= s.parameters@.map_values(
                    |p: Parameter| p.abs(),
                ));
            }
            Some(s)
        },
        _ => None,
    }
}

/// Decodes a test result from a document: the inverse reading of the layout
/// the encoder writes.
#[verifier::rlimit(100)]
pub fn result_from_json(v: &JsonValue) -> (r: Option<TestResult>)
    ensures
        match r {
            Some(res) => spec_result_from(v.abs()) == Some(res.abs()),
            None => spec_result_from(v.abs()) is None,
        },
{
    match v {
        JsonValue::Obj(fields) => {
            proof {
                lemma_abs_fields_len(fields@, fields@.len() as int);
            }
            let (uuid, i1) = match take_str_x(fields, 0, "uuid") {
                Some(p) => p,
                None => { return None; },
            };
            let (history_id, i2) = match take_opt_str_x(fields, i1, "historyId") {
                Some(p) => p,
                None => { return None; },
            };
            let (test_case_id, i3) = match take_opt_str_x(fields, i2, "testCaseId") {
                Some(p) => p,
                None => { return None; },
            };
            let (name, i4) = match take_str_x(fields, i3, "name") {
                Some(p) => p,
                None => { return None; },
            };
            let (full_name, i5) = match take_opt_str_x(fields, i4, "fullName") {
                Some(p) => p,
                None => { return None; },
            };
            let (description, i6) = match take_opt_str_x(fields, i5, "description") {
                Some(p) => p,
                None => { return None; },
            };
            let (description_html, i7) = match take_opt_str_x(fields, i6, "descriptionHtml") {
                Some(p) => p,
                None => { return None; },
            };
            let (status_s, i8) = match take_str_x(fields, i7, "status") {
                Some(p) => p,
                None => { return None; },
            };
            let status = match status_from_string(&status_s) {
                Some(st) => st,
                None => { return None; },
            };
            let (status_details, i9) = match read_details(fields, i8) {
                Some(p) => p,
                None => { return None; },
            };
            let (stage_s, i10) = match take_str_x(fields, i9, "stage") {
                Some(p) => p,
                None => { return None; },
            };
            let stage = match stage_from_string(&stage_s) {
                Some(st) => st,
                None => { return None; },
            };
            result_rest_from_json(
                fields,
                i10,
                uuid,
                history_id,
                test_case_id,
                name,
                full_name,
                description,
                description_html,
                status,
                status_details,
                stage,
            )
        },
        _ => None,
    }
}

/// Decodes the collection and time members of a result, from the cursor
/// after the scalar members, and assembles the whole result.
#[verifier::rlimit(100)]
fn result_rest_from_json(
    fields: &Vec<(String, JsonValue)>,
    i: usize,
    uuid: String,
    history_id: Option<String>,
    test_case_id: Option<String>,
    name: String,
    full_name: Option<String>,
    description: Option<String>,
    description_html: Option<String>,
    status: Status,
    status_details: Option<StatusDetails>,
    stage: Stage,
) -> (r: Option<TestResult>)
    requires
        i <= fields@.len(),
    ensures
        match r {
            Some(res) => spec_result_from_rest(
                fa(fields@),
                i as int,
                uuid@,
                opt_str_abs(history_id),
                opt_str_abs(test_case_id),
                name@,
                opt_str_abs(full_name),
                opt_str_abs(description),
                opt_str_abs(description_html),
                status,
                crate::views::opt_details_abs(status_details),
                stage,
            ) == Some(res.abs()),
            None => spec_result_from_rest(
                fa(fields@),
                i as int,
                uuid@,
                opt_str_abs(history_id),
                opt_str_abs(test_case_id),
                name@,
                opt_str_abs(full_name),
                opt_str_abs(description),
                opt_str_abs(description_html),
                status,
                crate::views::opt_details_abs(status_details),
                stage,
            ) is None,
        },
{
    proof {
        lemma_abs_fields_len(fields@, fields@.len() as int);
    }
    let (steps, i11) = match read_steps(fields, i) {
        Some(p) => p,
        None => { return None; },
    };
    let (attachments, i12) = match read_attachments(fields, i11, "attachments") {
        Some(p) => p,
        None => { return None; },
    };
    let (parameters, i13) = match read_parameters(fields, i12, "parameters") {
        Some(p) => p,
        None => { return None; },
    };
    let (labels, i14) = match read_labels(fields, i13) {
        Some(p) => p,
        None => { return None; },
    };
    let (links, i15) = match read_links(fields, i14) {
        Some(p) => p,
        None => { return None; },
    };
    let (start, i16) = match take_int_x(fields, i15, "start") {
        Some(p) => p,
        None => { return None; },
    };
    let (stop, _i17) = match take_int_x(fields, i16, "stop") {
        Some(p) => p,
        None => { return None; },
    };
    let res = TestResult {
        uuid,
        history_id,
        test_case_id,
        name,
        full_name,
        description,
        description_html,
        status,
        status_details,
        stage,
        steps,
        attachments,
        parameters,
        labels,
        links,
        start,
        stop,
    };
    proof {
        assert(res.abs().steps =~= crate::views::steps_abs(res.steps@));
        assert(res.abs().attachments =~= res.attachments@.map_values(|a: Attachment| a.abs()));
        assert(res.abs().parameters =~= res.parameters@.map_values(|p: Parameter| p.abs()));
        assert(res.abs().labels =~= res.labels@.map_values(|l: Label| l.abs()));
        assert(res.abs().links =~= res.links@.map_values(|l: Link| l.abs()));
    }
    Some(res)
}

} // verus!
