//! A small JSON document model and its deterministic, compact rendering.
//! The artifact files are JSON; building them as values first keeps the
//! encoding of the data model separate from the character-level syntax.

use vstd::prelude::*;

use crate::text::append_dec_i64;
use crate::text::append_json_escaped;
use crate::text::spec_dec_int;
use crate::text::spec_json_escape;
use crate::trusted::push_char;

verus! {

broadcast use vstd::std_specs::vec::group_vec_axioms;

/// The mathematical shape of a JSON document.
pub enum JsonAbs {
    /// The null value.
    Null,
    /// A boolean.
    Bool(bool),
    /// An integer.
    Int(int),
    /// A string.
    Str(Seq<char>),
    /// An array.
    Arr(Seq<JsonAbs>),
    /// An object: named members in order.
    Obj(Seq<(Seq<char>, JsonAbs)>),
}

/// A JSON document.
#[derive(Debug)]
pub enum JsonValue {
    /// The null value.
    Null,
    /// A boolean.
    Bool(bool),
    /// An integer.
    Int(i64),
    /// A string.
    Str(String),
    /// An array.
    Arr(Vec<JsonValue>),
    /// An object: named members in order.
    Obj(Vec<(String, JsonValue)>),
}

impl JsonValue {
    /// The mathematical shape of this document.
    pub open spec fn abs(self) -> JsonAbs
        decreases self, 1int, 0int,
    {
        match self {
            JsonValue::Null => JsonAbs::Null,
            JsonValue::Bool(b) => JsonAbs::Bool(b),
            JsonValue::Int(n) => JsonAbs::Int(n as int),
            JsonValue::Str(s) => JsonAbs::Str(s@),
            JsonValue::Arr(items) => JsonAbs::Arr(
                abs_items(self->Arr_0@, self->Arr_0@.len() as int),
            ),
            JsonValue::Obj(fields) => JsonAbs::Obj(
                abs_fields(self->Obj_0@, self->Obj_0@.len() as int),
            ),
        }
    }
}

/// The shapes of the first `n` documents of a sequence, in order.
pub open spec fn abs_items(items: Seq<JsonValue>, n: int) -> Seq<JsonAbs>
    decreases items, 0int, n,
{
    if n <= 0 || n > items.len() {
        Seq::empty()
    } else {
        abs_items(items, n - 1).push(items[n - 1].abs())
    }
}

/// The shapes of the first `n` named members of a sequence, in order.
pub open spec fn abs_fields(fields: Seq<(String, JsonValue)>, n: int) -> Seq<
    (Seq<char>, JsonAbs),
>
    decreases fields, 0int, n,
{
    if n <= 0 || n > fields.len() {
        Seq::empty()
    } else {
        abs_fields(fields, n - 1).push((fields[n - 1].0@, fields[n - 1].1.abs()))
    }
}

/// Each of the first `n` shapes is the shape of its document.
pub proof fn lemma_abs_items_index(items: Seq<JsonValue>, n: int, i: int)
    requires
        0 <= n <= items.len(),
        0 <= i < n,
    ensures
        abs_items(items, n).len() == n,
        abs_items(items, n)[i] == items[i].abs(),
    decreases n,
{
    lemma_abs_items_len(items, n);
    if i < n - 1 {
        lemma_abs_items_index(items, n - 1, i);
    }
}

/// The first `n` shapes are `n` shapes.
pub proof fn lemma_abs_items_len(items: Seq<JsonValue>, n: int)
    requires
        0 <= n <= items.len(),
    ensures
        abs_items(items, n).len() == n,
    decreases n,
{
    if n > 0 {
        lemma_abs_items_len(items, n - 1);
    }
}

/// Each of the first `n` member shapes is the shape of its member.
pub proof fn lemma_abs_fields_index(fields: Seq<(String, JsonValue)>, n: int, i: int)
    requires
        0 <= n <= fields.len(),
        0 <= i < n,
    ensures
        abs_fields(fields, n).len() == n,
        abs_fields(fields, n)[i] == (fields[i].0@, fields[i].1.abs()),
    decreases n,
{
    lemma_abs_fields_len(fields, n);
    if i < n - 1 {
        lemma_abs_fields_index(fields, n - 1, i);
    }
}

/// The first `n` member shapes are `n` shapes.
pub proof fn lemma_abs_fields_len(fields: Seq<(String, JsonValue)>, n: int)
    requires
        0 <= n <= fields.len(),
    ensures
        abs_fields(fields, n).len() == n,
    decreases n,
{
    if n > 0 {
        lemma_abs_fields_len(fields, n - 1);
    }
}

/// Appending a document appends its shape.
pub proof fn lemma_abs_items_push(items: Seq<JsonValue>, v: JsonValue)
    ensures
        abs_items(items.push(v), items.len() as int + 1) == abs_items(items, items.len() as int).push(
            v.abs(),
        ),
{
    let n = items.len() as int;
    lemma_abs_items_len(items, n);
    lemma_abs_items_len(items.push(v), n + 1);
    assert forall|i: int| 0 <= i < n + 1 implies abs_items(items.push(v), n + 1)[i] == abs_items(
        items,
        n,
    ).push(v.abs())[i] by {
        lemma_abs_items_index(items.push(v), n + 1, i);
        if i < n {
            lemma_abs_items_index(items, n, i);
            assert(items.push(v)[i] == items[i]);
        } else {
            assert(items.push(v)[i] == v);
        }
    }
    assert(abs_items(items.push(v), n + 1) =~= abs_items(items, n).push(v.abs()));
}

/// Appending a member appends its shape.
pub proof fn lemma_abs_fields_push(fields: Seq<(String, JsonValue)>, kv: (String, JsonValue))
    ensures
        abs_fields(fields.push(kv), fields.len() as int + 1) == abs_fields(
            fields,
            fields.len() as int,
        ).push((kv.0@, kv.1.abs())),
{
    let n = fields.len() as int;
    lemma_abs_fields_len(fields, n);
    lemma_abs_fields_len(fields.push(kv), n + 1);
    assert forall|i: int| 0 <= i < n + 1 implies abs_fields(fields.push(kv), n + 1)[i]
        == abs_fields(fields, n).push((kv.0@, kv.1.abs()))[i] by {
        lemma_abs_fields_index(fields.push(kv), n + 1, i);
        if i < n {
            lemma_abs_fields_index(fields, n, i);
            assert(fields.push(kv)[i] == fields[i]);
        } else {
            assert(fields.push(kv)[i] == kv);
        }
    }
    assert(abs_fields(fields.push(kv), n + 1) =~= abs_fields(fields, n).push((kv.0@, kv.1.abs())));
}

/// The compact rendering of a JSON document: no whitespace, members in
/// order, strings escaped as `spec_json_escape` says.
pub open spec fn spec_render(v: JsonAbs) -> Seq<char>
    decreases v, 0int,
{
    match v {
        JsonAbs::Null => "null"@,
        JsonAbs::Bool(b) => if b {
            "true"@
        } else {
            "false"@
        },
        JsonAbs::Int(n) => spec_dec_int(n),
        JsonAbs::Str(s) => seq!['"'] + spec_json_escape(s) + seq!['"'],
        JsonAbs::Arr(items) => seq!['['] + spec_render_items(items, items.len() as int) + seq![']'],
        JsonAbs::Obj(fields) => seq!['{'] + spec_render_fields(fields, fields.len() as int)
            + seq!['}'],
    }
}

/// The rendering of the first `n` array elements, comma-separated.
pub open spec fn spec_render_items(items: Seq<JsonAbs>, n: int) -> Seq<char>
    decreases items, n,
{
    if n <= 0 || n > items.len() {
        Seq::empty()
    } else if n == 1 {
        spec_render(items[0])
    } else {
        spec_render_items(items, n - 1) + seq![','] + spec_render(items[n - 1])
    }
}

/// The rendering of one object member: quoted escaped name, a colon, and the
/// value.
pub open spec fn spec_render_field(f: (Seq<char>, JsonAbs)) -> Seq<char>
    decreases f, 0int,
{
    seq!['"'] + spec_json_escape(f.0) + seq!['"', ':'] + spec_render(f.1)
}

/// The rendering of the first `n` object members, comma-separated.
pub open spec fn spec_render_fields(fields: Seq<(Seq<char>, JsonAbs)>, n: int) -> Seq<char>
    decreases fields, n,
{
    if n <= 0 || n > fields.len() {
        Seq::empty()
    } else if n == 1 {
        spec_render_field(fields[0])
    } else {
        spec_render_fields(fields, n - 1) + seq![','] + spec_render_field(fields[n - 1])
    }
}

/// Appends the compact rendering of a document.
pub fn append_json(out: &mut String, v: &JsonValue)
    ensures
        final(out)@ == old(out)@ + spec_render(v.abs()),
    decreases *v,
{
    match v {
        JsonValue::Null => {
            out.append("null");
        },
        JsonValue::Bool(b) => {
            if *b {
                out.append("true");
            } else {
                out.append("false");
            }
        },
        JsonValue::Int(n) => {
            append_dec_i64(out, *n);
        },
        JsonValue::Str(s) => {
            push_char(out, '"');
            append_json_escaped(out, s.as_str());
            push_char(out, '"');
            assert(out@ =~= old(out)@ + spec_render(v.abs()));
        },
        JsonValue::Arr(items) => {
            let ghost items_abs = abs_items(items@, items@.len() as int);
            push_char(out, '[');
            let ghost base = old(out)@ + seq!['['];
            let n = items.len();
            assert(out@ =~= base + spec_render_items(items_abs, 0));
            proof {
                assert forall|j: int| 0 <= j < items@.len() implies #[trigger] (decreases_to!(
                    *v => items@[j],
                )) by {
                    assert(*items == v->Arr_0);
                    assert(decreases_to!(*v => v->Arr_0));
                    assert(decreases_to!(*items => items@));
                    assert(decreases_to!(items@ => items@[j]));
                }
            }
            for i in 0..n
                invariant
                    n == items@.len(),
                    items_abs == abs_items(items@, items@.len() as int),
                    out@ == base + spec_render_items(items_abs, i as int),
                    forall|j: int|
                        0 <= j < items@.len() ==> #[trigger] (decreases_to!(*v => items@[j])),
            {
                if i > 0 {
                    push_char(out, ',');
                }
                proof {
                    assert(decreases_to!(*v => items@[i as int]));
                }
                append_json(out, &items[i]);
                proof {
                    lemma_abs_items_index(items@, items@.len() as int, i as int);
                    assert(out@ =~= base + spec_render_items(items_abs, i + 1));
                }
            }
            push_char(out, ']');
            proof {
                lemma_abs_items_len(items@, items@.len() as int);
            }
            assert(out@ =~= old(out)@ + spec_render(v.abs()));
        },
        JsonValue::Obj(fields) => {
            let ghost fields_abs = abs_fields(fields@, fields@.len() as int);
            push_char(out, '{');
            let ghost base = old(out)@ + seq!['{'];
            let n = fields.len();
            assert(out@ =~= base + spec_render_fields(fields_abs, 0));
            proof {
                assert forall|j: int| 0 <= j < fields@.len() implies #[trigger] (decreases_to!(
                    *v => fields@[j].1,
                )) by {
                    assert(*fields == v->Obj_0);
                    assert(decreases_to!(*v => v->Obj_0));
                    assert(decreases_to!(*fields => fields@));
                    assert(decreases_to!(fields@ => fields@[j]));
                    assert(decreases_to!(fields@[j] => fields@[j].1));
                }
            }
            for i in 0..n
                invariant
                    n == fields@.len(),
                    fields_abs == abs_fields(fields@, fields@.len() as int),
                    out@ == base + spec_render_fields(fields_abs, i as int),
                    forall|j: int|
                        0 <= j < fields@.len() ==> #[trigger] (decreases_to!(*v => fields@[j].1)),
            {
                if i > 0 {
                    push_char(out, ',');
                }
                push_char(out, '"');
                append_json_escaped(out, fields[i].0.as_str());
                push_char(out, '"');
                push_char(out, ':');
                proof {
                    assert(decreases_to!(*v => fields@[i as int].1));
                }
                append_json(out, &fields[i].1);
                proof {
                    lemma_abs_fields_index(fields@, fields@.len() as int, i as int);
                    let ghost k = i as int;
                    assert(spec_render_field(fields_abs[k]) == seq!['"'] + spec_json_escape(
                        fields_abs[k].0,
                    ) + seq!['"', ':'] + spec_render(fields_abs[k].1));
                    assert(out@ =~= base + spec_render_fields(fields_abs, i + 1));
                }
            }
            push_char(out, '}');
            proof {
                lemma_abs_fields_len(fields@, fields@.len() as int);
            }
            assert(out@ =~= old(out)@ + spec_render(v.abs()));
        },
    }
}

/// The compact rendering of a document as a fresh string.
pub fn render_json(v: &JsonValue) -> (r: String)
    ensures
        r@ == spec_render(v.abs()),
{
    let mut r = String::new();
    append_json(&mut r, v);
    proof {
        assert(Seq::<char>::empty() + spec_render(v.abs()) =~= spec_render(v.abs()));
    }
    r
}

} // verus!
