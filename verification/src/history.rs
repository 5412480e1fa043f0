//! Stable cross-run identity for a test: the history id is the MD5 digest of
//! the full name's bytes followed by the name and value bytes of every
//! parameter that is not excluded, in order.

use vstd::prelude::*;

use crate::model::Parameter;
use crate::trusted::is_lower_hex_char;
use crate::trusted::md5_hex;
use crate::trusted::md5_hex_of;
use vstd::utf8::encode_utf8;

verus! {

/// Whether a parameter takes part in the history id computation.
pub open spec fn spec_param_counted(p: Parameter) -> bool {
    p.excluded != Some(true)
}

/// The bytes one parameter contributes to the history input: its name's and
/// value's UTF-8 bytes when it is counted, nothing when it is excluded.
pub open spec fn spec_param_bytes(p: Parameter) -> Seq<u8> {
    if spec_param_counted(p) {
        encode_utf8(p.name@) + encode_utf8(p.value@)
    } else {
        Seq::empty()
    }
}

/// The concatenated contributions of a parameter sequence, in order.
pub open spec fn spec_params_bytes(params: Seq<Parameter>) -> Seq<u8>
    decreases params.len(),
{
    if params.len() == 0 {
        Seq::empty()
    } else {
        spec_param_bytes(params[0]) + spec_params_bytes(params.drop_first())
    }
}

/// The whole history input: full name bytes, then the parameter
/// contributions.
pub open spec fn spec_history_input(full_name: Seq<char>, params: Seq<Parameter>) -> Seq<u8> {
    encode_utf8(full_name) + spec_params_bytes(params)
}

/// The name and value of each counted parameter, in order; everything the
/// parameters contribute to the history id.
pub open spec fn spec_counted_pairs(params: Seq<Parameter>) -> Seq<(Seq<char>, Seq<char>)>
    decreases params.len(),
{
    if params.len() == 0 {
        Seq::empty()
    } else if spec_param_counted(params[0]) {
        seq![(params[0].name@, params[0].value@)] + spec_counted_pairs(params.drop_first())
    } else {
        spec_counted_pairs(params.drop_first())
    }
}

/// The byte contribution of a sequence of name and value pairs.
pub open spec fn spec_pairs_bytes(pairs: Seq<(Seq<char>, Seq<char>)>) -> Seq<u8>
    decreases pairs.len(),
{
    if pairs.len() == 0 {
        Seq::empty()
    } else {
        encode_utf8(pairs[0].0) + encode_utf8(pairs[0].1) + spec_pairs_bytes(pairs.drop_first())
    }
}

/// The parameters' contribution is exactly the contribution of their counted
/// name and value pairs: excluded parameters leave no mark on the input.
pub proof fn lemma_params_bytes_from_counted(params: Seq<Parameter>)
    ensures
        spec_params_bytes(params) == spec_pairs_bytes(spec_counted_pairs(params)),
    decreases params.len(),
{
    if params.len() == 0 {
    } else {
        lemma_params_bytes_from_counted(params.drop_first());
        if spec_param_counted(params[0]) {
            assert(spec_counted_pairs(params).drop_first() == spec_counted_pairs(
                params.drop_first(),
            ));
            assert(spec_params_bytes(params) == spec_pairs_bytes(spec_counted_pairs(params)))
                by {
                assert(spec_param_bytes(params[0]) == encode_utf8(params[0].name@) + encode_utf8(
                    params[0].value@,
                ));
            }
        } else {
            assert(spec_param_bytes(params[0]) == Seq::<u8>::empty());
            assert(spec_params_bytes(params) =~= spec_params_bytes(params.drop_first()));
        }
    }
}

/// The history id is pure: two runs with the same full name whose parameter
/// lists carry the same counted names and values, in the same order, feed the
/// same input to the digest and so get the same id, whatever their excluded
/// parameters look like.
pub proof fn lemma_history_id_pure(
    full_name: Seq<char>,
    params1: Seq<Parameter>,
    params2: Seq<Parameter>,
)
    requires
        spec_counted_pairs(params1) == spec_counted_pairs(params2),
    ensures
        spec_history_input(full_name, params1) == spec_history_input(full_name, params2),
        md5_hex_of(spec_history_input(full_name, params1)) == md5_hex_of(
            spec_history_input(full_name, params2),
        ),
{
    lemma_params_bytes_from_counted(params1);
    lemma_params_bytes_from_counted(params2);
}

/// The parameter contributions with one excluded parameter taken out of the
/// list are unchanged.
proof fn lemma_exclusion_bytes(params: Seq<Parameter>, i: int)
    requires
        0 <= i < params.len(),
        !spec_param_counted(params[i]),
    ensures
        spec_params_bytes(params) == spec_params_bytes(params.remove(i)),
    decreases params.len(),
{
    if i == 0 {
        assert(params.remove(0) =~= params.drop_first());
        assert(spec_param_bytes(params[0]) == Seq::<u8>::empty());
        assert(spec_params_bytes(params) =~= spec_params_bytes(params.drop_first()));
    } else {
        lemma_exclusion_bytes(params.drop_first(), i - 1);
        assert(params.remove(i).drop_first() =~= params.drop_first().remove(i - 1));
        assert(params.remove(i)[0] == params[0]);
        assert(spec_params_bytes(params) == spec_param_bytes(params[0]) + spec_params_bytes(
            params.drop_first(),
        ));
        assert(spec_params_bytes(params.remove(i)) == spec_param_bytes(params[0])
            + spec_params_bytes(params.drop_first().remove(i - 1)));
    }
}

/// Excluding one parameter removes exactly its own contribution: the input
/// becomes that of the list without it, and every other parameter's
/// contribution is untouched.
pub proof fn lemma_exclusion_removes_contribution(
    full_name: Seq<char>,
    params: Seq<Parameter>,
    i: int,
)
    requires
        0 <= i < params.len(),
        !spec_param_counted(params[i]),
    ensures
        spec_history_input(full_name, params) == spec_history_input(full_name, params.remove(i)),
{
    lemma_exclusion_bytes(params, i);
}

/// Appending one parameter appends its contribution.
proof fn lemma_params_bytes_push(params: Seq<Parameter>, p: Parameter)
    ensures
        spec_params_bytes(params.push(p)) == spec_params_bytes(params) + spec_param_bytes(p),
    decreases params.len(),
{
    if params.len() == 0 {
        assert(params.push(p)[0] == p);
        assert(params.push(p).drop_first() =~= Seq::<Parameter>::empty());
        assert(spec_params_bytes(Seq::<Parameter>::empty()) == Seq::<u8>::empty());
        assert(spec_params_bytes(params.push(p)) == spec_param_bytes(p) + Seq::<u8>::empty());
        assert(spec_param_bytes(p) + Seq::<u8>::empty() =~= spec_param_bytes(p));
        assert(spec_params_bytes(params) + spec_param_bytes(p) =~= spec_param_bytes(p));
    } else {
        lemma_params_bytes_push(params.drop_first(), p);
        assert(params.push(p).drop_first() =~= params.drop_first().push(p));
        assert(params.push(p)[0] == params[0]);
        assert(spec_params_bytes(params.push(p)) == spec_param_bytes(params[0])
            + spec_params_bytes(params.drop_first().push(p)));
        assert(spec_params_bytes(params.push(p)) =~= spec_params_bytes(params) + spec_param_bytes(
            p,
        ));
    }
}

/// The history id of a test: the lowercase hexadecimal MD5 digest of the full
/// name's bytes followed by each non-excluded parameter's name and value
/// bytes, in order.
#[verifier::rlimit(50)]
pub fn compute_history_id(full_name: &str, parameters: &Vec<Parameter>) -> (r: String)
    ensures
        r@ == md5_hex_of(spec_history_input(full_name@, parameters@)),
        r@.len() == 32,
        forall|i: int| 0 <= i < r@.len() ==> is_lower_hex_char(#[trigger] r@[i]),
{
    let mut input: Vec<u8> = Vec::new();
    input.extend_from_slice(full_name.as_bytes());
    assert(input@ =~= encode_utf8(full_name@) + spec_params_bytes(parameters@.take(0)));
    let n = parameters.len();
    for i in 0..n
        invariant
            n == parameters@.len(),
            input@ == encode_utf8(full_name@) + spec_params_bytes(parameters@.take(i as int)),
    {
        let p = &parameters[i];
        let skip = match p.excluded {
            Some(true) => true,
            _ => false,
        };
        if !skip {
            input.extend_from_slice(p.name.as_str().as_bytes());
            input.extend_from_slice(p.value.as_str().as_bytes());
        }
        proof {
            lemma_params_bytes_push(parameters@.take(i as int), parameters@[i as int]);
            assert(parameters@.take(i + 1) =~= parameters@.take(i as int).push(
                parameters@[i as int],
            ));
            assert(input@ =~= encode_utf8(full_name@) + spec_params_bytes(
                parameters@.take(i + 1),
            ));
        }
    }
    assert(parameters@.take(n as int) =~= parameters@);
    md5_hex(input.as_slice())
}

} // verus!
