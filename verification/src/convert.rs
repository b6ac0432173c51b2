//! The core of the library: the recursive conversion from the intermediate
//! tree into the host's structured value.
//!
//! The conversion is shape-preserving and order-preserving, and attaches the
//! single span of the call to every node it produces. An integer-tagged
//! number too large for the 64-bit signed output saturates at the nearest
//! bound; this is a deliberate, documented policy for a boundary the data
//! model leaves open.

use vstd::prelude::*;
use crate::Span;
use crate::tree::{ParsedNumber, Tree, TreeModel, tree_model, trees_model, entries_model};
use crate::value::{Output, OutputModel, output_model, outputs_model, fields_model};

verus! {

broadcast use vstd::std_specs::vec::axiom_vec_index_decreases;

/// Widening of an integer-tagged number into the 64-bit signed output:
/// a value outside the representable range saturates at the nearest bound.
pub open spec fn widen_to_i64(i: int) -> i64 {
    if i > i64::MAX {
        i64::MAX
    } else if i < i64::MIN {
        i64::MIN
    } else {
        i as i64
    }
}

/// What the conversion produces, stated over the mathematical models: the
/// same shape, every string kept, every key and element in its source order,
/// and the one given span on every node.
pub open spec fn spec_convert(t: TreeModel, span: Span) -> OutputModel
    decreases t,
{
    match t {
        TreeModel::Null => OutputModel::Nothing(span),
        TreeModel::Bool(b) => OutputModel::Bool(b, span),
        TreeModel::Int(i) => OutputModel::Int(widen_to_i64(i), span),
        TreeModel::Float(bits) => OutputModel::Float(bits, span),
        TreeModel::Text(s) => OutputModel::Text(s, span),
        TreeModel::List(items) => OutputModel::List(spec_convert_seq(items, span), span),
        TreeModel::Rec(entries) => OutputModel::Record(spec_convert_entries(entries, span), span),
    }
}

/// The conversion of a sequence of trees, elementwise and in order.
pub open spec fn spec_convert_seq(ts: Seq<TreeModel>, span: Span) -> Seq<OutputModel>
    decreases ts,
{
    if ts.len() == 0 {
        Seq::empty()
    } else {
        spec_convert_seq(ts.drop_last(), span).push(spec_convert(ts.last(), span))
    }
}

/// The conversion of a sequence of keyed entries: values converted, keys and
/// order untouched.
pub open spec fn spec_convert_entries(es: Seq<(Seq<char>, TreeModel)>, span: Span) -> Seq<
    (Seq<char>, OutputModel),
>
    decreases es,
{
    if es.len() == 0 {
        Seq::empty()
    } else {
        spec_convert_entries(es.drop_last(), span).push(
            (es.last().0, spec_convert(es.last().1, span)),
        )
    }
}

pub proof fn lemma_values_model_push(vs: Seq<Output>, v: Output)
    ensures
        outputs_model(vs.push(v)) == outputs_model(vs).push(output_model(v)),
{
    assert(vs.push(v).drop_last() =~= vs);
}

pub proof fn lemma_fields_model_push(es: Seq<(String, Output)>, e: (String, Output))
    ensures
        fields_model(es.push(e)) == fields_model(es).push((e.0@, output_model(e.1))),
{
    assert(es.push(e).drop_last() =~= es);
}

pub proof fn lemma_spec_convert_seq_push(ts: Seq<TreeModel>, t: TreeModel, span: Span)
    ensures
        spec_convert_seq(ts.push(t), span) == spec_convert_seq(ts, span).push(
            spec_convert(t, span),
        ),
{
    assert(ts.push(t).drop_last() =~= ts);
}

pub proof fn lemma_spec_convert_entries_push(
    es: Seq<(Seq<char>, TreeModel)>,
    e: (Seq<char>, TreeModel),
    span: Span,
)
    ensures
        spec_convert_entries(es.push(e), span) == spec_convert_entries(es, span).push(
            (e.0, spec_convert(e.1, span)),
        ),
{
    assert(es.push(e).drop_last() =~= es);
}

/// Convert one intermediate tree into a structured value, attaching `span`
/// to every node produced.
#[verifier::loop_isolation(false)]
pub fn convert_sjson_to_value(value: &Tree, span: Span) -> (r: Output)
    ensures
        r@ == spec_convert(value@, span),
    decreases *value,
{
    match value {
        Tree::Null => Output::Nothing(span),
        Tree::Bool(b) => Output::Bool(*b, span),
        Tree::Num(n) => match n {
            ParsedNumber::Int(i) => Output::Int(*i, span),
            ParsedNumber::Uint(u) => {
                if *u <= i64::MAX as u64 {
                    Output::Int(*u as i64, span)
                } else {
                    Output::Int(i64::MAX, span)
                }
            },
            ParsedNumber::Float(bits) => Output::Float(*bits, span),
        },
        Tree::Text(s) => Output::Text(s.clone(), span),
        Tree::Arr(items) => {
            let mut out: Vec<Output> = Vec::new();
            let mut i: usize = 0;
            while i < items.len()
                invariant
                    i <= items@.len(),
                    outputs_model(out@) == spec_convert_seq(
                        trees_model(items@.subrange(0, i as int)),
                        span,
                    ),
                decreases items@.len() - i,
            {
                proof {
                    assert(decreases_to!(*value => (*value)->Arr_0));
                    assert(decreases_to!(*items => items[i as int]));
                }
                let v = convert_sjson_to_value(&items[i], span);
                proof {
                    let pre = items@.subrange(0, i as int);
                    let pre1 = items@.subrange(0, i as int + 1);
                    assert(pre1.drop_last() =~= pre);
                    lemma_values_model_push(out@, v);
                    lemma_spec_convert_seq_push(trees_model(pre), tree_model(items@[i as int]), span);
                }
                out.push(v);
                i = i + 1;
            }
            proof {
                assert(items@.subrange(0, items@.len() as int) =~= items@);
            }
            Output::List(out, span)
        },
        Tree::Obj(entries) => {
            let mut out: Vec<(String, Output)> = Vec::new();
            let mut i: usize = 0;
            while i < entries.len()
                invariant
                    i <= entries@.len(),
                    fields_model(out@) == spec_convert_entries(
                        entries_model(entries@.subrange(0, i as int)),
                        span,
                    ),
                decreases entries@.len() - i,
            {
                let pair = &entries[i];
                let k = pair.0.clone();
                proof {
                    assert(decreases_to!(*value => (*value)->Obj_0));
                    assert((*value)->Obj_0 == *entries);
                    assert(decreases_to!(*entries => entries[i as int]));
                    assert(decreases_to!(entries[i as int] => entries[i as int].1));
                }
                let v = convert_sjson_to_value(&pair.1, span);
                proof {
                    let pre = entries@.subrange(0, i as int);
                    let pre1 = entries@.subrange(0, i as int + 1);
                    assert(pre1.drop_last() =~= pre);
                    lemma_fields_model_push(out@, (k, v));
                    lemma_spec_convert_entries_push(
                        entries_model(pre),
                        (entries@[i as int].0@, tree_model(entries@[i as int].1)),
                        span,
                    );
                }
                out.push((k, v));
                i = i + 1;
            }
            proof {
                assert(entries@.subrange(0, entries@.len() as int) =~= entries@);
            }
            Output::Record(out, span)
        },
    }
}

} // verus!
