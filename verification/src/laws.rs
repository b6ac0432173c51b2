//! The laws of the conversion, stated over the mathematical models and
//! proved once for every input: shape preservation, order preservation,
//! numeric fidelity, and uniform span propagation.

use vstd::prelude::*;
use crate::Span;
use crate::tree::TreeModel;
use crate::value::{OutputModel, model_span};
use crate::convert::{spec_convert, spec_convert_seq, spec_convert_entries};

verus! {

/// Whether an output node has the variant category its source node calls
/// for, recursively: null to nothing, bool to bool, integer-tagged to
/// integer, float-tagged to float, string to string, array to list, object
/// to record.
pub open spec fn same_shape(t: TreeModel, v: OutputModel) -> bool
    decreases t,
{
    match t {
        TreeModel::Null => v is Nothing,
        TreeModel::Bool(_) => v is Bool,
        TreeModel::Int(_) => v is Int,
        TreeModel::Float(_) => v is Float,
        TreeModel::Text(_) => v is Text,
        TreeModel::List(ts) => v matches OutputModel::List(vs, _) && same_shape_seq(ts, vs),
        TreeModel::Rec(te) => v matches OutputModel::Record(ve, _) && same_shape_entries(te, ve),
    }
}

pub open spec fn same_shape_seq(ts: Seq<TreeModel>, vs: Seq<OutputModel>) -> bool
    decreases ts,
{
    if ts.len() != vs.len() {
        false
    } else if ts.len() == 0 {
        true
    } else {
        same_shape_seq(ts.drop_last(), vs.drop_last()) && same_shape(ts.last(), vs.last())
    }
}

pub open spec fn same_shape_entries(
    ts: Seq<(Seq<char>, TreeModel)>,
    vs: Seq<(Seq<char>, OutputModel)>,
) -> bool
    decreases ts,
{
    if ts.len() != vs.len() {
        false
    } else if ts.len() == 0 {
        true
    } else {
        same_shape_entries(ts.drop_last(), vs.drop_last()) && same_shape(
            ts.last().1,
            vs.last().1,
        )
    }
}

/// Shape preservation: for every intermediate value, the converted output's
/// variant category matches the input's category, recursively.
pub proof fn lemma_shape_preserved(t: TreeModel, span: Span)
    ensures
        same_shape(t, spec_convert(t, span)),
    decreases t,
{
    match t {
        TreeModel::List(ts) => lemma_shape_preserved_seq(ts, span),
        TreeModel::Rec(te) => lemma_shape_preserved_entries(te, span),
        _ => {},
    }
}

pub proof fn lemma_shape_preserved_seq(ts: Seq<TreeModel>, span: Span)
    ensures
        same_shape_seq(ts, spec_convert_seq(ts, span)),
    decreases ts,
{
    if ts.len() > 0 {
        lemma_shape_preserved_seq(ts.drop_last(), span);
        lemma_shape_preserved(ts.last(), span);
        assert(spec_convert_seq(ts, span).drop_last() =~= spec_convert_seq(
            ts.drop_last(),
            span,
        ));
    }
}

pub proof fn lemma_shape_preserved_entries(es: Seq<(Seq<char>, TreeModel)>, span: Span)
    ensures
        same_shape_entries(es, spec_convert_entries(es, span)),
    decreases es,
{
    if es.len() > 0 {
        lemma_shape_preserved_entries(es.drop_last(), span);
        lemma_shape_preserved(es.last().1, span);
        assert(spec_convert_entries(es, span).drop_last() =~= spec_convert_entries(
            es.drop_last(),
            span,
        ));
    }
}

/// Elementwise reading of a converted sequence: same length, and each
/// element is the conversion of the element at the same position.
pub proof fn lemma_spec_convert_seq_index(ts: Seq<TreeModel>, span: Span)
    ensures
        spec_convert_seq(ts, span).len() == ts.len(),
        forall|i: int|
            0 <= i < ts.len() ==> spec_convert_seq(ts, span)[i] == spec_convert(ts[i], span),
    decreases ts,
{
    if ts.len() > 0 {
        lemma_spec_convert_seq_index(ts.drop_last(), span);
    }
}

/// Elementwise reading of a converted entry sequence: same length, the key
/// at each position untouched, the value at each position converted.
pub proof fn lemma_spec_convert_entries_index(es: Seq<(Seq<char>, TreeModel)>, span: Span)
    ensures
        spec_convert_entries(es, span).len() == es.len(),
        forall|i: int|
            0 <= i < es.len() ==> spec_convert_entries(es, span)[i] == (
                es[i].0,
                spec_convert(es[i].1, span),
            ),
    decreases es,
{
    if es.len() > 0 {
        lemma_spec_convert_entries_index(es.drop_last(), span);
    }
}

/// Order preservation for objects: the output record holds exactly one
/// field per source entry, with the same key, at the same position.
pub proof fn lemma_record_order_preserved(es: Seq<(Seq<char>, TreeModel)>, span: Span)
    ensures
        spec_convert(TreeModel::Rec(es), span) == OutputModel::Record(
            spec_convert_entries(es, span),
            span,
        ),
        spec_convert_entries(es, span).len() == es.len(),
        forall|i: int| 0 <= i < es.len() ==> spec_convert_entries(es, span)[i].0 == es[i].0,
{
    lemma_spec_convert_entries_index(es, span);
}

/// Order preservation for arrays: the output list holds exactly one element
/// per source element, converted, at the same position.
pub proof fn lemma_list_order_preserved(ts: Seq<TreeModel>, span: Span)
    ensures
        spec_convert(TreeModel::List(ts), span) == OutputModel::List(
            spec_convert_seq(ts, span),
            span,
        ),
        spec_convert_seq(ts, span).len() == ts.len(),
        forall|i: int|
            0 <= i < ts.len() ==> spec_convert_seq(ts, span)[i] == spec_convert(ts[i], span),
{
    lemma_spec_convert_seq_index(ts, span);
}

/// Numeric fidelity for integers: an integer-tagged number whose value fits
/// the 64-bit signed output converts to an integer equal in value.
pub proof fn lemma_integer_fidelity(i: int, span: Span)
    requires
        i64::MIN <= i <= i64::MAX,
    ensures
        spec_convert(TreeModel::Int(i), span) == OutputModel::Int(i as i64, span),
{
}

/// Numeric fidelity for floats: a float-tagged number converts to a float
/// with the identical bit pattern, never to an integer — even a value that
/// is mathematically whole stays a float.
pub proof fn lemma_float_fidelity(bits: u64, span: Span)
    ensures
        spec_convert(TreeModel::Float(bits), span) == OutputModel::Float(bits, span),
        !(spec_convert(TreeModel::Float(bits), span) is Int),
{
}

/// The saturation policy, in full: an integer-tagged number out of the
/// signed 64-bit range converts to the nearest representable bound.
pub proof fn lemma_integer_saturation(i: int, span: Span)
    ensures
        i > i64::MAX ==> spec_convert(TreeModel::Int(i), span) == OutputModel::Int(
            i64::MAX,
            span,
        ),
        i < i64::MIN ==> spec_convert(TreeModel::Int(i), span) == OutputModel::Int(
            i64::MIN,
            span,
        ),
{
}

/// Whether every node of an output value carries exactly the given span.
pub open spec fn spans_uniform(v: OutputModel, span: Span) -> bool
    decreases v,
{
    model_span(v) == span && match v {
        OutputModel::List(vs, _) => spans_uniform_seq(vs, span),
        OutputModel::Record(es, _) => spans_uniform_entries(es, span),
        _ => true,
    }
}

pub open spec fn spans_uniform_seq(vs: Seq<OutputModel>, span: Span) -> bool
    decreases vs,
{
    if vs.len() == 0 {
        true
    } else {
        spans_uniform_seq(vs.drop_last(), span) && spans_uniform(vs.last(), span)
    }
}

pub open spec fn spans_uniform_entries(es: Seq<(Seq<char>, OutputModel)>, span: Span) -> bool
    decreases es,
{
    if es.len() == 0 {
        true
    } else {
        spans_uniform_entries(es.drop_last(), span) && spans_uniform(es.last().1, span)
    }
}

/// Idempotent span propagation: every node produced by one conversion call
/// carries the identical span passed to that call.
pub proof fn lemma_spans_uniform(t: TreeModel, span: Span)
    ensures
        spans_uniform(spec_convert(t, span), span),
    decreases t,
{
    match t {
        TreeModel::List(ts) => lemma_spans_uniform_seq(ts, span),
        TreeModel::Rec(te) => lemma_spans_uniform_entries(te, span),
        _ => {},
    }
}

pub proof fn lemma_spans_uniform_seq(ts: Seq<TreeModel>, span: Span)
    ensures
        spans_uniform_seq(spec_convert_seq(ts, span), span),
    decreases ts,
{
    if ts.len() > 0 {
        lemma_spans_uniform_seq(ts.drop_last(), span);
        lemma_spans_uniform(ts.last(), span);
        assert(spec_convert_seq(ts, span).drop_last() =~= spec_convert_seq(
            ts.drop_last(),
            span,
        ));
    }
}

pub proof fn lemma_spans_uniform_entries(es: Seq<(Seq<char>, TreeModel)>, span: Span)
    ensures
        spans_uniform_entries(spec_convert_entries(es, span), span),
    decreases es,
{
    if es.len() > 0 {
        lemma_spans_uniform_entries(es.drop_last(), span);
        lemma_spans_uniform(es.last().1, span);
        assert(spec_convert_entries(es, span).drop_last() =~= spec_convert_entries(
            es.drop_last(),
            span,
        ));
    }
}

} // verus!
