//! The structured output value: the host's tagged-union value type. Every
//! node carries the span of the conversion call that produced it.

use vstd::prelude::*;
use crate::Span;

verus! {

/// The host's structured value. A float is carried as the bits of an `f64`,
/// exactly as it came out of the parsed number.
#[derive(Debug, PartialEq)]
pub enum Output {
    Nothing(Span),
    Bool(bool, Span),
    Int(i64, Span),
    Float(u64, Span),
    Text(String, Span),
    /// An ordered list of values.
    List(Vec<Output>, Span),
    /// An ordered record: keys unique, order = source order.
    Record(Vec<(String, Output)>, Span),
}

/// The mathematical model of a structured value.
#[verifier::ext_equal]
pub enum OutputModel {
    Nothing(Span),
    Bool(bool, Span),
    Int(i64, Span),
    Float(u64, Span),
    Text(Seq<char>, Span),
    List(Seq<OutputModel>, Span),
    Record(Seq<(Seq<char>, OutputModel)>, Span),
}

/// The model of a structured value: strings become character sequences,
/// vectors become sequences.
pub open spec fn output_model(v: Output) -> OutputModel
    decreases v,
{
    match v {
        Output::Nothing(span) => OutputModel::Nothing(span),
        Output::Bool(b, span) => OutputModel::Bool(b, span),
        Output::Int(i, span) => OutputModel::Int(i, span),
        Output::Float(bits, span) => OutputModel::Float(bits, span),
        Output::Text(s, span) => OutputModel::Text(s@, span),
        Output::List(items, span) => OutputModel::List(outputs_model(items@), span),
        Output::Record(entries, span) => OutputModel::Record(fields_model(entries@), span),
    }
}

/// The models of a sequence of values, in order.
pub open spec fn outputs_model(vs: Seq<Output>) -> Seq<OutputModel>
    decreases vs,
{
    if vs.len() == 0 {
        Seq::empty()
    } else {
        outputs_model(vs.drop_last()).push(output_model(vs.last()))
    }
}

/// The models of a sequence of record fields, keys and order kept.
pub open spec fn fields_model(es: Seq<(String, Output)>) -> Seq<(Seq<char>, OutputModel)>
    decreases es,
{
    if es.len() == 0 {
        Seq::empty()
    } else {
        fields_model(es.drop_last()).push((es.last().0@, output_model(es.last().1)))
    }
}

impl View for Output {
    type V = OutputModel;

    open spec fn view(&self) -> OutputModel {
        output_model(*self)
    }
}

/// The span a model node carries, whatever its variant.
pub open spec fn model_span(v: OutputModel) -> Span {
    match v {
        OutputModel::Nothing(span) => span,
        OutputModel::Bool(_, span) => span,
        OutputModel::Int(_, span) => span,
        OutputModel::Float(_, span) => span,
        OutputModel::Text(_, span) => span,
        OutputModel::List(_, span) => span,
        OutputModel::Record(_, span) => span,
    }
}

} // verus!
