//! The intermediate tree: the generic JSON-like value that the external HCL
//! parser emits, before it is converted into the host's structured value.

use vstd::prelude::*;

verus! {

/// A parsed number, tagged at read time as integer or floating-point.
///
/// The tag must be preserved by conversion: a value written as `1.0` stays a
/// float even though it is mathematically whole. A float is carried as its
/// IEEE 754 bit pattern, since the conversion only moves it, never computes
/// with it.
#[derive(Debug, Clone, Copy, PartialEq, Eq)]
pub enum ParsedNumber {
    /// An integer that fits in a signed 64-bit word.
    Int(i64),
    /// A non-negative integer too large for `i64`.
    Uint(u64),
    /// A floating-point value, as the bits of an `f64`.
    Float(u64),
}

/// The intermediate tree itself: a tagged union of the six variants the
/// external parser produces.
#[derive(Debug, PartialEq)]
pub enum Tree {
    Null,
    Bool(bool),
    Num(ParsedNumber),
    Text(String),
    /// An ordered sequence of values.
    Arr(Vec<Tree>),
    /// A key-ordered mapping: keys unique, insertion order preserved.
    Obj(Vec<(String, Tree)>),
}

/// The mathematical model of an intermediate tree. An integer-tagged number
/// is modelled by its exact mathematical value, whichever machine word
/// carried it.
#[verifier::ext_equal]
pub enum TreeModel {
    Null,
    Bool(bool),
    Int(int),
    Float(u64),
    Text(Seq<char>),
    List(Seq<TreeModel>),
    Rec(Seq<(Seq<char>, TreeModel)>),
}

/// The model of a parsed number.
pub open spec fn number_model(n: ParsedNumber) -> TreeModel {
    match n {
        ParsedNumber::Int(i) => TreeModel::Int(i as int),
        ParsedNumber::Uint(u) => TreeModel::Int(u as int),
        ParsedNumber::Float(bits) => TreeModel::Float(bits),
    }
}

/// The model of an intermediate tree: strings become character sequences,
/// vectors become sequences, numbers their mathematical value.
pub open spec fn tree_model(t: Tree) -> TreeModel
    decreases t,
{
    match t {
        Tree::Null => TreeModel::Null,
        Tree::Bool(b) => TreeModel::Bool(b),
        Tree::Num(n) => number_model(n),
        Tree::Text(s) => TreeModel::Text(s@),
        Tree::Arr(items) => TreeModel::List(trees_model(items@)),
        Tree::Obj(entries) => TreeModel::Rec(entries_model(entries@)),
    }
}

/// The models of a sequence of trees, in order.
pub open spec fn trees_model(ts: Seq<Tree>) -> Seq<TreeModel>
    decreases ts,
{
    if ts.len() == 0 {
        Seq::empty()
    } else {
        trees_model(ts.drop_last()).push(tree_model(ts.last()))
    }
}

/// The models of a sequence of keyed entries, keys and order kept.
pub open spec fn entries_model(es: Seq<(String, Tree)>) -> Seq<(Seq<char>, TreeModel)>
    decreases es,
{
    if es.len() == 0 {
        Seq::empty()
    } else {
        entries_model(es.drop_last()).push((es.last().0@, tree_model(es.last().1)))
    }
}

impl View for Tree {
    type V = TreeModel;

    open spec fn view(&self) -> TreeModel {
        tree_model(*self)
    }
}

} // verus!
