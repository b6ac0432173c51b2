//! The entry point: hand the input text to the external HCL parser, then
//! convert the intermediate tree it produces. The parser is the one trusted
//! boundary of the library; everything after it is verified.

use vstd::prelude::*;
use crate::Span;
use crate::tree::{ParsedNumber, Tree, TreeModel, tree_model};
use crate::value::Output;
use crate::convert::{convert_sjson_to_value, spec_convert};

verus! {

/// What the external parser yields on a given input text: the model of the
/// intermediate tree it deserializes, or the text of the error it reports.
/// The outcome depends on the input text alone.
pub uninterp spec fn hcl_tree(s: Seq<char>) -> Result<TreeModel, Seq<char>>;

/// Relies on serde_json::Number: the read-time tag moves into the matching
/// variant (a float as its bits, a positive integer as unsigned, the rest
/// signed); none of the accessors can fail on the variant each arm selects.
#[verifier::external_body]
fn number_of_sjson(n: &serde_json::Number) -> ParsedNumber {
    if n.is_f64() {
        ParsedNumber::Float(n.as_f64().unwrap().to_bits())
    } else if n.is_u64() {
        ParsedNumber::Uint(n.as_u64().unwrap())
    } else {
        ParsedNumber::Int(n.as_i64().unwrap())
    }
}

/// Relies on serde_json::Value: each variant moves into the matching
/// intermediate-tree variant, and an object keeps its key order.
#[verifier::external_body]
fn tree_of_sjson(v: &serde_json::Value) -> Tree {
    match v {
        serde_json::Value::Null => Tree::Null,
        serde_json::Value::Bool(b) => Tree::Bool(*b),
        serde_json::Value::Number(n) => Tree::Num(number_of_sjson(n)),
        serde_json::Value::String(s) => Tree::Text(s.clone()),
        serde_json::Value::Array(a) => Tree::Arr(a.iter().map(tree_of_sjson).collect()),
        serde_json::Value::Object(m) => Tree::Obj(
            m.iter().map(|(k, x)| (k.clone(), tree_of_sjson(x))).collect(),
        ),
    }
}

/// Relies on hcl::from_str: it parses the whole input into a generic
/// JSON-like tree, or fails with one descriptive error; the outcome depends
/// on the input text alone, and `hcl_tree` names it.
#[verifier::external_body]
fn parse_hcl_text(input: &str) -> (r: Result<Tree, String>)
    ensures
        r is Ok <==> hcl_tree(input@) is Ok,
        r is Ok ==> tree_model(r->Ok_0) == hcl_tree(input@)->Ok_0,
        r is Err ==> r->Err_0@ == hcl_tree(input@)->Err_0,
{
    match hcl::from_str::<serde_json::Value>(input) {
        Ok(v) => Ok(tree_of_sjson(&v)),
        Err(e) => Err(e.to_string()),
    }
}

/// The single error kind: a parse failure, carrying the parser's message
/// verbatim and the span of the call that failed.
#[derive(Debug, PartialEq)]
pub struct ParseError {
    pub msg: String,
    pub span: Span,
}

/// The fixed text labelling the failing stage.
pub open spec fn error_label() -> Seq<char> {
    "Error parsing hcl"@
}

impl ParseError {
    /// The fixed human-readable label identifying the stage that failed.
    pub fn label(&self) -> (r: &'static str)
        ensures
            r@ == error_label(),
    {
        "Error parsing hcl"
    }
}

/// Parse HCL text and convert the result, attaching the call's span to every
/// produced node. On parse failure, no partial value: the one error, with
/// the parser's message verbatim and the same span. An empty input is valid
/// HCL — an empty body — and yields an empty record.
pub fn run(input: &str, span: Span) -> (r: Result<Output, ParseError>)
    ensures
        hcl_tree(input@) is Ok ==> r is Ok && r->Ok_0@ == spec_convert(
            hcl_tree(input@)->Ok_0,
            span,
        ),
        hcl_tree(input@) is Err ==> r is Err && r->Err_0.msg@ == hcl_tree(input@)->Err_0
            && r->Err_0.span == span,
{
    match parse_hcl_text(input) {
        Ok(tree) => Ok(convert_sjson_to_value(&tree, span)),
        Err(msg) => Err(ParseError { msg, span }),
    }
}

} // verus!
