use nu_hcl::Span;
use nu_hcl::convert::convert_sjson_to_value;
use nu_hcl::tree::{ParsedNumber, Tree};
use nu_hcl::value::Output;

fn span() -> Span {
    Span { start: 3, end: 17 }
}

#[test]
fn null_becomes_nothing() {
    assert_eq!(convert_sjson_to_value(&Tree::Null, span()), Output::Nothing(span()));
}

#[test]
fn bool_becomes_bool() {
    assert_eq!(
        convert_sjson_to_value(&Tree::Bool(true), span()),
        Output::Bool(true, span())
    );
}

#[test]
fn integer_keeps_its_value() {
    assert_eq!(
        convert_sjson_to_value(&Tree::Num(ParsedNumber::Int(-42)), span()),
        Output::Int(-42, span())
    );
}

#[test]
fn large_unsigned_integer_saturates() {
    assert_eq!(
        convert_sjson_to_value(&Tree::Num(ParsedNumber::Uint(u64::MAX)), span()),
        Output::Int(i64::MAX, span())
    );
}

#[test]
fn small_unsigned_integer_keeps_its_value() {
    assert_eq!(
        convert_sjson_to_value(&Tree::Num(ParsedNumber::Uint(7)), span()),
        Output::Int(7, span())
    );
}

#[test]
fn whole_float_stays_float() {
    let bits = (1.0f64).to_bits();
    let out = convert_sjson_to_value(&Tree::Num(ParsedNumber::Float(bits)), span());
    match out {
        Output::Float(b, s) => {
            assert_eq!(f64::from_bits(b), 1.0);
            assert_eq!(s, span());
        }
        other => panic!("expected a float, got {:?}", other),
    }
}

#[test]
fn string_is_copied_exactly() {
    assert_eq!(
        convert_sjson_to_value(&Tree::Text("us-east-1".to_string()), span()),
        Output::Text("us-east-1".to_string(), span())
    );
}

#[test]
fn empty_array_becomes_empty_list() {
    assert_eq!(
        convert_sjson_to_value(&Tree::Arr(vec![]), span()),
        Output::List(vec![], span())
    );
}

#[test]
fn array_order_is_preserved() {
    let tree = Tree::Arr(vec![
        Tree::Num(ParsedNumber::Int(1)),
        Tree::Bool(false),
        Tree::Text("x".to_string()),
    ]);
    assert_eq!(
        convert_sjson_to_value(&tree, span()),
        Output::List(
            vec![
                Output::Int(1, span()),
                Output::Bool(false, span()),
                Output::Text("x".to_string(), span()),
            ],
            span()
        )
    );
}

#[test]
fn object_key_order_is_preserved() {
    // keys deliberately out of alphabetical order
    let tree = Tree::Obj(vec![
        ("zeta".to_string(), Tree::Num(ParsedNumber::Int(1))),
        ("alpha".to_string(), Tree::Num(ParsedNumber::Int(2))),
    ]);
    match convert_sjson_to_value(&tree, span()) {
        Output::Record(entries, _) => {
            let keys: Vec<&str> = entries.iter().map(|e| e.0.as_str()).collect();
            assert_eq!(keys, vec!["zeta", "alpha"]);
            assert_eq!(entries[0].1, Output::Int(1, span()));
            assert_eq!(entries[1].1, Output::Int(2, span()));
        }
        other => panic!("expected a record, got {:?}", other),
    }
}

fn check_spans(out: &Output, expected: Span) {
    match out {
        Output::Nothing(s)
        | Output::Bool(_, s)
        | Output::Int(_, s)
        | Output::Float(_, s)
        | Output::Text(_, s) => assert_eq!(*s, expected),
        Output::List(items, s) => {
            assert_eq!(*s, expected);
            for item in items {
                check_spans(item, expected);
            }
        }
        Output::Record(entries, s) => {
            assert_eq!(*s, expected);
            for entry in entries {
                check_spans(&entry.1, expected);
            }
        }
    }
}

#[test]
fn every_node_carries_the_call_span() {
    let tree = Tree::Obj(vec![
        (
            "a".to_string(),
            Tree::Arr(vec![Tree::Null, Tree::Obj(vec![("b".to_string(), Tree::Bool(true))])]),
        ),
        ("c".to_string(), Tree::Text("leaf".to_string())),
    ]);
    let out = convert_sjson_to_value(&tree, span());
    check_spans(&out, span());
}
