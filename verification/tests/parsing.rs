use nu_hcl::Span;
use nu_hcl::command::{FromHcl, FromTf, HclPlugin};
use nu_hcl::parse::run;
use nu_hcl::value::Output;

const WORKED_EXAMPLE: &str = "provider \"aws\" {\n  region = \"us-east-1\"\n}\nresource \"aws_instance\" \"web\" {\n  ami           = \"ami-a1b2c3d4\"\n  instance_type = \"t2.micro\"\n}";

fn span() -> Span {
    Span { start: 11, end: 29 }
}

fn record(entries: Vec<(&str, Output)>, s: Span) -> Output {
    Output::Record(
        entries.into_iter().map(|(k, v)| (k.to_string(), v)).collect(),
        s,
    )
}

#[test]
fn worked_example_round_trips() {
    let s = span();
    let expected = record(
        vec![
            (
                "provider",
                record(
                    vec![(
                        "aws",
                        record(
                            vec![("region", Output::Text("us-east-1".to_string(), s))],
                            s,
                        ),
                    )],
                    s,
                ),
            ),
            (
                "resource",
                record(
                    vec![(
                        "aws_instance",
                        record(
                            vec![(
                                "web",
                                record(
                                    vec![
                                        ("ami", Output::Text("ami-a1b2c3d4".to_string(), s)),
                                        (
                                            "instance_type",
                                            Output::Text("t2.micro".to_string(), s),
                                        ),
                                    ],
                                    s,
                                ),
                            )],
                            s,
                        ),
                    )],
                    s,
                ),
            ),
        ],
        s,
    );
    assert_eq!(run(WORKED_EXAMPLE, s), Ok(expected));
}

#[test]
fn worked_example_matches_the_published_fixture() {
    let s = Span::test_data();
    let examples = FromHcl.examples();
    assert_eq!(examples.len(), 1);
    let fixture = examples.into_iter().next().unwrap();
    assert!(fixture.example.contains(WORKED_EXAMPLE));
    assert_eq!(run(WORKED_EXAMPLE, s), Ok(fixture.result.unwrap()));
}

#[test]
fn unterminated_block_is_a_parse_failure() {
    let s = span();
    let r = run("resource \"x\" {", s);
    match r {
        Err(e) => {
            assert_eq!(e.span, s);
            assert_eq!(e.label(), "Error parsing hcl");
            assert!(!e.msg.is_empty());
        }
        Ok(v) => panic!("expected a parse failure, got {:?}", v),
    }
}

#[test]
fn empty_input_is_an_empty_record() {
    let s = span();
    assert_eq!(run("", s), Ok(Output::Record(vec![], s)));
}

#[test]
fn attribute_order_is_preserved_end_to_end() {
    let s = span();
    let r = run("zeta = 1\nalpha = 2", s).unwrap();
    match r {
        Output::Record(entries, _) => {
            let keys: Vec<&str> = entries.iter().map(|e| e.0.as_str()).collect();
            assert_eq!(keys, vec!["zeta", "alpha"]);
            assert_eq!(entries[0].1, Output::Int(1, s));
            assert_eq!(entries[1].1, Output::Int(2, s));
        }
        other => panic!("expected a record, got {:?}", other),
    }
}

#[test]
fn numbers_keep_their_read_time_tag() {
    let s = span();
    // The external parser folds a whole float such as 1.0 into an integer
    // before the conversion ever sees it, so the end-to-end float case needs
    // a fractional value; the conversion's own tag preservation is covered
    // by whole_float_stays_float in the conversion tests.
    let r = run("a = 1\nb = 1.5", s).unwrap();
    match r {
        Output::Record(entries, _) => {
            assert_eq!(entries[0], ("a".to_string(), Output::Int(1, s)));
            match &entries[1] {
                (k, Output::Float(bits, _)) => {
                    assert_eq!(k, "b");
                    assert_eq!(f64::from_bits(*bits), 1.5);
                }
                other => panic!("expected a float, got {:?}", other),
            }
        }
        other => panic!("expected a record, got {:?}", other),
    }
}

#[test]
fn oversized_integer_saturates_end_to_end() {
    let s = span();
    let r = run("x = 18446744073709551615", s).unwrap();
    assert_eq!(
        r,
        Output::Record(vec![("x".to_string(), Output::Int(i64::MAX, s))], s)
    );
}

#[test]
fn list_values_convert_elementwise() {
    let s = span();
    let r = run("x = [true, null, \"s\"]", s).unwrap();
    assert_eq!(
        r,
        Output::Record(
            vec![(
                "x".to_string(),
                Output::List(
                    vec![
                        Output::Bool(true, s),
                        Output::Nothing(s),
                        Output::Text("s".to_string(), s),
                    ],
                    s,
                ),
            )],
            s,
        )
    );
}

#[test]
fn the_two_commands_share_their_behaviour() {
    let s = span();
    assert_eq!(FromHcl.run("a = 1", s), FromTf.run("a = 1", s));
    assert_eq!(FromHcl.name(), "from hcl");
    assert_eq!(FromTf.name(), "from tf");
    assert_eq!(FromHcl.usage(), "Parse text as .hcl and create a record");
    assert_eq!(FromTf.usage(), "Parse text as .tf and create a record");
    assert_eq!(HclPlugin.commands(), (FromHcl, FromTf));
}
