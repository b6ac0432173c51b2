//! The two commands the plugin exposes, and their declarative metadata.
//! They differ only in registered name, usage text and example description,
//! never in behaviour: both parse HCL text and convert the result.

use vstd::prelude::*;
use crate::{Span, test_span};
use crate::value::{Output, OutputModel, output_model, fields_model};
use crate::parse::{run, hcl_tree, ParseError};
use crate::convert::{spec_convert, lemma_fields_model_push};

verus! {

/// One documentation example: a description, the literal command line, and
/// the exact value the command must produce for it.
pub struct Example {
    pub description: String,
    pub example: String,
    pub result: Option<Output>,
}

/// The literal command line of the worked example.
pub open spec fn example_input() -> Seq<char> {
    "'provider \"aws\" {\n  region = \"us-east-1\"\n}\nresource \"aws_instance\" \"web\" {\n  ami           = \"ami-a1b2c3d4\"\n  instance_type = \"t2.micro\"\n}' | from hcl"@
}

/// The exact value the worked example must produce: two top-level keys,
/// `provider` and `resource`, each a nested record mirroring the block
/// structure down to the leaf strings.
pub open spec fn example_result(span: Span) -> OutputModel {
    OutputModel::Record(
        seq![
            (
                "provider"@,
                OutputModel::Record(
                    seq![
                        (
                            "aws"@,
                            OutputModel::Record(
                                seq![("region"@, OutputModel::Text("us-east-1"@, span))],
                                span,
                            ),
                        ),
                    ],
                    span,
                ),
            ),
            (
                "resource"@,
                OutputModel::Record(
                    seq![
                        (
                            "aws_instance"@,
                            OutputModel::Record(
                                seq![
                                    (
                                        "web"@,
                                        OutputModel::Record(
                                            seq![
                                                ("ami"@, OutputModel::Text("ami-a1b2c3d4"@, span)),
                                                (
                                                    "instance_type"@,
                                                    OutputModel::Text("t2.micro"@, span),
                                                ),
                                            ],
                                            span,
                                        ),
                                    ),
                                ],
                                span,
                            ),
                        ),
                    ],
                    span,
                ),
            ),
        ],
        span,
    )
}

/// A record of one field.
fn record1(k: &str, v: Output, span: Span) -> (r: Output)
    ensures
        r@ == OutputModel::Record(seq![(k@, output_model(v))], span),
{
    let ghost vm = output_model(v);
    let mut fields: Vec<(String, Output)> = Vec::new();
    fields.push((k.to_owned(), v));
    proof {
        lemma_fields_model_push(Seq::empty(), fields@.last());
        assert(fields@ =~= Seq::empty().push(fields@.last()));
        assert(fields_model(fields@) =~= seq![(k@, vm)]);
    }
    Output::Record(fields, span)
}

/// A record of two fields, in order.
fn record2(k1: &str, v1: Output, k2: &str, v2: Output, span: Span) -> (r: Output)
    ensures
        r@ == OutputModel::Record(
            seq![(k1@, output_model(v1)), (k2@, output_model(v2))],
            span,
        ),
{
    let ghost vm1 = output_model(v1);
    let ghost vm2 = output_model(v2);
    let mut fields: Vec<(String, Output)> = Vec::new();
    fields.push((k1.to_owned(), v1));
    proof {
        lemma_fields_model_push(Seq::empty(), fields@.last());
        assert(fields@ =~= Seq::empty().push(fields@.last()));
    }
    let ghost one = fields@;
    fields.push((k2.to_owned(), v2));
    proof {
        lemma_fields_model_push(one, fields@.last());
        assert(fields@ =~= one.push(fields@.last()));
        assert(fields_model(fields@) =~= seq![(k1@, vm1), (k2@, vm2)]);
    }
    Output::Record(fields, span)
}

/// Build the exact record of the worked example.
fn example_record(span: Span) -> (r: Output)
    ensures
        r@ == example_result(span),
{
    let region = record1("region", Output::Text("us-east-1".to_owned(), span), span);
    let provider = record1("aws", region, span);
    let web_leaf = record2(
        "ami",
        Output::Text("ami-a1b2c3d4".to_owned(), span),
        "instance_type",
        Output::Text("t2.micro".to_owned(), span),
        span,
    );
    let web = record1("web", web_leaf, span);
    let resource = record1("aws_instance", web, span);
    let top = record2("provider", provider, "resource", resource, span);
    proof {
        assert(top@ =~~= example_result(span));
    }
    top
}

/// The documentation examples shared by the two commands: one worked
/// example whose result doubles as a golden fixture.
pub fn examples(description: &str) -> (r: Vec<Example>)
    ensures
        r@.len() == 1,
        r@[0].description@ == description@,
        r@[0].example@ == example_input(),
        r@[0].result is Some,
        r@[0].result->0@ == example_result(test_span()),
{
    let span = Span::test_data();
    let result = example_record(span);
    let mut v: Vec<Example> = Vec::new();
    v.push(
        Example {
            description: description.to_owned(),
            example:
                "'provider \"aws\" {\n  region = \"us-east-1\"\n}\nresource \"aws_instance\" \"web\" {\n  ami           = \"ami-a1b2c3d4\"\n  instance_type = \"t2.micro\"\n}' | from hcl".to_owned(),
            result: Some(result),
        },
    );
    v
}

/// The command that parses generic HCL text.
#[derive(Debug, PartialEq, Eq, Structural)]
pub struct FromHcl;

/// The Terraform-flavoured alias: identical behaviour, its own name and
/// usage text.
#[derive(Debug, PartialEq, Eq, Structural)]
pub struct FromTf;

impl FromHcl {
    /// The registered command name.
    pub fn name(&self) -> (r: &'static str)
        ensures
            r@ == "from hcl"@,
    {
        "from hcl"
    }

    /// The usage line shown for the command.
    pub fn usage(&self) -> (r: &'static str)
        ensures
            r@ == "Parse text as .hcl and create a record"@,
    {
        "Parse text as .hcl and create a record"
    }

    /// The command's documentation examples.
    pub fn examples(&self) -> (r: Vec<Example>)
        ensures
            r@.len() == 1,
            r@[0].description@ == "Convert .hcl data into record"@,
            r@[0].example@ == example_input(),
            r@[0].result is Some,
            r@[0].result->0@ == example_result(test_span()),
    {
        examples("Convert .hcl data into record")
    }

    /// Parse the piped input text and convert it, as `run` does.
    pub fn run(&self, input: &str, span: Span) -> (r: Result<Output, ParseError>)
        ensures
            hcl_tree(input@) is Ok ==> r is Ok && r->Ok_0@ == spec_convert(
                hcl_tree(input@)->Ok_0,
                span,
            ),
            hcl_tree(input@) is Err ==> r is Err && r->Err_0.msg@ == hcl_tree(input@)->Err_0
                && r->Err_0.span == span,
    {
        run(input, span)
    }
}

impl FromTf {
    /// The registered command name.
    pub fn name(&self) -> (r: &'static str)
        ensures
            r@ == "from tf"@,
    {
        "from tf"
    }

    /// The usage line shown for the command.
    pub fn usage(&self) -> (r: &'static str)
        ensures
            r@ == "Parse text as .tf and create a record"@,
    {
        "Parse text as .tf and create a record"
    }

    /// The command's documentation examples.
    pub fn examples(&self) -> (r: Vec<Example>)
        ensures
            r@.len() == 1,
            r@[0].description@ == "Convert .tf data into record"@,
            r@[0].example@ == example_input(),
            r@[0].result is Some,
            r@[0].result->0@ == example_result(test_span()),
    {
        examples("Convert .tf data into record")
    }

    /// Parse the piped input text and convert it, as `run` does.
    pub fn run(&self, input: &str, span: Span) -> (r: Result<Output, ParseError>)
        ensures
            hcl_tree(input@) is Ok ==> r is Ok && r->Ok_0@ == spec_convert(
                hcl_tree(input@)->Ok_0,
                span,
            ),
            hcl_tree(input@) is Err ==> r is Err && r->Err_0.msg@ == hcl_tree(input@)->Err_0
                && r->Err_0.span == span,
    {
        run(input, span)
    }
}

/// The plugin itself: it registers the two commands, and nothing else.
pub struct HclPlugin;

impl HclPlugin {
    /// The commands the plugin registers, in order: generic HCL first, the
    /// Terraform-flavoured alias second.
    pub fn commands(&self) -> (r: (FromHcl, FromTf))
        ensures
            r == (FromHcl, FromTf),
    {
        (FromHcl, FromTf)
    }
}

} // verus!
