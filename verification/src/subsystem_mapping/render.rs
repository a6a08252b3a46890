//! The drawing as text in the DOT language.
//!
//! Every statement is rendered from a template of this module with the
//! `handlebars` engine, and the rendered lines are put one after the other
//! between the line that opens the drawing and the line that closes it.

use crate::error::CustomError;
use crate::subsystem_mapping::dot::drawing;
use crate::subsystem_mapping::dot::DotModel;
use crate::subsystem_mapping::dot::DotStatement;
use crate::subsystem_mapping::models_of;
use crate::subsystem_mapping::Graph;
use crate::text::texts_of;
use vstd::prelude::*;
use vstd::string::*;

verus! {

/// The line that opens a drawing.
pub const TEMPLATE_BEGIN_GRAPH: &'static str = "digraph {\n";

/// The line that closes a drawing.
pub const TEMPLATE_END_GRAPH: &'static str = "}\n";

/// The lines that open the cluster of a system.
pub const TEMPLATE_BEGIN_CLUSTER: &'static str =
    "{{indent}}subgraph \"cluster_{{id}}\" {\n{{indent}}  label = \"{{name}}\";\n";

/// The line that closes a cluster.
pub const TEMPLATE_END_CLUSTER: &'static str = "{{indent}}{{close}}\n";

/// The line that draws a subsystem.
pub const TEMPLATE_NODE: &'static str = "{{indent}}\"{{id}}\" [label = \"{{name}}\"];\n";

/// The line that draws a dependency.
pub const TEMPLATE_EDGE: &'static str = "{{indent}}\"{{idA}}\" -> \"{{idB}}\";\n";

/// What the `handlebars` engine, as it is when newly made, renders from
/// `template` for the data object whose fields are `fields` (a name and a
/// text each); `None` where it reports an error.
pub uninterp spec fn rendered(template: Seq<char>, fields: Seq<(Seq<char>, Seq<char>)>) -> Option<
    Seq<char>,
>;

/// The error with which `handlebars` refuses a template or a rendering.
#[verifier::external_type_specification]
#[verifier::external_body]
pub struct ExTemplateRenderError(handlebars::TemplateRenderError);

/// The names and texts of `fields`, as plain values.
pub open spec fn fields_of(fields: Seq<(String, String)>) -> Seq<(Seq<char>, Seq<char>)> {
    fields.map_values(|f: (String, String)| (f.0@, f.1@))
}

/// `template` is one of the templates of this module.
pub open spec fn is_drawing_template(template: Seq<char>) -> bool {
    ||| template == TEMPLATE_BEGIN_GRAPH@
    ||| template == TEMPLATE_END_GRAPH@
    ||| template == TEMPLATE_BEGIN_CLUSTER@
    ||| template == TEMPLATE_END_CLUSTER@
    ||| template == TEMPLATE_NODE@
    ||| template == TEMPLATE_EDGE@
}

/// Calls `handlebars::Handlebars::render_template` on a newly made engine,
/// with a `serde_json` object made of `fields` as data, for one of the
/// templates of this module. The contract only gives the outcome its name:
/// the text on success, an error exactly where [`rendered`] has no text.
#[verifier::external_body]
fn render_template(template: &str, fields: &Vec<(String, String)>) -> (outcome: Result<
    String,
    handlebars::TemplateRenderError,
>)
    requires
        is_drawing_template(template@),
    ensures
        match outcome {
            Ok(text) => rendered(template@, fields_of(fields@)) == Some(text@),
            Err(_) => rendered(template@, fields_of(fields@)) is None,
        },
{
    let data: serde_json::Map<String, serde_json::Value> = fields.iter().map(
        |f| (f.0.clone(), serde_json::Value::String(f.1.clone())),
    ).collect();
    handlebars::Handlebars::new().render_template(template, &data)
}

/// Formats a `handlebars::TemplateRenderError` with its `Display` impl.
/// Nothing is claimed of the text.
#[verifier::external_body]
fn describe_render_error(error: &handlebars::TemplateRenderError) -> String {
    format!("{}", error)
}

/// The template from which `statement` is rendered.
pub open spec fn template_of(statement: DotModel) -> Seq<char> {
    match statement {
        DotModel::BeginCluster { .. } => TEMPLATE_BEGIN_CLUSTER@,
        DotModel::EndCluster { .. } => TEMPLATE_END_CLUSTER@,
        DotModel::Node { .. } => TEMPLATE_NODE@,
        DotModel::Edge { .. } => TEMPLATE_EDGE@,
    }
}

/// The fields that the template of `statement` is filled with.
pub open spec fn data_of(statement: DotModel) -> Seq<(Seq<char>, Seq<char>)> {
    match statement {
        DotModel::BeginCluster { indent, id, name } => seq![
            ("indent"@, indent),
            ("id"@, id),
            ("name"@, name),
        ],
        DotModel::EndCluster { indent } => seq![("indent"@, indent), ("close"@, "}"@)],
        DotModel::Node { indent, id, name } => seq![("indent"@, indent), ("id"@, id), ("name"@, name)],
        DotModel::Edge { indent, id_a, id_b } => seq![
            ("indent"@, indent),
            ("idA"@, id_a),
            ("idB"@, id_b),
        ],
    }
}

/// The text of `statement`, where it can be rendered.
pub open spec fn line_of(statement: DotModel) -> Option<Seq<char>> {
    rendered(template_of(statement), data_of(statement))
}

/// The lines of the drawing of `graph`, each where it can be rendered: the
/// opening line, one line or pair of lines for each statement, the closing line.
pub open spec fn drawing_lines(graph: crate::subsystem_mapping::GraphModel) -> Seq<Option<Seq<char>>> {
    seq![rendered(TEMPLATE_BEGIN_GRAPH@, Seq::empty())] + drawing(graph).map_values(
        |s: DotModel| line_of(s),
    ) + seq![rendered(TEMPLATE_END_GRAPH@, Seq::empty())]
}

/// A name and a text, owned.
fn field(name: &str, text: &String) -> (pair: (String, String))
    ensures
        pair.0@ == name@,
        pair.1@ == text@,
{
    (name.to_owned(), text.clone())
}

/// Renders `template` with `fields`, reporting a refusal of the engine as
/// an error of this crate.
fn render(template: &str, fields: &Vec<(String, String)>) -> (outcome: Result<String, CustomError>)
    requires
        is_drawing_template(template@),
    ensures
        match outcome {
            Ok(text) => rendered(template@, fields_of(fields@)) == Some(text@),
            Err(_) => rendered(template@, fields_of(fields@)) is None,
        },
{
    match render_template(template, fields) {
        Ok(text) => Ok(text),
        Err(error) => {
            let mut message = "While rendering the dot file: ".to_owned();
            message.append(describe_render_error(&error).as_str());
            Err(CustomError::new(message))
        },
    }
}

/// Renders one statement of a drawing.
///
/// Succeeds exactly where the engine renders the statement's template with
/// the statement's fields, and then returns that text.
pub fn render_statement(statement: &DotStatement) -> (outcome: Result<String, CustomError>)
    ensures
        match outcome {
            Ok(text) => line_of(statement@) == Some(text@),
            Err(_) => line_of(statement@) is None,
        },
{
    let mut fields: Vec<(String, String)> = Vec::new();
    match statement {
        DotStatement::BeginCluster { indent, id, name } => {
            fields.push(field("indent", indent));
            fields.push(field("id", id));
            fields.push(field("name", name));
            assert(fields_of(fields@) =~= data_of(statement@));
            render(TEMPLATE_BEGIN_CLUSTER, &fields)
        },
        DotStatement::EndCluster { indent } => {
            fields.push(field("indent", indent));
            fields.push(("close".to_owned(), "}".to_owned()));
            assert(fields_of(fields@) =~= data_of(statement@));
            render(TEMPLATE_END_CLUSTER, &fields)
        },
        DotStatement::Node { indent, id, name } => {
            fields.push(field("indent", indent));
            fields.push(field("id", id));
            fields.push(field("name", name));
            assert(fields_of(fields@) =~= data_of(statement@));
            render(TEMPLATE_NODE, &fields)
        },
        DotStatement::Edge { indent, id_a, id_b } => {
            fields.push(field("indent", indent));
            fields.push(field("idA", id_a));
            fields.push(field("idB", id_b));
            assert(fields_of(fields@) =~= data_of(statement@));
            render(TEMPLATE_EDGE, &fields)
        },
    }
}

/// Puts `lines` one after the other.
pub fn join_lines(lines: &Vec<String>) -> (text: String)
    ensures
        text@ == texts_of(lines@).flatten(),
{
    let ghost all = texts_of(lines@);
    let mut text = String::new();
    let mut i: usize = 0;
    while i < lines.len()
        invariant
            i <= lines.len(),
            all == texts_of(lines@),
            text@ == all.take(i as int).flatten(),
        decreases lines.len() - i,
    {
        proof {
            assert(all.take(i + 1) =~= all.take(i as int).push(lines@[i as int]@));
            all.take(i as int).lemma_flatten_push(lines@[i as int]@);
        }
        text.append(lines[i].as_str());
        i += 1;
    }
    assert(all.take(i as int) =~= all);
    text
}

impl Graph {
    /// The graph as text in the DOT language.
    ///
    /// Succeeds exactly where every line of the drawing can be rendered, and
    /// then returns the lines one after the other.
    pub fn output_to_dot(&self) -> (outcome: Result<String, CustomError>)
        ensures
            match outcome {
                Ok(text) => {
                    &&& forall|i: int|
                        0 <= i < drawing_lines(self@).len() ==> (#[trigger] drawing_lines(
                            self@,
                        )[i]) is Some
                    &&& text@ == drawing_lines(self@).map_values(
                        |l: Option<Seq<char>>| l.unwrap(),
                    ).flatten()
                },
                Err(_) => exists|i: int|
                    0 <= i < drawing_lines(self@).len() && (#[trigger] drawing_lines(self@)[i]) is None,
            },
    {
        let ghost wanted = drawing_lines(self@);
        let statements = self.dot_statements();
        let no_fields: Vec<(String, String)> = Vec::new();
        assert(fields_of(no_fields@) =~= Seq::empty());
        let mut lines: Vec<String> = Vec::new();
        match render(TEMPLATE_BEGIN_GRAPH, &no_fields) {
            Ok(line) => {
                lines.push(line);
            },
            Err(e) => {
                assert(wanted[0] is None);
                return Err(e);
            },
        }
        let mut i: usize = 0;
        while i < statements.len()
            invariant
                i <= statements.len(),
                wanted == drawing_lines(self@),
                models_of(statements@) == drawing(self@),
                lines@.len() == i + 1,
                forall|k: int| 0 <= k < i + 1 ==> wanted[k] == Some(#[trigger] lines@[k]@),
            decreases statements.len() - i,
        {
            assert(wanted[i + 1] == line_of(statements@[i as int]@));
            match render_statement(&statements[i]) {
                Ok(line) => {
                    lines.push(line);
                },
                Err(e) => {
                    assert(wanted[i + 1] is None);
                    return Err(e);
                },
            }
            i += 1;
        }
        match render(TEMPLATE_END_GRAPH, &no_fields) {
            Ok(line) => {
                lines.push(line);
            },
            Err(e) => {
                assert(wanted[i + 1] is None);
                return Err(e);
            },
        }
        assert(wanted.len() == lines@.len());
        assert forall|k: int| 0 <= k < wanted.len() implies (#[trigger] wanted[k]) == Some(
            lines@[k]@,
        ) by {
            if k < i + 1 {
                assert(wanted[k] == Some(lines@[k]@));
            }
        }
        assert(texts_of(lines@) =~= wanted.map_values(|l: Option<Seq<char>>| l.unwrap()));
        Ok(join_lines(&lines))
    }
}

} // verus!
