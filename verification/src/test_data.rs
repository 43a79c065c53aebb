use vstd::prelude::*;

use crate::blank_node::BlankNode;
use crate::default_graph::DefaultGraph;
use crate::error::TermError;
use crate::literal::Literal;
use crate::literal::plain_literal_model;
use crate::model::QuadModel;
use crate::model::TermModel;
use crate::named_node::NamedNode;
use crate::quad::Quad;
use crate::quad_object::QuadObject;
use crate::quad_predicate::QuadPredicate;
use crate::quad_subject::QuadSubject;
use crate::term::Term;
use crate::variable::Variable;
use vstd::pervasive::unreached;

verus! {

/// A fixture of terms for exercising equality: pairs built from the same
/// value, a value that differs, and each of them wrapped as a general term.
pub struct EqualityData {
    pub node_foo_1: NamedNode,
    pub node_foo_2: NamedNode,
    pub node_bar: NamedNode,
    pub blank_foo_1: BlankNode,
    pub blank_foo_2: BlankNode,
    pub blank_bar: BlankNode,
    pub literal_foo_1: Literal,
    pub literal_foo_2: Literal,
    pub literal_bar: Literal,
    pub variable_foo_1: Variable,
    pub variable_foo_2: Variable,
    pub variable_bar: Variable,
    pub default_graph_1: DefaultGraph,
    pub default_graph_2: DefaultGraph,
    pub quad_1_1: Quad,
    pub quad_1_2: Quad,
    pub quad_2: Quad,
    pub term_node_foo: Term,
    pub term_node_bar: Term,
    pub term_blank_foo: Term,
    pub term_blank_bar: Term,
    pub term_literal_foo: Term,
    pub term_literal_bar: Term,
    pub term_variable_foo: Term,
    pub term_variable_bar: Term,
    pub term_default_graph_1: Term,
    pub term_default_graph_2: Term,
    pub term_quad_foo: Term,
    pub term_quad_bar: Term,
}

/// The value of a fixture quad: named-node slots with the given IRIs, in the
/// default graph.
pub open spec fn sample_quad_model(s: Seq<char>, p: Seq<char>, o: Seq<char>) -> QuadModel {
    QuadModel {
        subject: TermModel::NamedNode(s),
        predicate: TermModel::NamedNode(p),
        object: TermModel::NamedNode(o),
        graph: TermModel::DefaultGraph,
    }
}

/// A plain-string literal; its construction can never fail.
fn plain_literal(value: &str) -> (r: Literal)
    ensures
        r@ == plain_literal_model(value@),
{
    let built: Result<Literal, TermError> = Literal::new(value, None, None, None);
    match built {
        Ok(l) => l,
        Err(_) => unreached(),
    }
}

/// A fixture quad with named-node slots and the default graph.
fn sample_quad(s: &str, p: &str, o: &str) -> (r: Quad)
    ensures
        r@ == sample_quad_model(s@, p@, o@),
{
    let subject = QuadSubject::NamedNode(NamedNode::new(s));
    let predicate = QuadPredicate::NamedNode(NamedNode::new(p));
    let object = QuadObject::NamedNode(NamedNode::new(o));
    Quad::new(&subject, &predicate, &object, None)
}

/// Builds the equality fixture.
pub fn equality_setup() -> (r: EqualityData)
    ensures
        r.node_foo_1@ == "foo"@,
        r.node_foo_2@ == "foo"@,
        r.node_bar@ == "bar"@,
        r.blank_foo_1@ == "foo"@,
        r.blank_foo_2@ == "foo"@,
        r.blank_bar@ == "bar"@,
        r.literal_foo_1@ == plain_literal_model("foo"@),
        r.literal_foo_2@ == plain_literal_model("foo"@),
        r.literal_bar@ == plain_literal_model("bar"@),
        r.variable_foo_1@ == "foo"@,
        r.variable_foo_2@ == "foo"@,
        r.variable_bar@ == "bar"@,
        r.quad_1_1@ == sample_quad_model("foo"@, "foo"@, "foo"@),
        r.quad_1_2@ == sample_quad_model("foo"@, "foo"@, "foo"@),
        r.quad_2@ == sample_quad_model("foo"@, "foo"@, "bar"@),
        r.term_node_foo@ == TermModel::NamedNode("foo"@),
        r.term_node_bar@ == TermModel::NamedNode("bar"@),
        r.term_blank_foo@ == TermModel::BlankNode("foo"@),
        r.term_blank_bar@ == TermModel::BlankNode("bar"@),
        r.term_literal_foo@ == TermModel::Literal(plain_literal_model("foo"@)),
        r.term_literal_bar@ == TermModel::Literal(plain_literal_model("bar"@)),
        r.term_variable_foo@ == TermModel::Variable("foo"@),
        r.term_variable_bar@ == TermModel::Variable("bar"@),
        r.term_default_graph_1@ == TermModel::DefaultGraph,
        r.term_default_graph_2@ == TermModel::DefaultGraph,
        r.term_quad_foo@ == (TermModel::Quad(Box::new(sample_quad_model("foo"@, "foo"@, "foo"@)))),
        r.term_quad_bar@ == (TermModel::Quad(Box::new(sample_quad_model("bar"@, "bar"@, "bar"@)))),
{
    EqualityData {
        node_foo_1: NamedNode::new("foo"),
        node_foo_2: NamedNode::new("foo"),
        node_bar: NamedNode::new("bar"),
        blank_foo_1: BlankNode::new("foo"),
        blank_foo_2: BlankNode::new("foo"),
        blank_bar: BlankNode::new("bar"),
        literal_foo_1: plain_literal("foo"),
        literal_foo_2: plain_literal("foo"),
        literal_bar: plain_literal("bar"),
        variable_foo_1: Variable::new("foo"),
        variable_foo_2: Variable::new("foo"),
        variable_bar: Variable::new("bar"),
        default_graph_1: DefaultGraph::new(),
        default_graph_2: DefaultGraph::new(),
        quad_1_1: sample_quad("foo", "foo", "foo"),
        quad_1_2: sample_quad("foo", "foo", "foo"),
        quad_2: sample_quad("foo", "foo", "bar"),
        term_node_foo: Term::NamedNode(NamedNode::new("foo")),
        term_node_bar: Term::NamedNode(NamedNode::new("bar")),
        term_blank_foo: Term::BlankNode(BlankNode::new("foo")),
        term_blank_bar: Term::BlankNode(BlankNode::new("bar")),
        term_literal_foo: Term::Literal(plain_literal("foo")),
        term_literal_bar: Term::Literal(plain_literal("bar")),
        term_variable_foo: Term::Variable(Variable::new("foo")),
        term_variable_bar: Term::Variable(Variable::new("bar")),
        term_default_graph_1: Term::DefaultGraph(DefaultGraph::new()),
        term_default_graph_2: Term::DefaultGraph(DefaultGraph::new()),
        term_quad_foo: Term::Quad(Box::new(sample_quad("foo", "foo", "foo"))),
        term_quad_bar: Term::Quad(Box::new(sample_quad("bar", "bar", "bar"))),
    }
}

} // verus!
