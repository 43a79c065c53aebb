use vstd::prelude::*;

use crate::literal::LanguageDirection;
use crate::quad::Quad;
use crate::quad_graph::QuadGraph;
use crate::quad_object::QuadObject;
use crate::quad_predicate::QuadPredicate;
use crate::quad_subject::QuadSubject;
use crate::term::Term;

verus! {

/// The abstract value of a literal: its lexical form, language tag (empty
/// when absent), optional base direction, and the IRI of its datatype.
#[verifier::ext_equal]
pub struct LiteralModel {
    pub value: Seq<char>,
    pub language: Seq<char>,
    pub direction: Option<LanguageDirection>,
    pub datatype: Seq<char>,
}

/// The abstract value of a term: one case per kind of the closed term
/// family. Two terms are equal as RDF terms exactly when their abstract
/// values are equal, so a term's construction history never matters.
#[verifier::ext_equal]
pub enum TermModel {
    NamedNode(Seq<char>),
    BlankNode(Seq<char>),
    Literal(LiteralModel),
    Variable(Seq<char>),
    DefaultGraph,
    Quad(Box<QuadModel>),
}

/// The abstract value of a quad: the abstract values of its four slots.
#[verifier::ext_equal]
pub struct QuadModel {
    pub subject: TermModel,
    pub predicate: TermModel,
    pub object: TermModel,
    pub graph: TermModel,
}

/// The kind of a term value, without its contents.
#[derive(Clone, Copy, PartialEq, Eq, Structural, Debug)]
pub enum TermKind {
    NamedNode,
    BlankNode,
    Literal,
    Variable,
    DefaultGraph,
    Quad,
}

/// The kind of the given term value.
pub open spec fn kind_of(m: TermModel) -> TermKind {
    match m {
        TermModel::NamedNode(_) => TermKind::NamedNode,
        TermModel::BlankNode(_) => TermKind::BlankNode,
        TermModel::Literal(_) => TermKind::Literal,
        TermModel::Variable(_) => TermKind::Variable,
        TermModel::DefaultGraph => TermKind::DefaultGraph,
        TermModel::Quad(_) => TermKind::Quad,
    }
}

/// The abstract value of a term.
pub open spec fn term_model_of(t: Term) -> TermModel
    decreases t,
{
    match t {
        Term::NamedNode(nn) => TermModel::NamedNode(nn@),
        Term::BlankNode(bn) => TermModel::BlankNode(bn@),
        Term::Literal(l) => TermModel::Literal(l@),
        Term::Variable(v) => TermModel::Variable(v@),
        Term::DefaultGraph(_) => TermModel::DefaultGraph,
        Term::Quad(q) => TermModel::Quad(Box::new(quad_model_of(*q))),
    }
}

/// The abstract value of a quad.
pub open spec fn quad_model_of(q: Quad) -> QuadModel
    decreases q,
{
    QuadModel {
        subject: subject_model_of(q.subject),
        predicate: predicate_model_of(q.predicate),
        object: object_model_of(q.object),
        graph: graph_model_of(q.graph),
    }
}

/// The abstract value of a subject-slot term.
pub open spec fn subject_model_of(s: QuadSubject) -> TermModel
    decreases s,
{
    match s {
        QuadSubject::NamedNode(nn) => TermModel::NamedNode(nn@),
        QuadSubject::BlankNode(bn) => TermModel::BlankNode(bn@),
        QuadSubject::Variable(v) => TermModel::Variable(v@),
        QuadSubject::Quad(q) => TermModel::Quad(Box::new(quad_model_of(*q))),
    }
}

/// The abstract value of a predicate-slot term.
pub open spec fn predicate_model_of(p: QuadPredicate) -> TermModel {
    match p {
        QuadPredicate::NamedNode(nn) => TermModel::NamedNode(nn@),
        QuadPredicate::Variable(v) => TermModel::Variable(v@),
    }
}

/// The abstract value of an object-slot term.
pub open spec fn object_model_of(o: QuadObject) -> TermModel {
    match o {
        QuadObject::NamedNode(nn) => TermModel::NamedNode(nn@),
        QuadObject::Literal(l) => TermModel::Literal(l@),
        QuadObject::BlankNode(bn) => TermModel::BlankNode(bn@),
        QuadObject::Variable(v) => TermModel::Variable(v@),
    }
}

/// The abstract value of a graph-slot term.
pub open spec fn graph_model_of(g: QuadGraph) -> TermModel {
    match g {
        QuadGraph::DefaultGraph(_) => TermModel::DefaultGraph,
        QuadGraph::NamedNode(nn) => TermModel::NamedNode(nn@),
        QuadGraph::BlankNode(bn) => TermModel::BlankNode(bn@),
        QuadGraph::Variable(v) => TermModel::Variable(v@),
    }
}

/// The value string of a term: its IRI, label, lexical form or name; empty
/// for the default graph and for a quoted quad.
pub open spec fn term_spec_value(m: TermModel) -> Seq<char> {
    match m {
        TermModel::NamedNode(iri) => iri,
        TermModel::BlankNode(label) => label,
        TermModel::Literal(l) => l.value,
        TermModel::Variable(name) => name,
        TermModel::DefaultGraph => Seq::<char>::empty(),
        TermModel::Quad(_) => Seq::<char>::empty(),
    }
}

/// Kinds admissible in a quad's subject slot.
pub open spec fn subject_kind_ok(k: TermKind) -> bool {
    ||| k == TermKind::NamedNode
    ||| k == TermKind::BlankNode
    ||| k == TermKind::Variable
    ||| k == TermKind::Quad
}

/// Kinds admissible in a quad's predicate slot.
pub open spec fn predicate_kind_ok(k: TermKind) -> bool {
    ||| k == TermKind::NamedNode
    ||| k == TermKind::Variable
}

/// Kinds admissible in a quad's object slot.
pub open spec fn object_kind_ok(k: TermKind) -> bool {
    ||| k == TermKind::NamedNode
    ||| k == TermKind::Literal
    ||| k == TermKind::BlankNode
    ||| k == TermKind::Variable
}

/// Kinds admissible in a quad's graph slot.
pub open spec fn graph_kind_ok(k: TermKind) -> bool {
    ||| k == TermKind::DefaultGraph
    ||| k == TermKind::NamedNode
    ||| k == TermKind::BlankNode
    ||| k == TermKind::Variable
}

/// Every slot of the quad holds a term of a kind admissible in that slot,
/// recursively through quoted quads.
pub open spec fn quad_model_wf(q: QuadModel) -> bool
    decreases q,
{
    &&& subject_kind_ok(kind_of(q.subject))
    &&& (q.subject matches TermModel::Quad(inner) ==> quad_model_wf(*inner))
    &&& predicate_kind_ok(kind_of(q.predicate))
    &&& object_kind_ok(kind_of(q.object))
    &&& graph_kind_ok(kind_of(q.graph))
}

} // verus!
