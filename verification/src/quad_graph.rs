use vstd::prelude::*;

use crate::blank_node::BlankNode;
use crate::default_graph::DefaultGraph;
use crate::error::TermError;
use crate::model::TermModel;
use crate::model::graph_model_of;
use crate::named_node::NamedNode;
use crate::term::Term;
use crate::term_like::TermLike;
use crate::variable::Variable;

verus! {

/// The terms admissible in a quad's graph slot: the default graph, a named
/// node, a blank node, or a variable.
#[derive(Debug)]
pub enum QuadGraph {
    DefaultGraph(DefaultGraph),
    NamedNode(NamedNode),
    BlankNode(BlankNode),
    Variable(Variable),
}

impl View for QuadGraph {
    type V = TermModel;

    open spec fn view(&self) -> TermModel {
        graph_model_of(*self)
    }
}

impl QuadGraph {
    /// Narrows a term to the graph slot, cloning it; a term of a kind the
    /// slot does not admit is rejected.
    pub fn from_term(t: &Term) -> (r: Result<QuadGraph, TermError>)
        ensures
            r is Ok <==> crate::model::graph_kind_ok(crate::model::kind_of((*t)@)),
            r matches Ok(s) ==> s@ == (*t)@,
            r matches Err(e) ==> e == TermError::InvalidQuadSlotKind,
    {
        match t {
            Term::DefaultGraph(x) => Ok(QuadGraph::DefaultGraph(x.clone())),
            Term::NamedNode(x) => Ok(QuadGraph::NamedNode(x.clone())),
            Term::BlankNode(x) => Ok(QuadGraph::BlankNode(x.clone())),
            Term::Variable(x) => Ok(QuadGraph::Variable(x.clone())),
            _ => Err(TermError::InvalidQuadSlotKind),
        }
    }

    /// Whether the two graph terms have the same abstract value.
    pub fn equals(&self, other: &QuadGraph) -> (r: bool)
        ensures
            r == (self@ == other@),
    {
        match (self, other) {
            (QuadGraph::DefaultGraph(_), QuadGraph::DefaultGraph(_)) => true,
            (QuadGraph::NamedNode(a), QuadGraph::NamedNode(b)) => a == b,
            (QuadGraph::BlankNode(a), QuadGraph::BlankNode(b)) => a == b,
            (QuadGraph::Variable(a), QuadGraph::Variable(b)) => a == b,
            _ => false,
        }
    }

    /// Whether the given term has the same abstract value as this graph.
    fn equals_term(&self, other: &Term) -> (r: bool)
        ensures
            r == (self@ == (*other)@),
    {
        match self {
            QuadGraph::DefaultGraph(x) => x.equals(other),
            QuadGraph::NamedNode(x) => x.equals(other),
            QuadGraph::BlankNode(x) => x.equals(other),
            QuadGraph::Variable(x) => x.equals(other),
        }
    }
}

impl Clone for QuadGraph {
    fn clone(&self) -> (r: Self)
        ensures
            r == *self,
    {
        match self {
            QuadGraph::DefaultGraph(a) => QuadGraph::DefaultGraph(a.clone()),
            QuadGraph::NamedNode(a) => QuadGraph::NamedNode(a.clone()),
            QuadGraph::BlankNode(a) => QuadGraph::BlankNode(a.clone()),
            QuadGraph::Variable(a) => QuadGraph::Variable(a.clone()),
        }
    }
}

impl PartialEq for QuadGraph {
    fn eq(&self, other: &Self) -> (r: bool) {
        self.equals(other)
    }

    fn ne(&self, other: &Self) -> (r: bool) {
        !self.equals(other)
    }
}

impl vstd::std_specs::cmp::PartialEqSpecImpl for QuadGraph {
    open spec fn obeys_eq_spec() -> bool {
        true
    }

    open spec fn eq_spec(&self, other: &QuadGraph) -> bool {
        self@ == other@
    }
}

impl PartialEq<Term> for QuadGraph {
    fn eq(&self, other: &Term) -> (r: bool) {
        self.equals_term(other)
    }

    fn ne(&self, other: &Term) -> (r: bool) {
        !self.equals_term(other)
    }
}

impl vstd::std_specs::cmp::PartialEqSpecImpl<Term> for QuadGraph {
    open spec fn obeys_eq_spec() -> bool {
        true
    }

    open spec fn eq_spec(&self, other: &Term) -> bool {
        (*self)@ == (*other)@
    }
}

impl PartialEq<QuadGraph> for Term {
    fn eq(&self, other: &QuadGraph) -> (r: bool) {
        other.equals_term(self)
    }

    fn ne(&self, other: &QuadGraph) -> (r: bool) {
        !other.equals_term(self)
    }
}

impl vstd::std_specs::cmp::PartialEqSpecImpl<QuadGraph> for Term {
    open spec fn obeys_eq_spec() -> bool {
        true
    }

    open spec fn eq_spec(&self, other: &QuadGraph) -> bool {
        (*self)@ == (*other)@
    }
}

impl TermLike for QuadGraph {
    fn value(&self) -> (r: &str)
        ensures
            r@ == crate::model::term_spec_value(self@),
    {
        match self {
            QuadGraph::DefaultGraph(x) => x.value(),
            QuadGraph::NamedNode(x) => x.value(),
            QuadGraph::BlankNode(x) => x.value(),
            QuadGraph::Variable(x) => x.value(),
        }
    }

    fn as_term(self) -> (r: Term)
        ensures
            r@ == self@,
    {
        match self {
            QuadGraph::DefaultGraph(x) => x.as_term(),
            QuadGraph::NamedNode(x) => x.as_term(),
            QuadGraph::BlankNode(x) => x.as_term(),
            QuadGraph::Variable(x) => x.as_term(),
        }
    }

    fn to_term(&self) -> (r: Term)
        ensures
            r@ == self@,
    {
        match self {
            QuadGraph::DefaultGraph(x) => x.to_term(),
            QuadGraph::NamedNode(x) => x.to_term(),
            QuadGraph::BlankNode(x) => x.to_term(),
            QuadGraph::Variable(x) => x.to_term(),
        }
    }
}

} // verus!
