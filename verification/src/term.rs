use vstd::prelude::*;

use crate::blank_node::BlankNode;
use crate::default_graph::DefaultGraph;
use crate::literal::Literal;
use crate::model::TermModel;
use crate::model::term_model_of;
use crate::named_node::NamedNode;
use crate::quad::Quad;
use crate::term_like::TermLike;
use crate::variable::Variable;

verus! {

/// The closed union of the term family: the five ground kinds plus a quoted
/// quad, so that a quad can appear as a term (the subject or object of
/// another quad). Exactly one case is active per value.
#[derive(Debug)]
pub enum Term {
    NamedNode(NamedNode),
    BlankNode(BlankNode),
    Literal(Literal),
    Variable(Variable),
    DefaultGraph(DefaultGraph),
    Quad(Box<Quad>),
}

impl View for Term {
    type V = TermModel;

    open spec fn view(&self) -> TermModel {
        term_model_of(*self)
    }
}

impl Term {
    /// Whether the two terms have the same abstract value: same kind, and
    /// equal contents within that kind, recursively for quoted quads.
    pub fn equals(&self, other: &Term) -> (r: bool)
        ensures
            r == (self@ == other@),
        decreases *self, 0int,
    {
        match (self, other) {
            (Term::NamedNode(a), Term::NamedNode(b)) => a == b,
            (Term::BlankNode(a), Term::BlankNode(b)) => a == b,
            (Term::Literal(a), Term::Literal(b)) => a == b,
            (Term::Variable(a), Term::Variable(b)) => a == b,
            (Term::DefaultGraph(_), Term::DefaultGraph(_)) => true,
            (Term::Quad(a), Term::Quad(b)) => (&**a).equals(&**b),
            _ => false,
        }
    }
}

impl Clone for Term {
    fn clone(&self) -> (r: Self)
        ensures
            r == *self,
        decreases *self,
    {
        match self {
            Term::NamedNode(a) => Term::NamedNode(a.clone()),
            Term::BlankNode(a) => Term::BlankNode(a.clone()),
            Term::Literal(a) => Term::Literal(a.clone()),
            Term::Variable(a) => Term::Variable(a.clone()),
            Term::DefaultGraph(a) => Term::DefaultGraph(a.clone()),
            Term::Quad(a) => Term::Quad(Box::new((&**a).clone())),
        }
    }
}

impl PartialEq for Term {
    fn eq(&self, other: &Self) -> (r: bool) {
        self.equals(other)
    }

    fn ne(&self, other: &Self) -> (r: bool) {
        !self.equals(other)
    }
}

impl vstd::std_specs::cmp::PartialEqSpecImpl for Term {
    open spec fn obeys_eq_spec() -> bool {
        true
    }

    open spec fn eq_spec(&self, other: &Term) -> bool {
        self@ == other@
    }
}

impl TermLike for Term {
    fn value(&self) -> (r: &str)
        ensures
            r@ == crate::model::term_spec_value(self@),
    {
        match self {
            Term::NamedNode(nn) => nn.value(),
            Term::BlankNode(bn) => bn.value(),
            Term::Literal(l) => l.value(),
            Term::Variable(v) => v.value(),
            Term::DefaultGraph(dg) => dg.value(),
            Term::Quad(q) => (&**q).value(),
        }
    }

    fn as_term(self) -> (r: Term)
        ensures
            r@ == self@,
    {
        self
    }

    fn to_term(&self) -> (r: Term)
        ensures
            r@ == self@,
    {
        self.clone()
    }
}

} // verus!
