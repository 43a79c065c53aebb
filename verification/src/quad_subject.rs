use vstd::prelude::*;

use crate::blank_node::BlankNode;
use crate::error::TermError;
use crate::model::TermModel;
use crate::model::subject_model_of;
use crate::named_node::NamedNode;
use crate::quad::Quad;
use crate::term::Term;
use crate::term_like::TermLike;
use crate::variable::Variable;

verus! {

/// The terms admissible in a quad's subject slot: a named node, a blank
/// node, a variable, or a quoted quad. A literal or the default graph in
/// subject position is unrepresentable.
#[derive(Debug)]
pub enum QuadSubject {
    NamedNode(NamedNode),
    BlankNode(BlankNode),
    Variable(Variable),
    Quad(Box<Quad>),
}

impl View for QuadSubject {
    type V = TermModel;

    open spec fn view(&self) -> TermModel {
        subject_model_of(*self)
    }
}

impl QuadSubject {
    /// Narrows a term to the subject slot, cloning it; a term of a kind the
    /// slot does not admit is rejected.
    pub fn from_term(t: &Term) -> (r: Result<QuadSubject, TermError>)
        ensures
            r is Ok <==> crate::model::subject_kind_ok(crate::model::kind_of((*t)@)),
            r matches Ok(s) ==> s@ == (*t)@,
            r matches Err(e) ==> e == TermError::InvalidQuadSlotKind,
    {
        match t {
            Term::NamedNode(nn) => Ok(QuadSubject::NamedNode(nn.clone())),
            Term::BlankNode(bn) => Ok(QuadSubject::BlankNode(bn.clone())),
            Term::Variable(v) => Ok(QuadSubject::Variable(v.clone())),
            Term::Quad(q) => Ok(QuadSubject::Quad(Box::new((&**q).clone()))),
            _ => Err(TermError::InvalidQuadSlotKind),
        }
    }

    /// Whether the two subject terms have the same abstract value.
    pub fn equals(&self, other: &QuadSubject) -> (r: bool)
        ensures
            r == (self@ == other@),
        decreases *self, 0int,
    {
        match (self, other) {
            (QuadSubject::NamedNode(a), QuadSubject::NamedNode(b)) => a == b,
            (QuadSubject::BlankNode(a), QuadSubject::BlankNode(b)) => a == b,
            (QuadSubject::Variable(a), QuadSubject::Variable(b)) => a == b,
            (QuadSubject::Quad(a), QuadSubject::Quad(b)) => (&**a).equals(&**b),
            _ => false,
        }
    }

    /// Whether the given term has the same abstract value as this subject.
    fn equals_term(&self, other: &Term) -> (r: bool)
        ensures
            r == (self@ == (*other)@),
        decreases *self, 1int,
    {
        match self {
            QuadSubject::NamedNode(nn) => nn.equals(other),
            QuadSubject::BlankNode(bn) => bn.equals(other),
            QuadSubject::Variable(v) => v.equals(other),
            QuadSubject::Quad(q) => (&**q).equals_term(other),
        }
    }
}

impl Clone for QuadSubject {
    fn clone(&self) -> (r: Self)
        ensures
            r == *self,
        decreases *self,
    {
        match self {
            QuadSubject::NamedNode(a) => QuadSubject::NamedNode(a.clone()),
            QuadSubject::BlankNode(a) => QuadSubject::BlankNode(a.clone()),
            QuadSubject::Variable(a) => QuadSubject::Variable(a.clone()),
            QuadSubject::Quad(a) => QuadSubject::Quad(Box::new((&**a).clone())),
        }
    }
}

impl PartialEq for QuadSubject {
    fn eq(&self, other: &Self) -> (r: bool) {
        self.equals(other)
    }

    fn ne(&self, other: &Self) -> (r: bool) {
        !self.equals(other)
    }
}

impl vstd::std_specs::cmp::PartialEqSpecImpl for QuadSubject {
    open spec fn obeys_eq_spec() -> bool {
        true
    }

    open spec fn eq_spec(&self, other: &QuadSubject) -> bool {
        self@ == other@
    }
}

impl PartialEq<Term> for QuadSubject {
    fn eq(&self, other: &Term) -> (r: bool) {
        self.equals_term(other)
    }

    fn ne(&self, other: &Term) -> (r: bool) {
        !self.equals_term(other)
    }
}

impl vstd::std_specs::cmp::PartialEqSpecImpl<Term> for QuadSubject {
    open spec fn obeys_eq_spec() -> bool {
        true
    }

    open spec fn eq_spec(&self, other: &Term) -> bool {
        (*self)@ == (*other)@
    }
}

impl PartialEq<QuadSubject> for Term {
    fn eq(&self, other: &QuadSubject) -> (r: bool) {
        other.equals_term(self)
    }

    fn ne(&self, other: &QuadSubject) -> (r: bool) {
        !other.equals_term(self)
    }
}

impl vstd::std_specs::cmp::PartialEqSpecImpl<QuadSubject> for Term {
    open spec fn obeys_eq_spec() -> bool {
        true
    }

    open spec fn eq_spec(&self, other: &QuadSubject) -> bool {
        (*self)@ == (*other)@
    }
}

impl TermLike for QuadSubject {
    fn value(&self) -> (r: &str)
        ensures
            r@ == crate::model::term_spec_value(self@),
    {
        match self {
            QuadSubject::NamedNode(x) => x.value(),
            QuadSubject::BlankNode(x) => x.value(),
            QuadSubject::Variable(x) => x.value(),
            QuadSubject::Quad(x) => x.value(),
        }
    }

    fn as_term(self) -> (r: Term)
        ensures
            r@ == self@,
    {
        match self {
            QuadSubject::NamedNode(x) => x.as_term(),
            QuadSubject::BlankNode(x) => x.as_term(),
            QuadSubject::Variable(x) => x.as_term(),
            QuadSubject::Quad(q) => Term::Quad(q),
        }
    }

    fn to_term(&self) -> (r: Term)
        ensures
            r@ == self@,
    {
        match self {
            QuadSubject::NamedNode(x) => x.to_term(),
            QuadSubject::BlankNode(x) => x.to_term(),
            QuadSubject::Variable(x) => x.to_term(),
            QuadSubject::Quad(q) => (&**q).to_term(),
        }
    }
}

} // verus!
