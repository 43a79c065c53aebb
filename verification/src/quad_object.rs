use vstd::prelude::*;

use crate::blank_node::BlankNode;
use crate::error::TermError;
use crate::literal::Literal;
use crate::model::TermModel;
use crate::model::object_model_of;
use crate::named_node::NamedNode;
use crate::term::Term;
use crate::term_like::TermLike;
use crate::variable::Variable;

verus! {

/// The terms admissible in a quad's object slot: a named node, a literal,
/// a blank node, or a variable.
#[derive(Debug)]
pub enum QuadObject {
    NamedNode(NamedNode),
    Literal(Literal),
    BlankNode(BlankNode),
    Variable(Variable),
}

impl View for QuadObject {
    type V = TermModel;

    open spec fn view(&self) -> TermModel {
        object_model_of(*self)
    }
}

impl QuadObject {
    /// Narrows a term to the object slot, cloning it; a term of a kind the
    /// slot does not admit is rejected.
    pub fn from_term(t: &Term) -> (r: Result<QuadObject, TermError>)
        ensures
            r is Ok <==> crate::model::object_kind_ok(crate::model::kind_of((*t)@)),
            r matches Ok(s) ==> s@ == (*t)@,
            r matches Err(e) ==> e == TermError::InvalidQuadSlotKind,
    {
        match t {
            Term::NamedNode(x) => Ok(QuadObject::NamedNode(x.clone())),
            Term::Literal(x) => Ok(QuadObject::Literal(x.clone())),
            Term::BlankNode(x) => Ok(QuadObject::BlankNode(x.clone())),
            Term::Variable(x) => Ok(QuadObject::Variable(x.clone())),
            _ => Err(TermError::InvalidQuadSlotKind),
        }
    }

    /// Whether the two object terms have the same abstract value.
    pub fn equals(&self, other: &QuadObject) -> (r: bool)
        ensures
            r == (self@ == other@),
    {
        match (self, other) {
            (QuadObject::NamedNode(a), QuadObject::NamedNode(b)) => a == b,
            (QuadObject::Literal(a), QuadObject::Literal(b)) => a == b,
            (QuadObject::BlankNode(a), QuadObject::BlankNode(b)) => a == b,
            (QuadObject::Variable(a), QuadObject::Variable(b)) => a == b,
            _ => false,
        }
    }

    /// Whether the given term has the same abstract value as this object.
    fn equals_term(&self, other: &Term) -> (r: bool)
        ensures
            r == (self@ == (*other)@),
    {
        match self {
            QuadObject::NamedNode(x) => x.equals(other),
            QuadObject::Literal(x) => x.equals(other),
            QuadObject::BlankNode(x) => x.equals(other),
            QuadObject::Variable(x) => x.equals(other),
        }
    }
}

impl Clone for QuadObject {
    fn clone(&self) -> (r: Self)
        ensures
            r == *self,
    {
        match self {
            QuadObject::NamedNode(a) => QuadObject::NamedNode(a.clone()),
            QuadObject::Literal(a) => QuadObject::Literal(a.clone()),
            QuadObject::BlankNode(a) => QuadObject::BlankNode(a.clone()),
            QuadObject::Variable(a) => QuadObject::Variable(a.clone()),
        }
    }
}

impl PartialEq for QuadObject {
    fn eq(&self, other: &Self) -> (r: bool) {
        self.equals(other)
    }

    fn ne(&self, other: &Self) -> (r: bool) {
        !self.equals(other)
    }
}

impl vstd::std_specs::cmp::PartialEqSpecImpl for QuadObject {
    open spec fn obeys_eq_spec() -> bool {
        true
    }

    open spec fn eq_spec(&self, other: &QuadObject) -> bool {
        self@ == other@
    }
}

impl PartialEq<Term> for QuadObject {
    fn eq(&self, other: &Term) -> (r: bool) {
        self.equals_term(other)
    }

    fn ne(&self, other: &Term) -> (r: bool) {
        !self.equals_term(other)
    }
}

impl vstd::std_specs::cmp::PartialEqSpecImpl<Term> for QuadObject {
    open spec fn obeys_eq_spec() -> bool {
        true
    }

    open spec fn eq_spec(&self, other: &Term) -> bool {
        (*self)@ == (*other)@
    }
}

impl PartialEq<QuadObject> for Term {
    fn eq(&self, other: &QuadObject) -> (r: bool) {
        other.equals_term(self)
    }

    fn ne(&self, other: &QuadObject) -> (r: bool) {
        !other.equals_term(self)
    }
}

impl vstd::std_specs::cmp::PartialEqSpecImpl<QuadObject> for Term {
    open spec fn obeys_eq_spec() -> bool {
        true
    }

    open spec fn eq_spec(&self, other: &QuadObject) -> bool {
        (*self)@ == (*other)@
    }
}

impl TermLike for QuadObject {
    fn value(&self) -> (r: &str)
        ensures
            r@ == crate::model::term_spec_value(self@),
    {
        match self {
            QuadObject::NamedNode(x) => x.value(),
            QuadObject::Literal(x) => x.value(),
            QuadObject::BlankNode(x) => x.value(),
            QuadObject::Variable(x) => x.value(),
        }
    }

    fn as_term(self) -> (r: Term)
        ensures
            r@ == self@,
    {
        match self {
            QuadObject::NamedNode(x) => x.as_term(),
            QuadObject::Literal(x) => x.as_term(),
            QuadObject::BlankNode(x) => x.as_term(),
            QuadObject::Variable(x) => x.as_term(),
        }
    }

    fn to_term(&self) -> (r: Term)
        ensures
            r@ == self@,
    {
        match self {
            QuadObject::NamedNode(x) => x.to_term(),
            QuadObject::Literal(x) => x.to_term(),
            QuadObject::BlankNode(x) => x.to_term(),
            QuadObject::Variable(x) => x.to_term(),
        }
    }
}

} // verus!
