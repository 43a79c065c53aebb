use vstd::prelude::*;

use crate::error::TermError;
use crate::model::TermModel;
use crate::model::predicate_model_of;
use crate::named_node::NamedNode;
use crate::term::Term;
use crate::term_like::TermLike;
use crate::variable::Variable;

verus! {

/// The terms admissible in a quad's predicate slot: a named node or a
/// variable.
#[derive(Debug)]
pub enum QuadPredicate {
    NamedNode(NamedNode),
    Variable(Variable),
}

impl View for QuadPredicate {
    type V = TermModel;

    open spec fn view(&self) -> TermModel {
        predicate_model_of(*self)
    }
}

impl QuadPredicate {
    /// Narrows a term to the predicate slot, cloning it; a term of a kind the
    /// slot does not admit is rejected.
    pub fn from_term(t: &Term) -> (r: Result<QuadPredicate, TermError>)
        ensures
            r is Ok <==> crate::model::predicate_kind_ok(crate::model::kind_of((*t)@)),
            r matches Ok(s) ==> s@ == (*t)@,
            r matches Err(e) ==> e == TermError::InvalidQuadSlotKind,
    {
        match t {
            Term::NamedNode(x) => Ok(QuadPredicate::NamedNode(x.clone())),
            Term::Variable(x) => Ok(QuadPredicate::Variable(x.clone())),
            _ => Err(TermError::InvalidQuadSlotKind),
        }
    }

    /// Whether the two predicate terms have the same abstract value.
    pub fn equals(&self, other: &QuadPredicate) -> (r: bool)
        ensures
            r == (self@ == other@),
    {
        match (self, other) {
            (QuadPredicate::NamedNode(a), QuadPredicate::NamedNode(b)) => a == b,
            (QuadPredicate::Variable(a), QuadPredicate::Variable(b)) => a == b,
            _ => false,
        }
    }

    /// Whether the given term has the same abstract value as this predicate.
    fn equals_term(&self, other: &Term) -> (r: bool)
        ensures
            r == (self@ == (*other)@),
    {
        match self {
            QuadPredicate::NamedNode(x) => x.equals(other),
            QuadPredicate::Variable(x) => x.equals(other),
        }
    }
}

impl Clone for QuadPredicate {
    fn clone(&self) -> (r: Self)
        ensures
            r == *self,
    {
        match self {
            QuadPredicate::NamedNode(a) => QuadPredicate::NamedNode(a.clone()),
            QuadPredicate::Variable(a) => QuadPredicate::Variable(a.clone()),
        }
    }
}

impl PartialEq for QuadPredicate {
    fn eq(&self, other: &Self) -> (r: bool) {
        self.equals(other)
    }

    fn ne(&self, other: &Self) -> (r: bool) {
        !self.equals(other)
    }
}

impl vstd::std_specs::cmp::PartialEqSpecImpl for QuadPredicate {
    open spec fn obeys_eq_spec() -> bool {
        true
    }

    open spec fn eq_spec(&self, other: &QuadPredicate) -> bool {
        self@ == other@
    }
}

impl PartialEq<Term> for QuadPredicate {
    fn eq(&self, other: &Term) -> (r: bool) {
        self.equals_term(other)
    }

    fn ne(&self, other: &Term) -> (r: bool) {
        !self.equals_term(other)
    }
}

impl vstd::std_specs::cmp::PartialEqSpecImpl<Term> for QuadPredicate {
    open spec fn obeys_eq_spec() -> bool {
        true
    }

    open spec fn eq_spec(&self, other: &Term) -> bool {
        (*self)@ == (*other)@
    }
}

impl PartialEq<QuadPredicate> for Term {
    fn eq(&self, other: &QuadPredicate) -> (r: bool) {
        other.equals_term(self)
    }

    fn ne(&self, other: &QuadPredicate) -> (r: bool) {
        !other.equals_term(self)
    }
}

impl vstd::std_specs::cmp::PartialEqSpecImpl<QuadPredicate> for Term {
    open spec fn obeys_eq_spec() -> bool {
        true
    }

    open spec fn eq_spec(&self, other: &QuadPredicate) -> bool {
        (*self)@ == (*other)@
    }
}

impl TermLike for QuadPredicate {
    fn value(&self) -> (r: &str)
        ensures
            r@ == crate::model::term_spec_value(self@),
    {
        match self {
            QuadPredicate::NamedNode(x) => x.value(),
            QuadPredicate::Variable(x) => x.value(),
        }
    }

    fn as_term(self) -> (r: Term)
        ensures
            r@ == self@,
    {
        match self {
            QuadPredicate::NamedNode(x) => x.as_term(),
            QuadPredicate::Variable(x) => x.as_term(),
        }
    }

    fn to_term(&self) -> (r: Term)
        ensures
            r@ == self@,
    {
        match self {
            QuadPredicate::NamedNode(x) => x.to_term(),
            QuadPredicate::Variable(x) => x.to_term(),
        }
    }
}

} // verus!
