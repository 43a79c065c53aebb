use vstd::prelude::*;

use crate::model::TermModel;
use crate::term::Term;
use crate::term_like::TermLike;

verus! {

/// An RDF query variable: a pattern term named by a variable name.
///
/// Two variables are equal exactly when their name strings are equal; the
/// abstract value of a variable is its name string alone.
#[derive(Debug)]
pub struct Variable {
    value: String,
}

impl View for Variable {
    type V = Seq<char>;

    closed spec fn view(&self) -> Seq<char> {
        self.value@
    }
}

impl Variable {
    /// Constructs a variable holding the given variable name.
    pub fn new(value: &str) -> (r: Self)
        ensures
            r@ == value@,
    {
        Variable { value: value.to_owned() }
    }
}

impl Clone for Variable {
    fn clone(&self) -> (r: Self)
        ensures
            r == *self,
    {
        Variable { value: self.value.clone() }
    }
}

impl PartialEq for Variable {
    fn eq(&self, other: &Self) -> (r: bool) {
        self.value == other.value
    }

    fn ne(&self, other: &Self) -> (r: bool) {
        !(self.value == other.value)
    }
}

impl vstd::std_specs::cmp::PartialEqSpecImpl for Variable {
    open spec fn obeys_eq_spec() -> bool {
        true
    }

    open spec fn eq_spec(&self, other: &Variable) -> bool {
        self@ == other@
    }
}

impl Variable {
    /// Whether the given term is a variable with the same name.
    pub fn equals(&self, other: &Term) -> (r: bool)
        ensures
            r == ((*other)@ == TermModel::Variable(self@)),
    {
        match other {
            Term::Variable(t) => self == t,
            _ => false,
        }
    }
}

impl PartialEq<Term> for Variable {
    fn eq(&self, other: &Term) -> (r: bool) {
        self.equals(other)
    }

    fn ne(&self, other: &Term) -> (r: bool) {
        !self.equals(other)
    }
}

impl vstd::std_specs::cmp::PartialEqSpecImpl<Term> for Variable {
    open spec fn obeys_eq_spec() -> bool {
        true
    }

    open spec fn eq_spec(&self, other: &Term) -> bool {
        (*other)@ == TermModel::Variable((*self)@)
    }
}

impl PartialEq<Variable> for Term {
    fn eq(&self, other: &Variable) -> (r: bool) {
        other.equals(self)
    }

    fn ne(&self, other: &Variable) -> (r: bool) {
        !other.equals(self)
    }
}

impl vstd::std_specs::cmp::PartialEqSpecImpl<Variable> for Term {
    open spec fn obeys_eq_spec() -> bool {
        true
    }

    open spec fn eq_spec(&self, other: &Variable) -> bool {
        (*self)@ == TermModel::Variable((*other)@)
    }
}

impl TermLike for Variable {
    fn value(&self) -> (r: &str)
        ensures
            r@ == self@,
    {
        self.value.as_str()
    }

    fn as_term(self) -> (r: Term)
        ensures
            r@ == TermModel::Variable(self@),
    {
        Term::Variable(self)
    }

    fn to_term(&self) -> (r: Term)
        ensures
            r@ == TermModel::Variable(self@),
    {
        Term::Variable(self.clone())
    }
}

} // verus!
