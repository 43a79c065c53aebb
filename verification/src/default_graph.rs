use vstd::prelude::*;

use crate::model::TermModel;
use crate::term::Term;
use crate::term_like::TermLike;

verus! {

/// The default graph: a marker term that carries no distinguishing data.
///
/// Any two default-graph values are equal, however they were constructed; the
/// abstract value of a default graph is the empty string.
#[derive(Debug)]
pub struct DefaultGraph {}

impl View for DefaultGraph {
    type V = ();

    open spec fn view(&self) -> () {
        ()
    }
}

impl DefaultGraph {
    /// Constructs the default-graph marker.
    pub fn new() -> (r: Self)
        ensures
            r == (DefaultGraph {}),
    {
        DefaultGraph {}
    }
}

impl Clone for DefaultGraph {
    fn clone(&self) -> (r: Self)
        ensures
            r == *self,
    {
        DefaultGraph {}
    }
}

impl PartialEq for DefaultGraph {
    fn eq(&self, _other: &Self) -> (r: bool) {
        true
    }

    fn ne(&self, _other: &Self) -> (r: bool) {
        false
    }
}

impl vstd::std_specs::cmp::PartialEqSpecImpl for DefaultGraph {
    open spec fn obeys_eq_spec() -> bool {
        true
    }

    open spec fn eq_spec(&self, other: &DefaultGraph) -> bool {
        true
    }
}

impl DefaultGraph {
    /// Whether the given term is the default graph.
    pub fn equals(&self, other: &Term) -> (r: bool)
        ensures
            r == ((*other)@ == TermModel::DefaultGraph),
    {
        match other {
            Term::DefaultGraph(_) => true,
            _ => false,
        }
    }
}

impl PartialEq<Term> for DefaultGraph {
    fn eq(&self, other: &Term) -> (r: bool) {
        self.equals(other)
    }

    fn ne(&self, other: &Term) -> (r: bool) {
        !self.equals(other)
    }
}

impl vstd::std_specs::cmp::PartialEqSpecImpl<Term> for DefaultGraph {
    open spec fn obeys_eq_spec() -> bool {
        true
    }

    open spec fn eq_spec(&self, other: &Term) -> bool {
        (*other)@ == TermModel::DefaultGraph
    }
}

impl PartialEq<DefaultGraph> for Term {
    fn eq(&self, other: &DefaultGraph) -> (r: bool) {
        other.equals(self)
    }

    fn ne(&self, other: &DefaultGraph) -> (r: bool) {
        !other.equals(self)
    }
}

impl vstd::std_specs::cmp::PartialEqSpecImpl<DefaultGraph> for Term {
    open spec fn obeys_eq_spec() -> bool {
        true
    }

    open spec fn eq_spec(&self, other: &DefaultGraph) -> bool {
        (*self)@ == TermModel::DefaultGraph
    }
}

impl TermLike for DefaultGraph {
    fn value(&self) -> (r: &str)
        ensures
            r@ == Seq::<char>::empty(),
    {
        proof {
            reveal_strlit("");
            assert(""@ =~= Seq::<char>::empty());
        }
        ""
    }

    fn as_term(self) -> (r: Term)
        ensures
            r@ == TermModel::DefaultGraph,
    {
        Term::DefaultGraph(self)
    }

    fn to_term(&self) -> (r: Term)
        ensures
            r@ == TermModel::DefaultGraph,
    {
        Term::DefaultGraph(self.clone())
    }
}

} // verus!
