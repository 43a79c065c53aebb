use vstd::prelude::*;

use crate::default_graph::DefaultGraph;
use crate::model::QuadModel;
use crate::model::TermModel;
use crate::model::quad_model_of;
use crate::quad_graph::QuadGraph;
use crate::quad_object::QuadObject;
use crate::quad_predicate::QuadPredicate;
use crate::quad_subject::QuadSubject;
use crate::term::Term;
use crate::term_like::TermLike;

verus! {

/// An RDF quad: a subject, predicate, object and graph, each typed to its
/// own slot-restricted union rather than to the general term union. A quad
/// with a term of an inadmissible kind in some slot is unrepresentable, so
/// everything downstream can assume well-formed quads unconditionally.
#[derive(Debug)]
pub struct Quad {
    pub subject: QuadSubject,
    pub predicate: QuadPredicate,
    pub object: QuadObject,
    pub graph: QuadGraph,
}

impl View for Quad {
    type V = QuadModel;

    open spec fn view(&self) -> QuadModel {
        quad_model_of(*self)
    }
}

impl Quad {
    /// Constructs a quad from the four slot values; the graph slot defaults
    /// to the default graph when omitted.
    pub fn new(
        subject: &QuadSubject,
        predicate: &QuadPredicate,
        object: &QuadObject,
        graph: Option<&QuadGraph>,
    ) -> (r: Quad)
        ensures
            r.subject == *subject,
            r.predicate == *predicate,
            r.object == *object,
            match graph {
                Some(g) => r.graph == *g,
                None => r.graph == QuadGraph::DefaultGraph(DefaultGraph {  }),
            },
            graph is None ==> r@.graph == TermModel::DefaultGraph,
    {
        Quad {
            subject: subject.clone(),
            predicate: predicate.clone(),
            object: object.clone(),
            graph: match graph {
                Some(g) => g.clone(),
                None => QuadGraph::DefaultGraph(DefaultGraph::new()),
            },
        }
    }

    /// Whether the two quads have the same abstract value: all four slots
    /// pairwise equal, recursively for quoted quads.
    pub fn equals(&self, other: &Quad) -> (r: bool)
        ensures
            r == (self@ == other@),
        decreases *self, 0int,
    {
        self.subject.equals(&other.subject) && self.predicate.equals(&other.predicate)
            && self.object.equals(&other.object) && self.graph.equals(&other.graph)
    }

    /// Whether the given term is a quoted quad with the same abstract value
    /// as this quad.
    pub(crate) fn equals_term(&self, other: &Term) -> (r: bool)
        ensures
            r == ((TermModel::Quad(Box::new(self@))) == other@),
        decreases *self, 1int,
    {
        match other {
            Term::Quad(q) => self.equals(&**q),
            _ => false,
        }
    }
}

impl Clone for Quad {
    fn clone(&self) -> (r: Self)
        ensures
            r == *self,
        decreases *self,
    {
        Quad {
            subject: self.subject.clone(),
            predicate: self.predicate.clone(),
            object: self.object.clone(),
            graph: self.graph.clone(),
        }
    }
}

impl PartialEq for Quad {
    fn eq(&self, other: &Self) -> (r: bool) {
        self.equals(other)
    }

    fn ne(&self, other: &Self) -> (r: bool) {
        !self.equals(other)
    }
}

impl vstd::std_specs::cmp::PartialEqSpecImpl for Quad {
    open spec fn obeys_eq_spec() -> bool {
        true
    }

    open spec fn eq_spec(&self, other: &Quad) -> bool {
        self@ == other@
    }
}

impl PartialEq<Term> for Quad {
    fn eq(&self, other: &Term) -> (r: bool) {
        self.equals_term(other)
    }

    fn ne(&self, other: &Term) -> (r: bool) {
        !self.equals_term(other)
    }
}

impl vstd::std_specs::cmp::PartialEqSpecImpl<Term> for Quad {
    open spec fn obeys_eq_spec() -> bool {
        true
    }

    open spec fn eq_spec(&self, other: &Term) -> bool {
        (TermModel::Quad(Box::new(self@))) == other@
    }
}

impl PartialEq<Quad> for Term {
    fn eq(&self, other: &Quad) -> (r: bool) {
        other.equals_term(self)
    }

    fn ne(&self, other: &Quad) -> (r: bool) {
        !other.equals_term(self)
    }
}

impl vstd::std_specs::cmp::PartialEqSpecImpl<Quad> for Term {
    open spec fn obeys_eq_spec() -> bool {
        true
    }

    open spec fn eq_spec(&self, other: &Quad) -> bool {
        self@ == (TermModel::Quad(Box::new(other@)))
    }
}

impl TermLike for Quad {
    fn value(&self) -> (r: &str)
        ensures
            r@ == Seq::<char>::empty(),
    {
        proof {
            reveal_strlit("");
            assert(""@ =~= Seq::<char>::empty());
        }
        ""
    }

    fn as_term(self) -> (r: Term)
        ensures
            r@ == (TermModel::Quad(Box::new(self@))),
    {
        Term::Quad(Box::new(self))
    }

    fn to_term(&self) -> (r: Term)
        ensures
            r@ == (TermModel::Quad(Box::new(self@))),
    {
        Term::Quad(Box::new(self.clone()))
    }
}

} // verus!
