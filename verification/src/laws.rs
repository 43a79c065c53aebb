use vstd::prelude::*;

use crate::default_graph::DefaultGraph;
use crate::model::TermModel;
use crate::model::kind_of;
use crate::model::quad_model_wf;
use crate::quad::Quad;
use crate::quad_subject::QuadSubject;
use crate::term::Term;

verus! {

/// Term equality is an equivalence relation: reflexive, symmetric and
/// transitive. `Term::equals` returns exactly equality of abstract values,
/// so the relation it decides has all three properties, independent of how
/// the terms were constructed.
pub proof fn lemma_term_equality_equivalence(a: &Term, b: &Term, c: &Term)
    ensures
        a@ == a@,
        (a@ == b@) == (b@ == a@),
        a@ == b@ && b@ == c@ ==> a@ == c@,
{
}

/// Kind discrimination: terms of different kinds are never equal, even when
/// their value strings coincide.
pub proof fn lemma_kind_discrimination(a: &Term, b: &Term)
    ensures
        kind_of(a@) != kind_of(b@) ==> a@ != b@,
{
}

/// Default-graph universality: any two default-graph values are equal,
/// regardless of how they were constructed, and so are the terms they
/// convert to.
pub proof fn lemma_default_graph_universal(a: &DefaultGraph, b: &DefaultGraph)
    ensures
        a == b,
        Term::DefaultGraph(*a)@ == Term::DefaultGraph(*b)@,
{
}

/// Quad equality goes by the four slots: two quads are equal exactly when
/// the abstract values of their subjects, predicates, objects and graphs
/// agree pairwise.
pub proof fn lemma_quad_equals_by_slots(a: &Quad, b: &Quad)
    ensures
        (a@ == b@) <==> (a.subject@ == b.subject@ && a.predicate@ == b.predicate@ && a.object@
            == b.object@ && a.graph@ == b.graph@),
{
}

/// Quoted-quad equality is structural: two quoted quads are equal as terms
/// exactly when the quads themselves are equal, so equality descends through
/// nesting of unbounded depth, and a change to any leaf value inside a
/// nested quad makes the enclosing quads unequal.
pub proof fn lemma_quoted_quad_equals(a: &Quad, b: &Quad)
    ensures
        ((TermModel::Quad(Box::new(a@))) == (TermModel::Quad(Box::new(b@)))) <==> (a@ == b@),
        ((QuadSubject::Quad(Box::new(*a)))@ == (QuadSubject::Quad(Box::new(*b)))@) <==> (a@
            == b@),
{
}

/// Slot enforcement, as an invariant: every representable quad is
/// well-formed — each slot holds a term of a kind admissible in that slot,
/// recursively through quoted quads — so nothing downstream ever needs to
/// re-check slot kinds.
pub proof fn lemma_quad_well_formed(q: &Quad)
    ensures
        quad_model_wf(q@),
    decreases *q,
{
    match &q.subject {
        QuadSubject::Quad(inner) => {
            lemma_quad_well_formed(&**inner);
        },
        _ => {},
    }
}

} // verus!
