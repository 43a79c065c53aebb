use rdf_model::blank_node::BlankNode;
use rdf_model::data_factory::{DataFactory, DirectionalLanguage, LanguageOrDatatype};
use rdf_model::default_graph::DefaultGraph;
use rdf_model::error::TermError;
use rdf_model::literal::{LanguageDirection, Literal};
use rdf_model::named_node::NamedNode;
use rdf_model::quad::Quad;
use rdf_model::quad_graph::QuadGraph;
use rdf_model::quad_object::QuadObject;
use rdf_model::quad_predicate::QuadPredicate;
use rdf_model::quad_subject::QuadSubject;
use rdf_model::term::Term;
use rdf_model::term_like::TermLike;
use rdf_model::variable::Variable;

const XSD_STRING: &str = "http://www.w3.org/2001/XMLSchema#string";
const RDF_LANG_STRING: &str = "http://www.w3.org/1999/02/22-rdf-syntax-ns#langString";
const RDF_DIR_LANG_STRING: &str = "http://www.w3.org/1999/02/22-rdf-syntax-ns#dirLangString";

fn sample_quad(s: &str, p: &str, o: &str) -> Quad {
    Quad::new(
        &QuadSubject::NamedNode(NamedNode::new(s)),
        &QuadPredicate::NamedNode(NamedNode::new(p)),
        &QuadObject::NamedNode(NamedNode::new(o)),
        None,
    )
}

#[test]
fn equality_reflexive_and_symmetric() {
    let terms = vec![
        Term::NamedNode(NamedNode::new("foo")),
        Term::BlankNode(BlankNode::new("foo")),
        Term::Literal(Literal::new("foo", None, None, None).unwrap()),
        Term::Variable(Variable::new("foo")),
        Term::DefaultGraph(DefaultGraph::new()),
        Term::Quad(Box::new(sample_quad("foo", "foo", "foo"))),
    ];
    for a in &terms {
        assert!(a.equals(a));
        for b in &terms {
            assert_eq!(a.equals(b), b.equals(a));
        }
    }
}

#[test]
fn kind_discrimination_with_identical_values() {
    let terms = vec![
        Term::NamedNode(NamedNode::new("foo")),
        Term::BlankNode(BlankNode::new("foo")),
        Term::Literal(Literal::new("foo", None, None, None).unwrap()),
        Term::Variable(Variable::new("foo")),
        Term::DefaultGraph(DefaultGraph::new()),
        Term::Quad(Box::new(sample_quad("foo", "foo", "foo"))),
    ];
    for (i, a) in terms.iter().enumerate() {
        for (j, b) in terms.iter().enumerate() {
            if i != j {
                assert!(!a.equals(b));
            }
        }
    }
}

#[test]
fn blank_node_label_equality() {
    let a = BlankNode::new("b0");
    let b = BlankNode::new("b0");
    let c = BlankNode::new("b1");
    assert_eq!(a, b);
    assert_ne!(a, c);
}

#[test]
fn literal_datatype_defaults_to_string() {
    let l = Literal::new("x", None, None, None).unwrap();
    assert_eq!(l.datatype().value(), XSD_STRING);
    assert_eq!(l.language(), "");
    assert!(l.direction().is_none());
}

#[test]
fn literal_language_gives_lang_string() {
    let l = Literal::new("x", Some("en"), None, None).unwrap();
    assert_eq!(l.datatype().value(), RDF_LANG_STRING);
    assert_eq!(l.language(), "en");
    assert!(l.direction().is_none());
}

#[test]
fn literal_language_and_direction_gives_dir_lang_string() {
    let l = Literal::new("x", Some("en"), Some(&LanguageDirection::RightToLeft), None).unwrap();
    assert_eq!(l.datatype().value(), RDF_DIR_LANG_STRING);
    assert_eq!(l.language(), "en");
    assert_eq!(l.direction(), Some(&LanguageDirection::RightToLeft));
}

#[test]
fn literal_direction_without_language_fails() {
    let l = Literal::new("x", None, Some(&LanguageDirection::RightToLeft), None);
    assert_eq!(l.unwrap_err(), TermError::InvalidLiteralDirection);
}

#[test]
fn literal_explicit_datatype_used_verbatim() {
    let dt = NamedNode::new("http://www.w3.org/2001/XMLSchema#integer");
    let l = Literal::new("7", None, None, Some(&dt)).unwrap();
    assert_eq!(l.datatype(), &dt);
    // A language tag overrides an explicit datatype.
    let l = Literal::new("7", Some("en"), None, Some(&dt)).unwrap();
    assert_eq!(l.datatype().value(), RDF_LANG_STRING);
}

#[test]
fn default_graph_universality() {
    let a = DefaultGraph::new();
    let b = DataFactory::default_graph();
    assert_eq!(a, b);
    assert_eq!(a.value(), "");
}

#[test]
fn quad_slot_enforcement() {
    let literal_term = Term::Literal(Literal::new("x", None, None, None).unwrap());
    assert_eq!(
        QuadSubject::from_term(&literal_term).unwrap_err(),
        TermError::InvalidQuadSlotKind
    );
    assert_eq!(
        QuadPredicate::from_term(&literal_term).unwrap_err(),
        TermError::InvalidQuadSlotKind
    );
    assert!(QuadObject::from_term(&literal_term).is_ok());
    assert_eq!(
        QuadGraph::from_term(&literal_term).unwrap_err(),
        TermError::InvalidQuadSlotKind
    );

    let default_graph_term = Term::DefaultGraph(DefaultGraph::new());
    assert!(QuadSubject::from_term(&default_graph_term).is_err());
    assert!(QuadGraph::from_term(&default_graph_term).is_ok());

    // A quoted quad is a legal subject.
    let quoted = Term::Quad(Box::new(sample_quad("s", "p", "o")));
    let subject = QuadSubject::from_term(&quoted).unwrap();
    let q = Quad::new(
        &subject,
        &QuadPredicate::NamedNode(NamedNode::new("p2")),
        &QuadObject::NamedNode(NamedNode::new("o2")),
        None,
    );
    assert_eq!(q.subject, quoted);
    // But a quoted quad is no legal predicate, object or graph.
    assert!(QuadPredicate::from_term(&quoted).is_err());
    assert!(QuadObject::from_term(&quoted).is_err());
    assert!(QuadGraph::from_term(&quoted).is_err());
}

#[test]
fn recursive_quad_equality() {
    let inner_1 = sample_quad("s", "p", "o");
    let inner_2 = sample_quad("s", "p", "o");
    let outer_1 = Quad::new(
        &QuadSubject::Quad(Box::new(inner_1)),
        &QuadPredicate::NamedNode(NamedNode::new("says")),
        &QuadObject::NamedNode(NamedNode::new("x")),
        None,
    );
    let outer_2 = Quad::new(
        &QuadSubject::Quad(Box::new(inner_2)),
        &QuadPredicate::NamedNode(NamedNode::new("says")),
        &QuadObject::NamedNode(NamedNode::new("x")),
        None,
    );
    assert!(outer_1.equals(&outer_2));
    assert_eq!(outer_1, outer_2);

    // Changing one leaf value inside the nested quad breaks equality.
    let inner_3 = sample_quad("s", "p", "other");
    let outer_3 = Quad::new(
        &QuadSubject::Quad(Box::new(inner_3)),
        &QuadPredicate::NamedNode(NamedNode::new("says")),
        &QuadObject::NamedNode(NamedNode::new("x")),
        None,
    );
    assert!(!outer_1.equals(&outer_3));
    assert_ne!(outer_1, outer_3);
}

#[test]
fn blank_node_counter_monotonic() {
    let mut factory = DataFactory::new();
    let b1 = factory.blank_node(None);
    let b2 = factory.blank_node(None);
    let b3 = factory.blank_node(None);
    assert_eq!(b1.value(), "1");
    assert_eq!(b2.value(), "2");
    assert_eq!(b3.value(), "3");
    assert_ne!(b1, b2);
    assert_ne!(b2, b3);
    assert_ne!(b1, b3);

    // A fresh factory restarts at "1".
    let mut fresh = DataFactory::new();
    assert_eq!(fresh.blank_node(None).value(), "1");
}

#[test]
fn blank_node_explicit_label_leaves_counter_alone() {
    let mut factory = DataFactory::new();
    let named = factory.blank_node(Some("myself"));
    assert_eq!(named.value(), "myself");
    assert_eq!(factory.blank_node(None).value(), "1");
}

#[test]
fn blank_node_counter_reaches_two_digits() {
    let mut factory = DataFactory::new();
    let mut last = factory.blank_node(None);
    for _ in 0..11 {
        last = factory.blank_node(None);
    }
    assert_eq!(last.value(), "12");
}

#[test]
fn quad_graph_defaults_to_default_graph() {
    let q = sample_quad("s", "p", "o");
    assert_eq!(q.graph, QuadGraph::DefaultGraph(DefaultGraph::new()));
    let named_graph = QuadGraph::NamedNode(NamedNode::new("g"));
    let q2 = Quad::new(
        &QuadSubject::NamedNode(NamedNode::new("s")),
        &QuadPredicate::NamedNode(NamedNode::new("p")),
        &QuadObject::NamedNode(NamedNode::new("o")),
        Some(&named_graph),
    );
    assert_eq!(q2.graph, named_graph);
    assert_ne!(q, q2);
}

#[test]
fn factory_constructors_match_direct_ones() {
    let mut factory = DataFactory::new();
    assert_eq!(DataFactory::named_node("n"), NamedNode::new("n"));
    assert_eq!(factory.blank_node(Some("b")), BlankNode::new("b"));
    assert_eq!(DataFactory::variable("v"), Variable::new("v"));
    assert_eq!(DataFactory::default_graph(), DefaultGraph::new());
    let q = DataFactory::quad(
        &QuadSubject::NamedNode(NamedNode::new("s")),
        &QuadPredicate::NamedNode(NamedNode::new("p")),
        &QuadObject::NamedNode(NamedNode::new("o")),
        None,
    );
    assert_eq!(q, sample_quad("s", "p", "o"));
}

#[test]
fn factory_literal_variants() {
    let plain = DataFactory::literal("x", None).unwrap();
    assert_eq!(plain, Literal::new("x", None, None, None).unwrap());

    let tagged = DataFactory::literal(
        "x",
        Some(&LanguageOrDatatype::Language(String::from("en"))),
    )
    .unwrap();
    assert_eq!(tagged.language(), "en");
    assert_eq!(tagged.datatype().value(), RDF_LANG_STRING);

    let typed = DataFactory::literal(
        "7",
        Some(&LanguageOrDatatype::Datatype(NamedNode::new(
            "http://www.w3.org/2001/XMLSchema#integer",
        ))),
    )
    .unwrap();
    assert_eq!(
        typed.datatype().value(),
        "http://www.w3.org/2001/XMLSchema#integer"
    );

    let directional = DataFactory::literal(
        "x",
        Some(&LanguageOrDatatype::DirectionalLanguage(
            DirectionalLanguage {
                language: String::from("ar"),
                direction: Some(LanguageDirection::RightToLeft),
            },
        )),
    )
    .unwrap();
    assert_eq!(directional.language(), "ar");
    assert_eq!(directional.direction(), Some(&LanguageDirection::RightToLeft));
    assert_eq!(directional.datatype().value(), RDF_DIR_LANG_STRING);

    let undirected = DataFactory::literal(
        "x",
        Some(&LanguageOrDatatype::DirectionalLanguage(
            DirectionalLanguage {
                language: String::from("en"),
                direction: None,
            },
        )),
    )
    .unwrap();
    assert_eq!(undirected.datatype().value(), RDF_LANG_STRING);
}

#[test]
fn value_accessors() {
    assert_eq!(NamedNode::new("iri").value(), "iri");
    assert_eq!(BlankNode::new("b").value(), "b");
    assert_eq!(Literal::new("lex", None, None, None).unwrap().value(), "lex");
    assert_eq!(Variable::new("v").value(), "v");
    assert_eq!(DefaultGraph::new().value(), "");
    assert_eq!(sample_quad("s", "p", "o").value(), "");
    assert_eq!(Term::NamedNode(NamedNode::new("iri")).value(), "iri");
    let subject = QuadSubject::BlankNode(BlankNode::new("b"));
    assert_eq!(subject.value(), "b");
}

#[test]
fn term_conversions_round_trip() {
    let nn = NamedNode::new("iri");
    let t = nn.to_term();
    assert_eq!(nn, t);
    assert_eq!(nn.as_term(), t);

    let v = Variable::new("v");
    assert_eq!(v.to_term(), Term::Variable(Variable::new("v")));

    let q = sample_quad("s", "p", "o");
    let qt = q.to_term();
    assert_eq!(q, qt);
    assert_eq!(q.as_term(), qt);

    let subject = QuadSubject::NamedNode(NamedNode::new("iri"));
    assert_eq!(subject.to_term(), Term::NamedNode(NamedNode::new("iri")));
    assert_eq!(subject.as_term(), Term::NamedNode(NamedNode::new("iri")));
}

#[test]
fn slot_conversions_preserve_value() {
    let t = Term::NamedNode(NamedNode::new("iri"));
    let s = QuadSubject::from_term(&t).unwrap();
    assert_eq!(s, t);
    let p = QuadPredicate::from_term(&t).unwrap();
    assert_eq!(p, t);
    let o = QuadObject::from_term(&t).unwrap();
    assert_eq!(o, t);
    let g = QuadGraph::from_term(&t).unwrap();
    assert_eq!(g, t);
    let var_term = Term::Variable(Variable::new("v"));
    assert_eq!(QuadPredicate::from_term(&var_term).unwrap(), var_term);
}

#[test]
fn language_direction_names() {
    assert_eq!(LanguageDirection::LeftToRight.as_str(), "ltr");
    assert_eq!(LanguageDirection::RightToLeft.as_str(), "rtl");
}

#[test]
fn literal_direction_with_empty_language_fails() {
    let l = Literal::new("x", Some(""), Some(&LanguageDirection::RightToLeft), None);
    assert_eq!(l.unwrap_err(), TermError::InvalidLiteralDirection);
}

#[test]
fn factory_literal_direction_without_language_fails() {
    let l = DataFactory::literal(
        "x",
        Some(&LanguageOrDatatype::DirectionalLanguage(
            DirectionalLanguage {
                language: String::new(),
                direction: Some(LanguageDirection::RightToLeft),
            },
        )),
    );
    assert_eq!(l.unwrap_err(), TermError::InvalidLiteralDirection);

    // Without a direction, an empty tag is still an admissible argument.
    let l = DataFactory::literal(
        "x",
        Some(&LanguageOrDatatype::DirectionalLanguage(
            DirectionalLanguage {
                language: String::new(),
                direction: None,
            },
        )),
    )
    .unwrap();
    assert!(l.direction().is_none());
    assert_eq!(l.language(), "");
    assert_eq!(l.datatype().value(), RDF_LANG_STRING);
}
