use rdf_model::literal::{LanguageDirection, Literal};
use rdf_model::named_node::NamedNode;
use rdf_model::test_data::equality_setup;

#[test]
fn named_node_same_value_nodes_equal() {
    let data = equality_setup();

    assert_eq!(data.node_foo_1, data.node_foo_1);
    assert_eq!(data.node_foo_1, data.node_foo_2);
    assert_eq!(data.node_foo_1, data.term_node_foo);
    assert_eq!(data.term_node_foo, data.node_foo_2);
}

#[test]
fn named_node_different_value_nodes_not_equal() {
    let data = equality_setup();

    assert_ne!(data.node_foo_1, data.node_bar);
    assert_ne!(data.node_foo_2, data.term_node_bar);
    assert_ne!(data.term_node_bar, data.node_foo_2);
}

#[test]
fn named_node_term_inequality_works() {
    let data = equality_setup();

    assert_ne!(data.node_foo_1, data.term_blank_foo);
    assert_ne!(data.node_foo_1, data.term_literal_foo);
    assert_ne!(data.node_foo_1, data.term_variable_foo);
    assert_ne!(data.node_foo_1, data.term_default_graph_1);
    assert_ne!(data.node_foo_1, data.term_quad_foo);
}

#[test]
fn blank_node_same_value_nodes_equal() {
    let data = equality_setup();

    assert_eq!(data.blank_foo_1, data.blank_foo_1);
    assert_eq!(data.blank_foo_1, data.blank_foo_2);
    assert_eq!(data.blank_foo_1, data.term_blank_foo);
    assert_eq!(data.term_blank_foo, data.blank_foo_2);
}

#[test]
fn blank_node_different_value_nodes_not_equal() {
    let data = equality_setup();

    assert_ne!(data.blank_foo_1, data.blank_bar);
    assert_ne!(data.blank_foo_2, data.term_blank_bar);
    assert_ne!(data.term_blank_bar, data.blank_foo_2);
}

#[test]
fn blank_node_term_inequality_works() {
    let data = equality_setup();

    assert_ne!(data.blank_foo_1, data.term_node_foo);
    assert_ne!(data.blank_foo_1, data.term_literal_foo);
    assert_ne!(data.blank_foo_1, data.term_variable_foo);
    assert_ne!(data.blank_foo_1, data.term_default_graph_1);
    assert_ne!(data.blank_foo_1, data.term_quad_foo);
}

#[test]
fn default_graphs_equal() {
    let data = equality_setup();

    assert_eq!(data.default_graph_1, data.default_graph_1);
    assert_eq!(data.default_graph_1, data.default_graph_2);
    assert_eq!(data.default_graph_1, data.term_default_graph_1);
    assert_eq!(data.term_default_graph_2, data.default_graph_1);
}

#[test]
fn default_graph_term_inequality_works() {
    let data = equality_setup();

    assert_ne!(data.default_graph_1, data.term_node_foo);
    assert_ne!(data.default_graph_1, data.term_blank_foo);
    assert_ne!(data.default_graph_1, data.term_literal_foo);
    assert_ne!(data.default_graph_1, data.term_variable_foo);
    assert_ne!(data.default_graph_1, data.term_quad_foo);
}

#[test]
fn same_literals_equal() {
    let data = equality_setup();

    assert_eq!(data.literal_foo_1, data.literal_foo_1);
    assert_eq!(data.literal_foo_1, data.literal_foo_2);
    assert_eq!(data.literal_foo_1, data.term_literal_foo);
    assert_eq!(data.term_literal_foo, data.literal_foo_2);

    let node_1 = Literal::new("foo", Some("gb"), None, None).unwrap();
    let node_2 = Literal::new("foo", Some("gb"), None, None).unwrap();

    assert_eq!(node_1, node_2);

    let node_1 = Literal::new(
        "foo",
        Some("en"),
        Some(&LanguageDirection::RightToLeft),
        None,
    )
    .unwrap();
    let node_2 = Literal::new(
        "foo",
        Some("en"),
        Some(&LanguageDirection::RightToLeft),
        None,
    )
    .unwrap();

    assert_eq!(node_1, node_2);

    let node_1 = Literal::new(
        "foo",
        Some("en"),
        Some(&LanguageDirection::RightToLeft),
        Some(&NamedNode::new("foo")),
    )
    .unwrap();
    let node_2 = Literal::new(
        "foo",
        Some("en"),
        Some(&LanguageDirection::RightToLeft),
        Some(&NamedNode::new("foo")),
    )
    .unwrap();

    assert_eq!(node_1, node_2);
}

#[test]
fn different_literals_not_equal() {
    let data = equality_setup();

    assert_ne!(data.literal_foo_1, data.literal_bar);
    assert_ne!(data.literal_foo_2, data.term_literal_bar);
    assert_ne!(data.term_literal_bar, data.literal_foo_2);
}

#[test]
fn literal_term_inequality_works() {
    let data = equality_setup();

    assert_ne!(data.literal_foo_1, data.term_node_foo);
    assert_ne!(data.literal_foo_1, data.term_blank_foo);
    assert_ne!(data.literal_foo_1, data.term_variable_foo);
    assert_ne!(data.literal_foo_1, data.term_default_graph_1);
    assert_ne!(data.literal_foo_1, data.term_quad_foo);
}
