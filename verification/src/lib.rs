//! An RDF data model: a closed family of typed terms (named nodes, blank
//! nodes, literals, variables, the default graph, and quoted quads), with
//! value-based equality and position-typed quad construction in the style of
//! the RDF/JS data model.

pub mod blank_node;
pub mod data_factory;
pub mod dec_string;
pub mod default_graph;
pub mod error;
pub mod laws;
pub mod literal;
pub mod model;
pub mod named_node;
pub mod quad;
pub mod quad_graph;
pub mod quad_object;
pub mod quad_predicate;
pub mod quad_subject;
pub mod term;
pub mod term_like;
pub mod test_data;
pub mod variable;
