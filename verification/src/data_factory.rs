use vstd::prelude::*;

use crate::blank_node::BlankNode;
use crate::dec_string::dec_str;
use crate::dec_string::usize_dec_string;
use crate::default_graph::DefaultGraph;
use crate::error::TermError;
use crate::literal::LanguageDirection;
use crate::literal::Literal;
use crate::literal::rdf_dir_lang_string_iri;
use crate::literal::rdf_lang_string_iri;
use crate::literal::xsd_string_iri;
use crate::model::LiteralModel;
use crate::model::TermModel;
use crate::named_node::NamedNode;
use crate::quad::Quad;
use crate::quad_graph::QuadGraph;
use crate::quad_object::QuadObject;
use crate::quad_predicate::QuadPredicate;
use crate::quad_subject::QuadSubject;
use crate::variable::Variable;

verus! {

/// The second argument to the factory's literal constructor: a language tag,
/// an explicit datatype, or a language tag with a base direction.
#[derive(Debug)]
pub enum LanguageOrDatatype {
    Language(String),
    Datatype(NamedNode),
    DirectionalLanguage(DirectionalLanguage),
}

/// A language tag together with an optional base direction.
#[derive(Debug)]
pub struct DirectionalLanguage {
    pub language: String,
    pub direction: Option<LanguageDirection>,
}

/// Whether the factory's literal argument is admissible: a base direction
/// only ever comes with a non-empty language tag, since an empty tag means
/// no language and a direction is meaningless without one.
pub open spec fn factory_literal_admissible(arg: Option<&LanguageOrDatatype>) -> bool {
    match arg {
        Some(LanguageOrDatatype::DirectionalLanguage(dl)) => dl.direction is Some
            ==> dl.language@.len() > 0,
        _ => true,
    }
}

/// The literal value the factory builds, for a given value string and an
/// admissible language-or-datatype argument.
pub open spec fn factory_literal_model(
    value: Seq<char>,
    arg: Option<&LanguageOrDatatype>,
) -> LiteralModel {
    match arg {
        None => LiteralModel {
            value,
            language: Seq::<char>::empty(),
            direction: None,
            datatype: xsd_string_iri(),
        },
        Some(LanguageOrDatatype::Language(l)) => LiteralModel {
            value,
            language: l@,
            direction: None,
            datatype: rdf_lang_string_iri(),
        },
        Some(LanguageOrDatatype::Datatype(d)) => LiteralModel {
            value,
            language: Seq::<char>::empty(),
            direction: None,
            datatype: d@,
        },
        Some(LanguageOrDatatype::DirectionalLanguage(dl)) => LiteralModel {
            value,
            language: dl.language@,
            direction: dl.direction,
            datatype: if dl.direction is Some {
                rdf_dir_lang_string_iri()
            } else {
                rdf_lang_string_iri()
            },
        },
    }
}

/// The single construction surface for terms and quads. All constructors are
/// pure except `blank_node`, which owns one piece of session state: a
/// monotonically increasing counter for auto-generated blank-node labels.
/// Two factory instances never share a counter, and nothing resets a counter
/// except constructing a new factory.
pub struct DataFactory {
    blank_node_value_counter: usize,
}

impl DataFactory {
    /// The number of auto-generated blank-node labels this factory has
    /// handed out so far.
    pub closed spec fn spec_counter(&self) -> nat {
        self.blank_node_value_counter as nat
    }

    /// Constructs a factory whose blank-node counter starts at zero.
    pub fn new() -> (r: DataFactory)
        ensures
            r.spec_counter() == 0,
    {
        DataFactory { blank_node_value_counter: 0 }
    }

    /// Constructs a named node holding the given IRI string.
    pub fn named_node(value: &str) -> (r: NamedNode)
        ensures
            r@ == value@,
    {
        NamedNode::new(value)
    }

    /// Constructs a blank node with the given label or, when no label is
    /// given, increments the counter and labels the node with the counter's
    /// decimal string, so that consecutive auto-generated labels are
    /// distinct.
    pub fn blank_node(&mut self, value: Option<&str>) -> (r: BlankNode)
        requires
            value is None ==> old(self).spec_counter() < usize::MAX,
        ensures
            value matches Some(v) ==> r@ == v@ && *final(self) == *old(self),
            value is None ==> final(self).spec_counter() == old(self).spec_counter() + 1 && r@
                == dec_str(old(self).spec_counter() + 1),
    {
        match value {
            Some(v) => BlankNode::new(v),
            None => {
                self.blank_node_value_counter = self.blank_node_value_counter + 1;
                let label = usize_dec_string(self.blank_node_value_counter);
                BlankNode::new(label.as_str())
            },
        }
    }

    /// Constructs a literal; the datatype derives from the argument. A
    /// direction given with an empty language tag fails construction, as it
    /// does at the literal's own constructor: an empty tag means no language,
    /// and a direction is meaningless without one.
    pub fn literal(value: &str, language_or_datatype: Option<&LanguageOrDatatype>) -> (r: Result<
        Literal,
        TermError,
    >)
        ensures
            r is Ok <==> factory_literal_admissible(language_or_datatype),
            r matches Ok(l) ==> l@ == factory_literal_model(value@, language_or_datatype),
            r matches Ok(l) ==> (l@.direction is Some ==> l@.language.len() > 0),
            r matches Err(e) ==> e == TermError::InvalidLiteralDirection,
    {
        match language_or_datatype {
            Some(LanguageOrDatatype::Language(l)) => Literal::new(value, Some(l.as_str()), None, None),
            Some(LanguageOrDatatype::Datatype(d)) => Literal::new(value, None, None, Some(d)),
            Some(LanguageOrDatatype::DirectionalLanguage(dl)) => {
                let dir: Option<&LanguageDirection> = match &dl.direction {
                    Some(d) => Some(d),
                    None => None,
                };
                Literal::new(value, Some(dl.language.as_str()), dir, None)
            },
            None => Literal::new(value, None, None, None),
        }
    }

    /// Constructs a variable holding the given variable name.
    pub fn variable(value: &str) -> (r: Variable)
        ensures
            r@ == value@,
    {
        Variable::new(value)
    }

    /// Constructs the default-graph marker.
    pub fn default_graph() -> (r: DefaultGraph)
        ensures
            r == (DefaultGraph {  }),
    {
        DefaultGraph::new()
    }

    /// Constructs a quad from the four slot values; the graph slot defaults
    /// to the default graph when omitted.
    pub fn quad(
        subject: &QuadSubject,
        predicate: &QuadPredicate,
        object: &QuadObject,
        graph: Option<&QuadGraph>,
    ) -> (r: Quad)
        ensures
            r.subject == *subject,
            r.predicate == *predicate,
            r.object == *object,
            match graph {
                Some(g) => r.graph == *g,
                None => r.graph == QuadGraph::DefaultGraph(DefaultGraph {  }),
            },
            graph is None ==> r@.graph == TermModel::DefaultGraph,
    {
        Quad::new(subject, predicate, object, graph)
    }
}

} // verus!
