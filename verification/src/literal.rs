use vstd::prelude::*;

use crate::error::TermError;
use crate::model::LiteralModel;
use crate::model::TermModel;
use crate::named_node::NamedNode;
use crate::term::Term;
use crate::term_like::TermLike;

verus! {

/// The base direction of a language-tagged string: a closed enum, so that a
/// direction other than these two values is unrepresentable.
#[derive(Clone, Copy, PartialEq, Eq, Structural, Debug)]
pub enum LanguageDirection {
    LeftToRight,
    RightToLeft,
}

impl LanguageDirection {
    /// The direction's conventional short name.
    pub fn as_str(&self) -> (r: &'static str)
        ensures
            *self == LanguageDirection::LeftToRight ==> r@ == "ltr"@,
            *self == LanguageDirection::RightToLeft ==> r@ == "rtl"@,
    {
        match self {
            LanguageDirection::LeftToRight => "ltr",
            LanguageDirection::RightToLeft => "rtl",
        }
    }
}

/// The IRI of the plain-string datatype, the default for a literal with
/// neither language nor explicit datatype.
pub open spec fn xsd_string_iri() -> Seq<char> {
    "http://www.w3.org/2001/XMLSchema#string"@
}

/// The IRI of the language-tagged-string datatype.
pub open spec fn rdf_lang_string_iri() -> Seq<char> {
    "http://www.w3.org/1999/02/22-rdf-syntax-ns#langString"@
}

/// The IRI of the directional language-tagged-string datatype.
pub open spec fn rdf_dir_lang_string_iri() -> Seq<char> {
    "http://www.w3.org/1999/02/22-rdf-syntax-ns#dirLangString"@
}

/// The datatype IRI a literal resolves to, determined entirely by language
/// presence, direction presence, and the explicit datatype argument.
/// Exactly one branch applies.
pub open spec fn resolved_datatype_iri(
    has_language: bool,
    has_direction: bool,
    datatype: Option<Seq<char>>,
) -> Seq<char> {
    if has_language && has_direction {
        rdf_dir_lang_string_iri()
    } else if has_language {
        rdf_lang_string_iri()
    } else if datatype matches Some(iri) {
        datatype->Some_0
    } else {
        xsd_string_iri()
    }
}

/// The value of a plain-string literal: no language, no direction, and the
/// plain-string default datatype.
pub open spec fn plain_literal_model(value: Seq<char>) -> LiteralModel {
    LiteralModel {
        value,
        language: Seq::<char>::empty(),
        direction: None,
        datatype: xsd_string_iri(),
    }
}

/// The language field a literal stores: the given tag, or empty when absent.
pub open spec fn stored_language(language: Option<&str>) -> Seq<char> {
    match language {
        Some(l) => l@,
        None => Seq::<char>::empty(),
    }
}

/// The direction field a literal stores, as an owned option.
pub open spec fn stored_direction(direction: Option<&LanguageDirection>) -> Option<
    LanguageDirection,
> {
    match direction {
        Some(d) => Some(*d),
        None => None,
    }
}

/// The IRI sequence of an optional datatype argument.
pub open spec fn datatype_iri_of(datatype: Option<&NamedNode>) -> Option<Seq<char>> {
    match datatype {
        Some(d) => Some(d@),
        None => None,
    }
}

/// Whether a base direction is admissible alongside the given language
/// argument: a direction is meaningless without a language, and an empty
/// language tag counts as no language at all.
pub open spec fn direction_admissible(
    language: Option<&str>,
    direction: Option<&LanguageDirection>,
) -> bool {
    direction is Some ==> (language matches Some(l) && l@.len() > 0)
}

/// An RDF literal: a lexical value, an optional language tag, an optional
/// base direction, and a datatype named node.
///
/// Invariants: the direction is only present when the language tag is
/// non-empty (an empty tag means no language), and the datatype is fully
/// determined by language presence, direction presence, and the explicit
/// datatype argument.
#[derive(Debug)]
pub struct Literal {
    value: String,
    language: String,
    direction: Option<LanguageDirection>,
    datatype: NamedNode,
}

impl View for Literal {
    type V = LiteralModel;

    closed spec fn view(&self) -> LiteralModel {
        LiteralModel {
            value: self.value@,
            language: self.language@,
            direction: self.direction,
            datatype: self.datatype@,
        }
    }
}

impl Literal {
    /// Constructs a literal, deriving its datatype from the language tag and
    /// direction: both present gives the directional language-tagged-string
    /// datatype, language alone the language-tagged-string datatype, neither
    /// the explicit datatype or, failing that, the plain-string default.
    /// A direction without a non-empty language tag fails construction: an
    /// empty tag means no language, and a direction is meaningless without
    /// one.
    pub fn new(
        value: &str,
        language: Option<&str>,
        direction: Option<&LanguageDirection>,
        datatype: Option<&NamedNode>,
    ) -> (r: Result<Literal, TermError>)
        ensures
            r is Ok <==> direction_admissible(language, direction),
            r matches Ok(l) ==> l@ == (LiteralModel {
                value: value@,
                language: stored_language(language),
                direction: stored_direction(direction),
                datatype: resolved_datatype_iri(
                    language is Some,
                    direction is Some,
                    datatype_iri_of(datatype),
                ),
            }),
            r matches Ok(l) ==> (l@.direction is Some ==> l@.language.len() > 0),
            r matches Err(e) ==> e == TermError::InvalidLiteralDirection,
    {
        let language_missing: bool = match language {
            Some(l) => l.is_empty(),
            None => true,
        };
        if direction.is_some() && language_missing {
            return Err(TermError::InvalidLiteralDirection);
        }
        let stored_value: String = value.to_owned();
        let stored_lang: String = match language {
            Some(l) => l.to_owned(),
            None => String::new(),
        };
        let stored_dir: Option<LanguageDirection> = match direction {
            Some(d) => Some(*d),
            None => None,
        };
        let stored_datatype: NamedNode = if language.is_some() {
            if direction.is_some() {
                NamedNode::new("http://www.w3.org/1999/02/22-rdf-syntax-ns#dirLangString")
            } else {
                NamedNode::new("http://www.w3.org/1999/02/22-rdf-syntax-ns#langString")
            }
        } else {
            match datatype {
                Some(d) => d.clone(),
                None => NamedNode::new("http://www.w3.org/2001/XMLSchema#string"),
            }
        };
        Ok(
            Literal {
                value: stored_value,
                language: stored_lang,
                direction: stored_dir,
                datatype: stored_datatype,
            },
        )
    }

    /// The literal's language tag; empty when the literal has none.
    pub fn language(&self) -> (r: &str)
        ensures
            r@ == self@.language,
    {
        self.language.as_str()
    }

    /// The literal's base direction, if it has one.
    pub fn direction(&self) -> (r: Option<&LanguageDirection>)
        ensures
            r is Some <==> self@.direction is Some,
            r matches Some(d) ==> self@.direction == Some(*d),
    {
        match &self.direction {
            Some(d) => Some(d),
            None => None,
        }
    }

    /// The literal's datatype named node.
    pub fn datatype(&self) -> (r: &NamedNode)
        ensures
            r@ == self@.datatype,
    {
        &self.datatype
    }

    /// Whether every field of the two literals agrees.
    fn fields_equal(&self, other: &Literal) -> (r: bool)
        ensures
            r == (self@ == other@),
    {
        let direction_agrees: bool = match (&self.direction, &other.direction) {
            (Some(a), Some(b)) => *a == *b,
            (None, None) => true,
            _ => false,
        };
        self.value == other.value && self.language == other.language && direction_agrees
            && self.datatype == other.datatype
    }
}

impl Clone for Literal {
    fn clone(&self) -> (r: Self)
        ensures
            r == *self,
    {
        Literal {
            value: self.value.clone(),
            language: self.language.clone(),
            direction: self.direction,
            datatype: self.datatype.clone(),
        }
    }
}

impl PartialEq for Literal {
    fn eq(&self, other: &Self) -> (r: bool) {
        self.fields_equal(other)
    }

    fn ne(&self, other: &Self) -> (r: bool) {
        !self.fields_equal(other)
    }
}

impl vstd::std_specs::cmp::PartialEqSpecImpl for Literal {
    open spec fn obeys_eq_spec() -> bool {
        true
    }

    open spec fn eq_spec(&self, other: &Literal) -> bool {
        self@ == other@
    }
}

impl Literal {
    /// Whether the given term is a literal with the same value, language,
    /// direction and datatype.
    pub fn equals(&self, other: &Term) -> (r: bool)
        ensures
            r == ((*other)@ == TermModel::Literal(self@)),
    {
        match other {
            Term::Literal(l) => self.fields_equal(l),
            _ => false,
        }
    }
}

impl PartialEq<Term> for Literal {
    fn eq(&self, other: &Term) -> (r: bool) {
        self.equals(other)
    }

    fn ne(&self, other: &Term) -> (r: bool) {
        !self.equals(other)
    }
}

impl vstd::std_specs::cmp::PartialEqSpecImpl<Term> for Literal {
    open spec fn obeys_eq_spec() -> bool {
        true
    }

    open spec fn eq_spec(&self, other: &Term) -> bool {
        (*other)@ == TermModel::Literal((*self)@)
    }
}

impl PartialEq<Literal> for Term {
    fn eq(&self, other: &Literal) -> (r: bool) {
        other.equals(self)
    }

    fn ne(&self, other: &Literal) -> (r: bool) {
        !other.equals(self)
    }
}

impl vstd::std_specs::cmp::PartialEqSpecImpl<Literal> for Term {
    open spec fn obeys_eq_spec() -> bool {
        true
    }

    open spec fn eq_spec(&self, other: &Literal) -> bool {
        (*self)@ == TermModel::Literal((*other)@)
    }
}

impl TermLike for Literal {
    fn value(&self) -> (r: &str)
        ensures
            r@ == self@.value,
    {
        self.value.as_str()
    }

    fn as_term(self) -> (r: Term)
        ensures
            r@ == TermModel::Literal(self@),
    {
        Term::Literal(self)
    }

    fn to_term(&self) -> (r: Term)
        ensures
            r@ == TermModel::Literal(self@),
    {
        Term::Literal(self.clone())
    }
}

} // verus!
