//! Stored attribute values and the two substitution-map types that every
//! compiled request carries.

use vstd::prelude::*;
use crate::assoc::AssocMap;

verus! {

/// The mathematical shape of a stored value.
pub enum AttrValueView {
    S(Seq<char>),
    N(Seq<char>),
    Bool(bool),
    Ss(Seq<Seq<char>>),
    Null,
}

/// A typed stored value: string, number (kept in decimal text form, as on
/// the wire), boolean, string set, or null.
#[derive(Clone, Debug, PartialEq, Eq)]
pub enum AttributeValue {
    S(String),
    N(String),
    Bool(bool),
    Ss(Vec<String>),
    Null,
}

impl View for AttributeValue {
    type V = AttrValueView;

    open spec fn view(&self) -> AttrValueView {
        match self {
            AttributeValue::S(s) => AttrValueView::S(s@),
            AttributeValue::N(s) => AttrValueView::N(s@),
            AttributeValue::Bool(b) => AttrValueView::Bool(*b),
            AttributeValue::Ss(v) => AttrValueView::Ss(v.deep_view()),
            AttributeValue::Null => AttrValueView::Null,
        }
    }
}

/// Substitution map from name placeholders (`#name`) to real field names.
pub type AttributeNames = AssocMap<String>;

/// Substitution map from value placeholders (`:valueN`) to stored values.
pub type AttributeValues = AssocMap<AttributeValue>;

} // verus!
