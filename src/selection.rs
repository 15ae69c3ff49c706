//! The query side: selection sets and their items.
use vstd::prelude::*;

verus! {

/// An ordered selection set; its order is the order of the output fields.
#[derive(Debug)]
pub struct Selection(pub Vec<SelectionItem>);

/// One item of a selection set.
#[derive(Debug)]
pub enum SelectionItem {
    Field(SelectionField),
    FragmentSpread(SelectionFragmentSpread),
    InlineFragment(SelectionInlineFragment),
}

/// A selected field with its own nested selection set (empty for leaves).
#[derive(Debug)]
pub struct SelectionField {
    pub name: String,
    pub fields: Selection,
}

/// A spread of a named fragment.
#[derive(Debug)]
pub struct SelectionFragmentSpread {
    pub fragment_name: String,
}

/// A selection conditioned on a concrete type.
#[derive(Debug)]
pub struct SelectionInlineFragment {
    pub on: String,
    pub fields: Selection,
}

} // verus!
