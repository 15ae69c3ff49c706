//! Turns a GraphQL schema type's field table and a query's selection set into
//! field descriptors for generated response types.
mod expand;
mod naming;
mod render;
mod schema;
mod selection;

pub use naming::{
    camel_of, convert_field_name, escape_spec, field_rename_annotation, ident_spec, rename_spec,
    reserved_spec, snake_of, ConvertedName, EscapeStrategy,
};

pub use schema::{
    composite_fields, find_field, find_field_from, find_type_from, lookup_field, opt_view,
    output_type_spec, FieldDefinition, Modifier, Schema, SchemaType, TypeKind, TypeModel, TypeRef,
};

pub use selection::{
    Selection, SelectionField, SelectionFragmentSpread, SelectionInlineFragment, SelectionItem,
};
pub use render::{
    lemma_inline_fragment_fails, lemma_missing_field_fails, lemma_rename_iff_differs,
    lemma_render_one_per_item, lemma_reserved_type_field, lemma_spread_ignores_fields, models,
    path_spec, render_item, render_item_spec, render_object_field, render_spec,
    render_upto, render_view, response_fields_for_selection, type_path, ErrModel, FieldModel,
    GenError, GeneratedField,
};

pub use expand::{
    expand_spec, expand_upto, expand_view, field_impls_for_selection, insert_type,
    lemma_expand_idempotent, lemma_expand_upto_unique, lemma_maybe_expand_unique,
    maybe_expand_spec, names_unique, registered, type_models, GeneratedModel, GeneratedType,
    QueryContext,
};
