//! The field renderer: one descriptor per selection item, in order.
use vstd::prelude::*;
use crate::naming::{
    camel_of, convert_field_name, ident_spec, rename_spec, reserved_spec, snake_of, to_camel_case,
};
use crate::schema::{
    find_field, lookup_field, opt_view, output_type_spec, FieldDefinition, Schema, SchemaType,
    TypeModel, TypeRef,
};
use crate::selection::{Selection, SelectionItem};

verus! {

/// A field of a generated response type.
#[derive(Clone, Debug)]
pub struct GeneratedField {
    /// The output identifier.
    pub ident: String,
    /// The output type expression.
    pub ty: TypeRef,
    /// The schema description, carried as a doc comment.
    pub doc: Option<String>,
    /// The schema name to map the identifier from during (de)serialization.
    pub rename: Option<String>,
    /// Whether the field's own fields merge into the enclosing type.
    pub flatten: bool,
}

/// The mathematical value of a generated field.
pub struct FieldModel {
    pub ident: Seq<char>,
    pub ty: TypeModel,
    pub doc: Option<Seq<char>>,
    pub rename: Option<Seq<char>>,
    pub flatten: bool,
}

impl View for GeneratedField {
    type V = FieldModel;

    open spec fn view(&self) -> FieldModel {
        FieldModel {
            ident: self.ident@,
            ty: self.ty@,
            doc: opt_view(self.doc),
            rename: opt_view(self.rename),
            flatten: self.flatten,
        }
    }
}

/// Why a selection set could not be resolved.
#[derive(Clone, Debug)]
pub enum GenError {
    /// A selected field is absent from the type's field table.
    FieldNotFound(String),
    /// An inline fragment stands where only fields and spreads are valid.
    UnsupportedInlineFragment,
}

/// The mathematical value of an error.
pub enum ErrModel {
    FieldNotFound(Seq<char>),
    UnsupportedInlineFragment,
}

impl View for GenError {
    type V = ErrModel;

    open spec fn view(&self) -> ErrModel {
        match self {
            GenError::FieldNotFound(n) => ErrModel::FieldNotFound(n@),
            GenError::UnsupportedInlineFragment => ErrModel::UnsupportedInlineFragment,
        }
    }
}

/// The views of a sequence of generated fields.
pub open spec fn models(v: Seq<GeneratedField>) -> Seq<FieldModel> {
    v.map_values(|g: GeneratedField| g@)
}

/// The view of a rendering result.
pub open spec fn render_view(r: Result<Vec<GeneratedField>, GenError>) -> Result<
    Seq<FieldModel>,
    ErrModel,
> {
    match r {
        Ok(v) => Ok(models(v@)),
        Err(e) => Err(e@),
    }
}

/// The name of the generated type for field `name` selected under `prefix`:
/// both in upper camel case, concatenated.
pub open spec fn path_spec(prefix: Seq<char>, name: Seq<char>) -> Seq<char> {
    camel_of(prefix) + camel_of(name)
}

/// The descriptor of one selection item, or the error it raises.
pub open spec fn render_item_spec(
    types: Seq<SchemaType>,
    fields: Seq<FieldDefinition>,
    item: SelectionItem,
    prefix: Seq<char>,
) -> Result<FieldModel, ErrModel> {
    match item {
        SelectionItem::Field(f) => match lookup_field(fields, f.name@) {
            Some(d) => Ok(
                FieldModel {
                    ident: ident_spec(f.name@),
                    ty: output_type_spec(types, d.type_ref@, path_spec(prefix, f.name@)),
                    doc: opt_view(d.description),
                    rename: rename_spec(f.name@),
                    flatten: false,
                },
            ),
            None => Err(ErrModel::FieldNotFound(f.name@)),
        },
        SelectionItem::FragmentSpread(s) => Ok(
            FieldModel {
                ident: ident_spec(s.fragment_name@),
                ty: TypeModel { base: s.fragment_name@, modifiers: seq![] },
                doc: None,
                rename: None,
                flatten: true,
            },
        ),
        SelectionItem::InlineFragment(_) => Err(ErrModel::UnsupportedInlineFragment),
    }
}

/// The descriptors of the first `n` items, or the first error among them.
pub open spec fn render_upto(
    types: Seq<SchemaType>,
    fields: Seq<FieldDefinition>,
    items: Seq<SelectionItem>,
    prefix: Seq<char>,
    n: int,
) -> Result<Seq<FieldModel>, ErrModel>
    decreases n,
{
    if n <= 0 {
        Ok(seq![])
    } else {
        match render_upto(types, fields, items, prefix, n - 1) {
            Err(e) => Err(e),
            Ok(s) => match render_item_spec(types, fields, items[n - 1], prefix) {
                Err(e) => Err(e),
                Ok(d) => Ok(s.push(d)),
            },
        }
    }
}

/// The descriptors of a whole selection set, or its first error.
pub open spec fn render_spec(
    types: Seq<SchemaType>,
    fields: Seq<FieldDefinition>,
    items: Seq<SelectionItem>,
    prefix: Seq<char>,
) -> Result<Seq<FieldModel>, ErrModel> {
    render_upto(types, fields, items, prefix, items.len() as int)
}

proof fn lemma_render_error_persists(
    types: Seq<SchemaType>,
    fields: Seq<FieldDefinition>,
    items: Seq<SelectionItem>,
    prefix: Seq<char>,
    k: int,
    n: int,
)
    requires
        k <= n,
        render_upto(types, fields, items, prefix, k) is Err,
    ensures
        render_upto(types, fields, items, prefix, n) == render_upto(types, fields, items, prefix, k),
    decreases n - k,
{
    if k < n {
        lemma_render_error_persists(types, fields, items, prefix, k, n - 1);
    }
}

/// Computes the generated type name for field `name` under `prefix`.
pub fn type_path(prefix: &str, name: &str) -> (r: String)
    ensures
        r@ == path_spec(prefix@, name@),
{
    let mut path = to_camel_case(prefix);
    let tail = to_camel_case(name);
    path.append(tail.as_str());
    path
}

/// Renders a field selection whose schema declaration is `def`.
pub fn render_object_field(schema: &Schema, def: &FieldDefinition, name: &str, prefix: &str) -> (r:
    GeneratedField)
    ensures
        r@ == (FieldModel {
            ident: ident_spec(name@),
            ty: output_type_spec(schema.types@, def.type_ref@, path_spec(prefix@, name@)),
            doc: opt_view(def.description),
            rename: rename_spec(name@),
            flatten: false,
        }),
{
    let path = type_path(prefix, name);
    let ty = schema.to_output_type(&def.type_ref, path.as_str());
    let converted = convert_field_name(name);
    let doc = match &def.description {
        Some(d) => Some(d.clone()),
        None => None,
    };
    GeneratedField { ident: converted.ident, ty, doc, rename: converted.rename, flatten: false }
}

/// Renders one selection item against a field table.
pub fn render_item(schema: &Schema, fields: &Vec<FieldDefinition>, item: &SelectionItem, prefix: &str) -> (r:
    Result<GeneratedField, GenError>)
    ensures
        match r {
            Ok(g) => render_item_spec(schema.types@, fields@, *item, prefix@) == Ok::<
                FieldModel,
                ErrModel,
            >(g@),
            Err(e) => render_item_spec(schema.types@, fields@, *item, prefix@) == Err::<
                FieldModel,
                ErrModel,
            >(e@),
        },
{
    match item {
        SelectionItem::Field(f) => match find_field(fields, f.name.as_str()) {
            Some(i) => Ok(render_object_field(schema, &fields[i], f.name.as_str(), prefix)),
            None => Err(GenError::FieldNotFound(f.name.clone())),
        },
        SelectionItem::FragmentSpread(s) => {
            let converted = convert_field_name(s.fragment_name.as_str());
            let ty = TypeRef { base: s.fragment_name.clone(), modifiers: Vec::new() };
            proof {
                assert(ty.modifiers@ =~= seq![]);
            }
            Ok(GeneratedField { ident: converted.ident, ty, doc: None, rename: None, flatten: true })
        },
        SelectionItem::InlineFragment(_) => Err(GenError::UnsupportedInlineFragment),
    }
}

/// Renders the descriptors of `selection` against the field table `fields`,
/// one per item and in the same order; stops at the first error.
pub fn response_fields_for_selection(
    schema: &Schema,
    fields: &Vec<FieldDefinition>,
    selection: &Selection,
    prefix: &str,
) -> (r: Result<Vec<GeneratedField>, GenError>)
    ensures
        render_view(r) == render_spec(schema.types@, fields@, (selection.0)@, prefix@),
{
    let items = &selection.0;
    let mut out: Vec<GeneratedField> = Vec::new();
    let mut i: usize = 0;
    assert(models(out@) =~= seq![]);
    while i < items.len()
        invariant
            i <= items.len(),
            items@ == (selection.0)@,
            render_upto(schema.types@, fields@, items@, prefix@, i as int) == Ok::<
                Seq<FieldModel>,
                ErrModel,
            >(models(out@)),
        decreases items.len() - i,
    {
        match render_item(schema, fields, &items[i], prefix) {
            Ok(g) => {
                proof {
                    assert(models(out@.push(g)) =~= models(out@).push(g@));
                }
                out.push(g);
            },
            Err(e) => {
                proof {
                    assert(render_upto(schema.types@, fields@, items@, prefix@, i + 1) == Err::<
                        Seq<FieldModel>,
                        ErrModel,
                    >(e@));
                    lemma_render_error_persists(
                        schema.types@,
                        fields@,
                        items@,
                        prefix@,
                        i + 1,
                        items.len() as int,
                    );
                    assert(render_spec(schema.types@, fields@, items@, prefix@) == Err::<
                        Seq<FieldModel>,
                        ErrModel,
                    >(e@));
                }
                return Err(e);
            },
        }
        i = i + 1;
    }
    Ok(out)
}

/// Rendering a selection set without inline fragments yields one descriptor
/// per item, in item order, each the item's own descriptor; it can only fail
/// on a field that the table lacks.
pub proof fn lemma_render_one_per_item(
    types: Seq<SchemaType>,
    fields: Seq<FieldDefinition>,
    items: Seq<SelectionItem>,
    prefix: Seq<char>,
)
    requires
        forall|i: int| 0 <= i < items.len() ==> !(#[trigger] items[i] is InlineFragment),
    ensures
        match render_spec(types, fields, items, prefix) {
            Ok(ds) => ds.len() == items.len() && forall|i: int|
                0 <= i < items.len() ==> render_item_spec(types, fields, items[i], prefix) == Ok::<
                    FieldModel,
                    ErrModel,
                >(#[trigger] ds[i]),
            Err(e) => e is FieldNotFound,
        },
{
    lemma_render_upto_one_per_item(types, fields, items, prefix, items.len() as int);
}

proof fn lemma_render_upto_one_per_item(
    types: Seq<SchemaType>,
    fields: Seq<FieldDefinition>,
    items: Seq<SelectionItem>,
    prefix: Seq<char>,
    n: int,
)
    requires
        0 <= n <= items.len(),
        forall|i: int| 0 <= i < items.len() ==> !(#[trigger] items[i] is InlineFragment),
    ensures
        match render_upto(types, fields, items, prefix, n) {
            Ok(ds) => ds.len() == n && forall|i: int|
                0 <= i < n ==> render_item_spec(types, fields, items[i], prefix) == Ok::<
                    FieldModel,
                    ErrModel,
                >(#[trigger] ds[i]),
            Err(e) => e is FieldNotFound,
        },
    decreases n,
{
    if n > 0 {
        lemma_render_upto_one_per_item(types, fields, items, prefix, n - 1);
        assert(!(items[n - 1] is InlineFragment));
    }
}

/// A descriptor for a field named `type` is `type_`, renamed from `type`,
/// whatever snake case conversion would make of the name.
pub proof fn lemma_reserved_type_field(
    types: Seq<SchemaType>,
    fields: Seq<FieldDefinition>,
    item: SelectionItem,
    prefix: Seq<char>,
)
    requires
        item matches SelectionItem::Field(f) && f.name@ == "type"@,
        lookup_field(fields, "type"@) is Some,
    ensures
        render_item_spec(types, fields, item, prefix) matches Ok(d) && d.ident == "type_"@
            && d.rename == Some("type"@),
{
    reveal_strlit("type");
    reveal_strlit("type_");
    assert("type"@.push('_') =~= "type_"@);
}

/// Rename metadata is present exactly when the name is reserved or its
/// identifier differs from it, and it then holds the schema name.
pub proof fn lemma_rename_iff_differs(name: Seq<char>)
    ensures
        rename_spec(name) is None <==> (reserved_spec(name) is None && ident_spec(name) == name),
        rename_spec(name) is None <==> (reserved_spec(name) is None && snake_of(name) == name),
        rename_spec(name) is Some ==> rename_spec(name) == Some(name),
{
}

/// When every item before position `k` renders and item `k` selects a field
/// that the table lacks, rendering fails with that field's name.
pub proof fn lemma_missing_field_fails(
    types: Seq<SchemaType>,
    fields: Seq<FieldDefinition>,
    items: Seq<SelectionItem>,
    prefix: Seq<char>,
    k: int,
)
    requires
        0 <= k < items.len(),
        render_upto(types, fields, items, prefix, k) is Ok,
        items[k] is Field,
        lookup_field(fields, items[k]->Field_0.name@) is None,
    ensures
        render_spec(types, fields, items, prefix) == Err::<Seq<FieldModel>, ErrModel>(
            ErrModel::FieldNotFound(items[k]->Field_0.name@),
        ),
{
    lemma_render_error_persists(types, fields, items, prefix, k + 1, items.len() as int);
}

/// A selection set holding an inline fragment never renders; when every item
/// before the first one renders, the error is the inline fragment's.
pub proof fn lemma_inline_fragment_fails(
    types: Seq<SchemaType>,
    fields: Seq<FieldDefinition>,
    items: Seq<SelectionItem>,
    prefix: Seq<char>,
    k: int,
)
    requires
        0 <= k < items.len(),
        items[k] is InlineFragment,
    ensures
        render_spec(types, fields, items, prefix) is Err,
        render_upto(types, fields, items, prefix, k) is Ok ==> render_spec(
            types,
            fields,
            items,
            prefix,
        ) == Err::<Seq<FieldModel>, ErrModel>(ErrModel::UnsupportedInlineFragment),
{
    if render_upto(types, fields, items, prefix, k) is Err {
        lemma_render_error_persists(types, fields, items, prefix, k, items.len() as int);
    } else {
        lemma_render_error_persists(types, fields, items, prefix, k + 1, items.len() as int);
    }
}

/// A fragment spread renders to a flattened field of the fragment's type,
/// named by converting the fragment name, the same against every field table.
pub proof fn lemma_spread_ignores_fields(
    types: Seq<SchemaType>,
    fields1: Seq<FieldDefinition>,
    fields2: Seq<FieldDefinition>,
    item: SelectionItem,
    prefix: Seq<char>,
)
    requires
        item is FragmentSpread,
    ensures
        render_item_spec(types, fields1, item, prefix) == render_item_spec(types, fields2, item, prefix),
        render_item_spec(types, fields1, item, prefix) matches Ok(d) && d.flatten
            && d.ident == ident_spec(item->FragmentSpread_0.fragment_name@)
            && d.ty.base == item->FragmentSpread_0.fragment_name@
            && d.ty.modifiers.len() == 0 && d.rename is None,
{
}

} // verus!
