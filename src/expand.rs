//! The type expander: a request-scoped registry of generated types, filled by
//! walking nested selections, with one generated type per naming path.
use vstd::prelude::*;
use crate::render::{
    models, path_spec, render_spec, response_fields_for_selection, type_path, ErrModel,
    FieldModel, GenError, GeneratedField,
};
use crate::schema::{
    composite_fields, find_field, lookup_field, FieldDefinition, Schema, SchemaType,
};
use crate::selection::{Selection, SelectionItem};

verus! {

broadcast use vstd::seq::axiom_seq_index_decreases, vstd::std_specs::vec::axiom_vec_decreases_to_view;

/// A generated response type: its name and its field descriptors.
#[derive(Debug)]
pub struct GeneratedType {
    pub name: String,
    pub fields: Vec<GeneratedField>,
}

/// The mathematical value of a generated type.
pub struct GeneratedModel {
    pub name: Seq<char>,
    pub fields: Seq<FieldModel>,
}

impl View for GeneratedType {
    type V = GeneratedModel;

    open spec fn view(&self) -> GeneratedModel {
        GeneratedModel { name: self.name@, fields: models(self.fields@) }
    }
}

/// The views of a sequence of generated types.
pub open spec fn type_models(v: Seq<GeneratedType>) -> Seq<GeneratedModel> {
    v.map_values(|g: GeneratedType| g@)
}

/// Whether a type named `name` is in the registry.
pub open spec fn registered(reg: Seq<GeneratedModel>, name: Seq<char>) -> bool {
    exists|i: int| 0 <= i < reg.len() && #[trigger] reg[i].name == name
}

/// No two generated types share a name.
pub open spec fn names_unique(reg: Seq<GeneratedModel>) -> bool {
    forall|i: int, j: int| 0 <= i < j < reg.len() ==> reg[i].name != reg[j].name
}

/// The registry with `m` added, unless a type of that name is already there.
pub open spec fn insert_type(reg: Seq<GeneratedModel>, m: GeneratedModel) -> Seq<GeneratedModel> {
    if registered(reg, m.name) {
        reg
    } else {
        reg.push(m)
    }
}

/// The registry after expanding the first `n` items of a selection set against
/// `fields`, or the first error met.
pub open spec fn expand_upto(
    types: Seq<SchemaType>,
    reg: Seq<GeneratedModel>,
    fields: Seq<FieldDefinition>,
    items: Seq<SelectionItem>,
    prefix: Seq<char>,
    n: int,
) -> Result<Seq<GeneratedModel>, ErrModel>
    decreases items, n,
{
    if n <= 0 || n > items.len() {
        Ok(reg)
    } else {
        match expand_upto(types, reg, fields, items, prefix, n - 1) {
            Err(e) => Err(e),
            Ok(reg1) => match items[n - 1] {
                SelectionItem::Field(f) => match lookup_field(fields, f.name@) {
                    Some(d) => maybe_expand_spec(
                        types,
                        reg1,
                        d.type_ref.base@,
                        (f.fields.0)@,
                        path_spec(prefix, f.name@),
                    ),
                    None => Err(ErrModel::FieldNotFound(f.name@)),
                },
                _ => Ok(reg1),
            },
        }
    }
}

/// The registry after expanding a whole selection set against `fields`.
pub open spec fn expand_spec(
    types: Seq<SchemaType>,
    reg: Seq<GeneratedModel>,
    fields: Seq<FieldDefinition>,
    items: Seq<SelectionItem>,
    prefix: Seq<char>,
) -> Result<Seq<GeneratedModel>, ErrModel> {
    expand_upto(types, reg, fields, items, prefix, items.len() as int)
}

/// The registry after expanding the selection `sel` of base type `base` into
/// the generated type `path`: unchanged for leaf types and for a path already
/// registered; otherwise the nested types first, then `path` itself.
pub open spec fn maybe_expand_spec(
    types: Seq<SchemaType>,
    reg: Seq<GeneratedModel>,
    base: Seq<char>,
    sel: Seq<SelectionItem>,
    path: Seq<char>,
) -> Result<Seq<GeneratedModel>, ErrModel>
    decreases sel, sel.len() + 1,
{
    match composite_fields(types, base) {
        None => Ok(reg),
        Some(fields) => if registered(reg, path) {
            Ok(reg)
        } else {
            match expand_upto(types, reg, fields, sel, path, sel.len() as int) {
                Err(e) => Err(e),
                Ok(reg2) => match render_spec(types, fields, sel, path) {
                    Err(e) => Err(e),
                    Ok(ds) => Ok(insert_type(reg2, GeneratedModel { name: path, fields: ds })),
                },
            }
        },
    }
}

/// The registry after an expansion call: its final contents, or the error.
pub open spec fn expand_view(r: Result<(), GenError>, reg: Seq<GeneratedModel>) -> Result<
    Seq<GeneratedModel>,
    ErrModel,
> {
    match r {
        Ok(_) => Ok(reg),
        Err(e) => Err(e@),
    }
}

/// The registry of generated types of one code-generation request.
pub struct QueryContext {
    generated: Vec<GeneratedType>,
}

impl View for QueryContext {
    type V = Seq<GeneratedModel>;

    closed spec fn view(&self) -> Seq<GeneratedModel> {
        type_models(self.generated@)
    }
}

impl QueryContext {
    /// No two generated types share a name.
    pub open spec fn wf(&self) -> bool {
        names_unique(self@)
    }

    /// An empty registry.
    pub fn new() -> (r: Self)
        ensures
            r@ == Seq::<GeneratedModel>::empty(),
            r.wf(),
    {
        let r = QueryContext { generated: Vec::new() };
        assert(r@ =~= Seq::<GeneratedModel>::empty());
        r
    }

    /// The generated types, in order of registration.
    pub fn generated(&self) -> (r: &Vec<GeneratedType>)
        ensures
            type_models(r@) == self@,
    {
        &self.generated
    }

    /// Whether a type named `name` has been generated.
    pub fn is_registered(&self, name: &str) -> (r: bool)
        ensures
            r == registered(self@, name@),
    {
        let target = String::from_str(name);
        let mut i: usize = 0;
        while i < self.generated.len()
            invariant
                i <= self.generated.len(),
                target@ == name@,
                forall|j: int| 0 <= j < i ==> self@[j].name != name@,
            decreases self.generated.len() - i,
        {
            if self.generated[i].name == target {
                assert(self@[i as int].name == name@);
                return true;
            }
            i = i + 1;
        }
        false
    }

    fn register(&mut self, name: String, fields: Vec<GeneratedField>)
        requires
            old(self).wf(),
        ensures
            final(self).wf(),
            final(self)@ == insert_type(
                old(self)@,
                GeneratedModel { name: name@, fields: models(fields@) },
            ),
    {
        if !self.is_registered(name.as_str()) {
            let g = GeneratedType { name, fields };
            proof {
                assert(type_models(self.generated@.push(g)) =~= type_models(self.generated@).push(g@));
                lemma_insert_registers(self@, g@);
            }
            self.generated.push(g);
        }
    }

    /// Expands the selection `selection` of the schema type named `ty` into the
    /// generated type `prefix`, once per registry; leaf types need nothing.
    pub fn maybe_expand_field(&mut self, schema: &Schema, ty: &str, selection: &Selection, prefix: &str) -> (r:
        Result<(), GenError>)
        requires
            old(self).wf(),
        ensures
            final(self).wf(),
            expand_view(r, final(self)@) == maybe_expand_spec(
                schema.types@,
                old(self)@,
                ty@,
                (selection.0)@,
                prefix@,
            ),
        decreases (selection.0)@, (selection.0)@.len() + 1,
    {
        match schema.composite_fields(ty) {
            None => Ok(()),
            Some(fields) => {
                if self.is_registered(prefix) {
                    return Ok(());
                }
                match field_impls_for_selection(self, schema, fields, selection, prefix) {
                    Err(e) => {
                        return Err(e);
                    },
                    Ok(()) => {},
                }
                match response_fields_for_selection(schema, fields, selection, prefix) {
                    Err(e) => Err(e),
                    Ok(descriptors) => {
                        self.register(String::from_str(prefix), descriptors);
                        Ok(())
                    },
                }
            },
        }
    }
}

proof fn lemma_expand_error_persists(
    types: Seq<SchemaType>,
    reg: Seq<GeneratedModel>,
    fields: Seq<FieldDefinition>,
    items: Seq<SelectionItem>,
    prefix: Seq<char>,
    k: int,
    n: int,
)
    requires
        0 < k <= n <= items.len(),
        expand_upto(types, reg, fields, items, prefix, k) is Err,
    ensures
        expand_upto(types, reg, fields, items, prefix, n) == expand_upto(types, reg, fields, items, prefix, k),
    decreases n - k,
{
    if k < n {
        lemma_expand_error_persists(types, reg, fields, items, prefix, k, n - 1);
    }
}

/// Expands every nested object or interface selection of `selection`, resolved
/// against the field table `fields`, into the registry; fails on the first
/// selected field that `fields` lacks, at any depth.
pub fn field_impls_for_selection(
    context: &mut QueryContext,
    schema: &Schema,
    fields: &Vec<FieldDefinition>,
    selection: &Selection,
    prefix: &str,
) -> (r: Result<(), GenError>)
    requires
        old(context).wf(),
    ensures
        final(context).wf(),
        expand_view(r, final(context)@) == expand_spec(
            schema.types@,
            old(context)@,
            fields@,
            (selection.0)@,
            prefix@,
        ),
    decreases (selection.0)@, (selection.0)@.len(),
{
    let ghost reg0 = context@;
    let mut i: usize = 0;
    while i < selection.0.len()
        invariant
            i <= selection.0.len(),
            reg0 == old(context)@,
            context.wf(),
            expand_upto(schema.types@, reg0, fields@, (selection.0)@, prefix@, i as int) == Ok::<
                Seq<GeneratedModel>,
                ErrModel,
            >(context@),
        decreases selection.0.len() - i,
    {
        let item = &selection.0[i];
        match item {
            SelectionItem::Field(f) => {
                match find_field(fields, f.name.as_str()) {
                    None => {
                        let e = GenError::FieldNotFound(f.name.clone());
                        proof {
                            assert(expand_upto(schema.types@, reg0, fields@, (selection.0)@, prefix@, i + 1) == Err::<
                                Seq<GeneratedModel>,
                                ErrModel,
                            >(e@));
                            lemma_expand_error_persists(
                                schema.types@,
                                reg0,
                                fields@,
                                (selection.0)@,
                                prefix@,
                                i + 1,
                                selection.0.len() as int,
                            );
                        }
                        return Err(e);
                    },
                    Some(k) => {
                        let path = type_path(prefix, f.name.as_str());
                        proof {
                            assert(decreases_to!((selection.0)@ => (f.fields.0)@));
                        }
                        match context.maybe_expand_field(
                            schema,
                            fields[k].type_ref.base.as_str(),
                            &f.fields,
                            path.as_str(),
                        ) {
                            Err(e) => {
                                proof {
                                    assert(expand_upto(schema.types@, reg0, fields@, (selection.0)@, prefix@, i + 1) == Err::<
                                    Seq<GeneratedModel>,
                                    ErrModel,
                                >(e@));
                                assert(expand_upto(schema.types@, reg0, fields@, (selection.0)@, prefix@, i + 1) == Err::<
                                Seq<GeneratedModel>,
                                ErrModel,
                            >(e@));
                            lemma_expand_error_persists(
                                        schema.types@,
                                        reg0,
                                        fields@,
                                        (selection.0)@,
                                        prefix@,
                                        i + 1,
                                        selection.0.len() as int,
                                    );
                                }
                                return Err(e);
                            },
                            Ok(()) => {},
                        }
                    },
                }
            },
            _ => {},
        }
        i = i + 1;
    }
    Ok(())
}

proof fn lemma_insert_registers(reg: Seq<GeneratedModel>, m: GeneratedModel)
    ensures
        registered(insert_type(reg, m), m.name),
        names_unique(reg) ==> names_unique(insert_type(reg, m)),
{
    if !registered(reg, m.name) {
        let r = reg.push(m);
        assert(r[reg.len() as int].name == m.name);
    }
}

/// Requesting the same expansion again in the registry that the first request
/// produced succeeds and leaves that registry unchanged: no type is generated
/// twice.
pub proof fn lemma_expand_idempotent(
    types: Seq<SchemaType>,
    reg: Seq<GeneratedModel>,
    base: Seq<char>,
    sel: Seq<SelectionItem>,
    path: Seq<char>,
    reg1: Seq<GeneratedModel>,
)
    requires
        maybe_expand_spec(types, reg, base, sel, path) == Ok::<Seq<GeneratedModel>, ErrModel>(reg1),
    ensures
        maybe_expand_spec(types, reg1, base, sel, path) == Ok::<Seq<GeneratedModel>, ErrModel>(reg1),
{
    if let Some(fields) = composite_fields(types, base) {
        if !registered(reg, path) {
            let reg2 = expand_upto(types, reg, fields, sel, path, sel.len() as int)->Ok_0;
            let ds = render_spec(types, fields, sel, path)->Ok_0;
            lemma_insert_registers(reg2, GeneratedModel { name: path, fields: ds });
        }
    }
}

/// Expansion keeps the names in the registry unique.
pub proof fn lemma_maybe_expand_unique(
    types: Seq<SchemaType>,
    reg: Seq<GeneratedModel>,
    base: Seq<char>,
    sel: Seq<SelectionItem>,
    path: Seq<char>,
)
    requires
        names_unique(reg),
    ensures
        maybe_expand_spec(types, reg, base, sel, path) matches Ok(r) ==> names_unique(r),
    decreases sel, sel.len() + 1,
{
    if let Some(fields) = composite_fields(types, base) {
        if !registered(reg, path) {
            lemma_expand_upto_unique(types, reg, fields, sel, path, sel.len() as int);
            if let Ok(reg2) = expand_upto(types, reg, fields, sel, path, sel.len() as int) {
                if let Ok(ds) = render_spec(types, fields, sel, path) {
                    lemma_insert_registers(reg2, GeneratedModel { name: path, fields: ds });
                }
            }
        }
    }
}

/// Expanding a selection set keeps the names in the registry unique.
pub proof fn lemma_expand_upto_unique(
    types: Seq<SchemaType>,
    reg: Seq<GeneratedModel>,
    fields: Seq<FieldDefinition>,
    items: Seq<SelectionItem>,
    prefix: Seq<char>,
    n: int,
)
    requires
        names_unique(reg),
    ensures
        expand_upto(types, reg, fields, items, prefix, n) matches Ok(r) ==> names_unique(r),
    decreases items, n,
{
    if 0 < n <= items.len() {
        lemma_expand_upto_unique(types, reg, fields, items, prefix, n - 1);
        if let Ok(reg1) = expand_upto(types, reg, fields, items, prefix, n - 1) {
            if let SelectionItem::Field(f) = items[n - 1] {
                if let Some(d) = lookup_field(fields, f.name@) {
                    assert(decreases_to!(items => (f.fields.0)@));
                    lemma_maybe_expand_unique(
                        types,
                        reg1,
                        d.type_ref.base@,
                        (f.fields.0)@,
                        path_spec(prefix, f.name@),
                    );
                }
            }
        }
    }
}

} // verus!
