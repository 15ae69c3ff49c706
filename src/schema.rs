//! The schema side: field tables of object and interface types, and type
//! references with their list and nullable wrappers.
use vstd::prelude::*;

verus! {

/// A wrapper around a named type.
#[derive(Clone, Copy, Debug, PartialEq, Eq, Structural)]
pub enum Modifier {
    Nullable,
    List,
}

/// A type reference: a named base type under wrappers, outermost first.
#[derive(Clone, Debug)]
pub struct TypeRef {
    pub base: String,
    pub modifiers: Vec<Modifier>,
}

/// The mathematical value of a type reference.
pub struct TypeModel {
    pub base: Seq<char>,
    pub modifiers: Seq<Modifier>,
}

impl View for TypeRef {
    type V = TypeModel;

    open spec fn view(&self) -> TypeModel {
        TypeModel { base: self.base@, modifiers: self.modifiers@ }
    }
}

/// A field declaration of a schema object or interface type.
#[derive(Clone, Debug)]
pub struct FieldDefinition {
    pub name: String,
    pub type_ref: TypeRef,
    pub description: Option<String>,
}

/// What kind of named type a schema type is.
#[derive(Clone, Copy, Debug, PartialEq, Eq, Structural)]
pub enum TypeKind {
    Object,
    Interface,
    Scalar,
    Enum,
}

/// A named schema type with its field table (empty for leaf types).
#[derive(Clone, Debug)]
pub struct SchemaType {
    pub name: String,
    pub kind: TypeKind,
    pub fields: Vec<FieldDefinition>,
}

/// The schema: its named types.
#[derive(Clone, Debug)]
pub struct Schema {
    pub types: Vec<SchemaType>,
}

/// The view of an optional string.
pub open spec fn opt_view(o: Option<String>) -> Option<Seq<char>> {
    match o {
        Some(s) => Some(s@),
        None => None,
    }
}

/// The index of the first field named `name`, searching from `i` on.
pub open spec fn find_field_from(fields: Seq<FieldDefinition>, name: Seq<char>, i: int) -> Option<
    int,
>
    decreases fields.len() - i,
{
    if i < 0 || i >= fields.len() {
        None
    } else if fields[i].name@ == name {
        Some(i)
    } else {
        find_field_from(fields, name, i + 1)
    }
}

/// The field named `name` in a field table: the first one, if any.
pub open spec fn lookup_field(fields: Seq<FieldDefinition>, name: Seq<char>) -> Option<
    FieldDefinition,
> {
    match find_field_from(fields, name, 0) {
        Some(i) => Some(fields[i]),
        None => None,
    }
}

/// The index of the first schema type named `name`, searching from `i` on.
pub open spec fn find_type_from(types: Seq<SchemaType>, name: Seq<char>, i: int) -> Option<int>
    decreases types.len() - i,
{
    if i < 0 || i >= types.len() {
        None
    } else if types[i].name@ == name {
        Some(i)
    } else {
        find_type_from(types, name, i + 1)
    }
}

/// The field table of the type named `name` when it is an object or an
/// interface; `None` for leaf types and for names the schema lacks.
pub open spec fn composite_fields(types: Seq<SchemaType>, name: Seq<char>) -> Option<
    Seq<FieldDefinition>,
> {
    match find_type_from(types, name, 0) {
        Some(i) => if types[i].kind is Object || types[i].kind is Interface {
            Some(types[i].fields@)
        } else {
            None
        },
        None => None,
    }
}

/// The output type expression of a schema type reference: the same wrappers,
/// around the generated type `path` when the base is an object or interface,
/// around the base itself otherwise.
pub open spec fn output_type_spec(types: Seq<SchemaType>, t: TypeModel, path: Seq<char>) -> TypeModel {
    TypeModel {
        base: if composite_fields(types, t.base) is Some {
            path
        } else {
            t.base
        },
        modifiers: t.modifiers,
    }
}

/// Finds the first field named `name`.
pub fn find_field(fields: &Vec<FieldDefinition>, name: &str) -> (r: Option<usize>)
    ensures
        match r {
            Some(i) => i < fields.len() && find_field_from(fields@, name@, 0) == Some(i as int),
            None => find_field_from(fields@, name@, 0) is None,
        },
{
    let target = String::from_str(name);
    let mut i: usize = 0;
    while i < fields.len()
        invariant
            i <= fields.len(),
            target@ == name@,
            find_field_from(fields@, name@, 0) == find_field_from(fields@, name@, i as int),
        decreases fields.len() - i,
    {
        if fields[i].name == target {
            return Some(i);
        }
        i = i + 1;
    }
    None
}

impl Schema {
    /// The field table of the type named `name` if it is an object or interface.
    pub fn composite_fields(&self, name: &str) -> (r: Option<&Vec<FieldDefinition>>)
        ensures
            match r {
                Some(f) => composite_fields(self.types@, name@) == Some(f@),
                None => composite_fields(self.types@, name@) is None,
            },
    {
        let target = String::from_str(name);
        let mut i: usize = 0;
        while i < self.types.len()
            invariant
                i <= self.types.len(),
                target@ == name@,
                find_type_from(self.types@, name@, 0) == find_type_from(self.types@, name@, i as int),
            decreases self.types.len() - i,
        {
            let t = &self.types[i];
            if t.name == target {
                return match t.kind {
                    TypeKind::Object | TypeKind::Interface => Some(&t.fields),
                    _ => None,
                };
            }
            i = i + 1;
        }
        None
    }

    /// The output type expression of `t`, naming the generated type `path`
    /// when `t`'s base is an object or interface.
    pub fn to_output_type(&self, t: &TypeRef, path: &str) -> (r: TypeRef)
        ensures
            r@ == output_type_spec(self.types@, t@, path@),
    {
        let base = match self.composite_fields(t.base.as_str()) {
            Some(_) => String::from_str(path),
            None => t.base.clone(),
        };
        let mut modifiers: Vec<Modifier> = Vec::new();
        let mut i: usize = 0;
        while i < t.modifiers.len()
            invariant
                i <= t.modifiers.len(),
                modifiers@ == t.modifiers@.subrange(0, i as int),
            decreases t.modifiers.len() - i,
        {
            modifiers.push(t.modifiers[i]);
            i = i + 1;
            assert(modifiers@ =~= t.modifiers@.subrange(0, i as int));
        }
        assert(modifiers@ =~= t.modifiers@);
        TypeRef { base, modifiers }
    }
}

} // verus!
