//! The type definition that the host hands to the generator: the declared
//! type, its variants with their shapes, and the metadata attached to each,
//! exactly as written. Nothing here has been validated yet.

use vstd::prelude::*;

verus! {

/// What kind of type a definition declares.
#[derive(Clone, Copy, Debug, PartialEq, Eq, Structural)]
pub enum DefinitionKind {
    Enum,
    Struct,
    Union,
}

/// How a variant carries its payload. The number and the types of the fields
/// play no part.
#[derive(Clone, Copy, Debug, PartialEq, Eq, Structural)]
pub enum VariantShape {
    /// `Variant`
    NoPayload,
    /// `Variant(A, B)`
    Positional,
    /// `Variant { a: A, b: B }`
    Named,
}

/// One declared variant with the metadata attached to it. A field that was
/// not written is `None`.
#[derive(Clone, Debug, PartialEq, Eq)]
pub struct VariantDefinition {
    pub name: String,
    pub shape: VariantShape,
    pub short_code: Option<String>,
    pub carrier_code: Option<String>,
    pub client_message: Option<String>,
}

/// The mathematical value of a [`VariantDefinition`].
pub struct VariantDefinitionView {
    pub name: Seq<char>,
    pub shape: VariantShape,
    pub short_code: Option<Seq<char>>,
    pub carrier_code: Option<Seq<char>>,
    pub client_message: Option<Seq<char>>,
}

/// A declared type with the metadata attached to it. `generics` and
/// `carrier_type` are source text that the generator never looks into.
#[derive(Clone, Debug, PartialEq, Eq)]
pub struct TypeDefinition {
    pub name: String,
    pub generics: String,
    pub kind: DefinitionKind,
    pub carrier_type: Option<String>,
    pub code_prefix: Option<String>,
    pub variants: Vec<VariantDefinition>,
}

/// The mathematical value of a [`TypeDefinition`].
pub struct TypeDefinitionView {
    pub name: Seq<char>,
    pub generics: Seq<char>,
    pub kind: DefinitionKind,
    pub carrier_type: Option<Seq<char>>,
    pub code_prefix: Option<Seq<char>>,
    pub variants: Seq<VariantDefinitionView>,
}

/// The characters of an optional string.
pub open spec fn text_of(field: Option<String>) -> Option<Seq<char>> {
    match field {
        Some(text) => Some(text@),
        None => None,
    }
}

/// The views of the items of a sequence, in the same order.
pub open spec fn views_of<T: View>(items: Seq<T>) -> Seq<T::V> {
    Seq::new(items.len(), |i: int| items[i]@)
}

/// No two variants share a name, as in every enum that compiles.
pub open spec fn distinct_names(variants: Seq<VariantDefinitionView>) -> bool {
    forall|i: int, j: int|
        #![trigger variants[i], variants[j]]
        0 <= i < j < variants.len() ==> variants[i].name != variants[j].name
}

impl View for VariantDefinition {
    type V = VariantDefinitionView;

    open spec fn view(&self) -> VariantDefinitionView {
        VariantDefinitionView {
            name: self.name@,
            shape: self.shape,
            short_code: text_of(self.short_code),
            carrier_code: text_of(self.carrier_code),
            client_message: text_of(self.client_message),
        }
    }
}

impl View for TypeDefinition {
    type V = TypeDefinitionView;

    open spec fn view(&self) -> TypeDefinitionView {
        TypeDefinitionView {
            name: self.name@,
            generics: self.generics@,
            kind: self.kind,
            carrier_type: text_of(self.carrier_type),
            code_prefix: text_of(self.code_prefix),
            variants: views_of(self.variants@),
        }
    }
}

} // verus!
