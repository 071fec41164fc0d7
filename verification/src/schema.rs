//! The schema model: the metadata of a type definition after validation, with
//! every required field present and every optional field defaulted.

use crate::definition::{
    text_of, views_of, DefinitionKind, TypeDefinition, TypeDefinitionView, VariantDefinition,
    VariantDefinitionView, VariantShape,
};
use vstd::prelude::*;

verus! {

/// Why a type definition was rejected.
#[derive(Clone, Copy, Debug, PartialEq, Eq, Structural)]
pub enum SchemaError {
    /// The type carries no carrier type.
    MissingCarrierType,
    /// The type carries no code prefix.
    MissingCodePrefix,
    /// The type is a struct or a union.
    NotAnEnum,
    /// The variant at this position, counted from zero, carries no short code.
    MissingShortCode { variant: usize },
}

/// The metadata of the type itself.
#[derive(Clone, Debug, PartialEq, Eq)]
pub struct TypeSchema {
    pub carrier_type: String,
    pub code_prefix: String,
}

/// The mathematical value of a [`TypeSchema`].
pub struct TypeSchemaView {
    pub carrier_type: Seq<char>,
    pub code_prefix: Seq<char>,
}

/// The metadata of one variant.
#[derive(Clone, Debug, PartialEq, Eq)]
pub struct VariantSchema {
    pub short_code: String,
    pub carrier_code: String,
    pub client_message: String,
}

/// The mathematical value of a [`VariantSchema`].
pub struct VariantSchemaView {
    pub short_code: Seq<char>,
    pub carrier_code: Seq<char>,
    pub client_message: Seq<char>,
}

/// One variant of a validated enum.
#[derive(Clone, Debug, PartialEq, Eq)]
pub struct SchemaVariant {
    pub name: String,
    pub shape: VariantShape,
    pub schema: VariantSchema,
}

/// The mathematical value of a [`SchemaVariant`].
pub struct SchemaVariantView {
    pub name: Seq<char>,
    pub shape: VariantShape,
    pub schema: VariantSchemaView,
}

/// A validated enum: its name and generics, its own metadata and its variants
/// in declared order.
#[derive(Clone, Debug, PartialEq, Eq)]
pub struct SchemaModel {
    pub name: String,
    pub generics: String,
    pub schema: TypeSchema,
    pub variants: Vec<SchemaVariant>,
}

/// The mathematical value of a [`SchemaModel`].
pub struct SchemaModelView {
    pub name: Seq<char>,
    pub generics: Seq<char>,
    pub schema: TypeSchemaView,
    pub variants: Seq<SchemaVariantView>,
}

impl View for TypeSchema {
    type V = TypeSchemaView;

    open spec fn view(&self) -> TypeSchemaView {
        TypeSchemaView { carrier_type: self.carrier_type@, code_prefix: self.code_prefix@ }
    }
}

impl View for VariantSchema {
    type V = VariantSchemaView;

    open spec fn view(&self) -> VariantSchemaView {
        VariantSchemaView {
            short_code: self.short_code@,
            carrier_code: self.carrier_code@,
            client_message: self.client_message@,
        }
    }
}

impl View for SchemaVariant {
    type V = SchemaVariantView;

    open spec fn view(&self) -> SchemaVariantView {
        SchemaVariantView { name: self.name@, shape: self.shape, schema: self.schema@ }
    }
}

impl View for SchemaModel {
    type V = SchemaModelView;

    open spec fn view(&self) -> SchemaModelView {
        SchemaModelView {
            name: self.name@,
            generics: self.generics@,
            schema: self.schema@,
            variants: views_of(self.variants@),
        }
    }
}

/// An optional field's text, or the empty text where it was not written.
pub open spec fn or_empty(field: Option<Seq<char>>) -> Seq<char> {
    match field {
        Some(text) => text,
        None => Seq::empty(),
    }
}

/// Variant `i` exists and carries no short code.
pub open spec fn lacks_short_code(variants: Seq<VariantDefinitionView>, i: int) -> bool {
    0 <= i < variants.len() && variants[i].short_code is None
}

/// Variant `i` is the first, in declared order, that carries no short code.
pub open spec fn first_lacking_short_code(variants: Seq<VariantDefinitionView>, i: int) -> bool {
    lacks_short_code(variants, i) && forall|j: int| 0 <= j < i ==> !lacks_short_code(variants, j)
}

/// The error that a definition is rejected with, or `None` where it is valid.
/// The type's own metadata is looked at first, then the kind of the type,
/// then the variants in declared order.
pub open spec fn schema_violation(def: TypeDefinitionView) -> Option<SchemaError> {
    if def.carrier_type is None {
        Some(SchemaError::MissingCarrierType)
    } else if def.code_prefix is None {
        Some(SchemaError::MissingCodePrefix)
    } else if def.kind != DefinitionKind::Enum {
        Some(SchemaError::NotAnEnum)
    } else if exists|i: int| lacks_short_code(def.variants, i) {
        Some(
            SchemaError::MissingShortCode {
                variant: (choose|i: int| first_lacking_short_code(def.variants, i)) as usize,
            },
        )
    } else {
        None
    }
}

/// Among the variants of an enum whose own metadata is complete, the one
/// reported is the first without a short code.
pub proof fn lemma_first_lacking_is_reported(def: TypeDefinitionView, i: int)
    requires
        def.carrier_type is Some,
        def.code_prefix is Some,
        def.kind == DefinitionKind::Enum,
        first_lacking_short_code(def.variants, i),
    ensures
        schema_violation(def) == Some(SchemaError::MissingShortCode { variant: i as usize }),
{
    let chosen = choose|k: int| first_lacking_short_code(def.variants, k);
    assert(chosen == i);
}

/// The schema of a variant that carries a short code.
pub open spec fn variant_schema(variant: VariantDefinitionView) -> VariantSchemaView {
    VariantSchemaView {
        short_code: variant.short_code->0,
        carrier_code: or_empty(variant.carrier_code),
        client_message: or_empty(variant.client_message),
    }
}

/// The validated form of a variant that carries a short code.
pub open spec fn schema_variant(variant: VariantDefinitionView) -> SchemaVariantView {
    SchemaVariantView { name: variant.name, shape: variant.shape, schema: variant_schema(variant) }
}

/// The schema model of a valid definition.
pub open spec fn schema_model(def: TypeDefinitionView) -> SchemaModelView {
    SchemaModelView {
        name: def.name,
        generics: def.generics,
        schema: TypeSchemaView {
            carrier_type: def.carrier_type->0,
            code_prefix: def.code_prefix->0,
        },
        variants: Seq::new(def.variants.len(), |i: int| schema_variant(def.variants[i])),
    }
}

/// No two variants carry the same short code.
pub open spec fn unique_codes(variants: Seq<SchemaVariantView>) -> bool {
    forall|i: int, j: int|
        #![trigger variants[i], variants[j]]
        0 <= i < j < variants.len() ==> variants[i].schema.short_code
            != variants[j].schema.short_code
}

/// A copy of an optional field, empty where the field was not written.
fn text_or_empty(field: &Option<String>) -> (text: String)
    ensures
        text@ == or_empty(text_of(*field)),
{
    match field {
        Some(written) => written.clone(),
        None => String::new(),
    }
}

impl VariantSchema {
    /// Reads the metadata of one variant. The short code is required; the
    /// carrier code and the client message are empty where they were not
    /// written.
    pub fn from_definition(variant: &VariantDefinition) -> (result: Option<VariantSchema>)
        ensures
            result is Some <==> variant@.short_code is Some,
            result matches Some(schema) ==> schema@ == variant_schema(variant@),
    {
        match &variant.short_code {
            Some(short_code) => Some(
                VariantSchema {
                    short_code: short_code.clone(),
                    carrier_code: text_or_empty(&variant.carrier_code),
                    client_message: text_or_empty(&variant.client_message),
                },
            ),
            None => None,
        }
    }
}

impl TypeSchema {
    /// Reads the metadata of the type itself. Both fields are required; where
    /// both are absent the carrier type is the one reported.
    pub fn from_definition(def: &TypeDefinition) -> (result: Result<TypeSchema, SchemaError>)
        ensures
            match result {
                Ok(schema) => {
                    &&& def@.carrier_type == Some(schema@.carrier_type)
                    &&& def@.code_prefix == Some(schema@.code_prefix)
                },
                Err(error) => {
                    if def@.carrier_type is None {
                        error == SchemaError::MissingCarrierType
                    } else {
                        def@.code_prefix is None && error == SchemaError::MissingCodePrefix
                    }
                },
            },
    {
        match &def.carrier_type {
            None => Err(SchemaError::MissingCarrierType),
            Some(carrier_type) => match &def.code_prefix {
                None => Err(SchemaError::MissingCodePrefix),
                Some(code_prefix) => Ok(
                    TypeSchema {
                        carrier_type: carrier_type.clone(),
                        code_prefix: code_prefix.clone(),
                    },
                ),
            },
        }
    }
}

impl SchemaModel {
    /// Whether no two variants carry the same short code. Validation does not
    /// ask for this: a caller that wants distinct codes asks here.
    pub fn has_unique_codes(&self) -> (unique: bool)
        ensures
            unique == unique_codes(self@.variants),
    {
        let ghost all = self@.variants;
        let mut j: usize = 0;
        while j < self.variants.len()
            invariant
                all == self@.variants,
                j <= self.variants.len(),
                unique_codes(all.take(j as int)),
            decreases self.variants.len() - j,
        {
            let mut i: usize = 0;
            while i < j
                invariant
                    all == self@.variants,
                    i <= j < self.variants.len(),
                    forall|k: int|
                        0 <= k < i ==> (#[trigger] all[k]).schema.short_code
                            != all[j as int].schema.short_code,
                decreases j - i,
            {
                if self.variants[i].schema.short_code == self.variants[j].schema.short_code {
                    assert(all[i as int].schema.short_code == all[j as int].schema.short_code);
                    return false;
                }
                i += 1;
            }
            assert(unique_codes(all.take(j + 1))) by {
                let before = all.take(j as int);
                let with = all.take(j + 1);
                assert forall|a: int, b: int| 0 <= a < b < with.len() implies (
                #[trigger] with[a]).schema.short_code != (#[trigger] with[b]).schema.short_code by {
                    if b < j {
                        assert(before[a] == with[a] && before[b] == with[b]);
                    }
                }
            }
            j += 1;
        }
        assert(all.take(j as int) == all);
        true
    }

    /// Validates a type definition and reads its metadata. A definition is
    /// accepted exactly when nothing violates the schema, and is otherwise
    /// rejected with the first violation.
    pub fn from_definition(def: &TypeDefinition) -> (result: Result<SchemaModel, SchemaError>)
        ensures
            match result {
                Ok(model) => schema_violation(def@) is None && model@ == schema_model(def@),
                Err(error) => schema_violation(def@) == Some(error),
            },
    {
        let schema = match TypeSchema::from_definition(def) {
            Ok(schema) => schema,
            Err(error) => {
                return Err(error);
            },
        };
        if !matches!(def.kind, DefinitionKind::Enum) {
            return Err(SchemaError::NotAnEnum);
        }
        let mut variants: Vec<SchemaVariant> = Vec::new();
        let mut i: usize = 0;
        while i < def.variants.len()
            invariant
                def@.carrier_type is Some,
                def@.code_prefix is Some,
                def.kind == DefinitionKind::Enum,
                i <= def.variants.len(),
                variants@.len() == i,
                forall|j: int| 0 <= j < i ==> !lacks_short_code(def@.variants, j),
                forall|j: int|
                    0 <= j < i ==> (#[trigger] variants@[j])@ == schema_variant(def@.variants[j]),
            decreases def.variants.len() - i,
        {
            let variant = &def.variants[i];
            assert(def@.variants[i as int] == variant@);
            match VariantSchema::from_definition(variant) {
                Some(variant_schema) => {
                    variants.push(
                        SchemaVariant {
                            name: variant.name.clone(),
                            shape: variant.shape,
                            schema: variant_schema,
                        },
                    );
                },
                None => {
                    proof {
                        lemma_first_lacking_is_reported(def@, i as int);
                    }
                    return Err(SchemaError::MissingShortCode { variant: i });
                },
            }
            i += 1;
        }
        let model = SchemaModel {
            name: def.name.clone(),
            generics: def.generics.clone(),
            schema,
            variants,
        };
        assert(model@.variants =~= schema_model(def@).variants);
        Ok(model)
    }
}

} // verus!
