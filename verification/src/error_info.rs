//! The generator as one function, from a type definition to the text of the
//! trait implementation or the reason why there is none.

use crate::definition::{
    distinct_names, DefinitionKind, TypeDefinition, TypeDefinitionView, VariantShape,
};
use crate::dispatch::{dispatch_of, Dispatch, DispatchView};
use crate::literal::{lemma_literal_denotes_value, literal_text, literal_value};
use crate::render::{dispatch_text, pattern_text, record_text};
use crate::schema::{schema_model, schema_violation, SchemaError, SchemaModel};
use vstd::prelude::*;

verus! {

/// The dispatch synthesized for a valid definition.
pub open spec fn generated_dispatch(def: TypeDefinitionView) -> DispatchView {
    dispatch_of(schema_model(def))
}

/// The text generated for a valid definition.
pub open spec fn generated_text(def: TypeDefinitionView) -> Seq<char> {
    dispatch_text(generated_dispatch(def))
}

/// Validates a type definition and generates the trait implementation for it.
/// A definition that violates the schema gives the first violation and no
/// text; every other definition gives its text.
pub fn process_error_info(def: &TypeDefinition) -> (result: Result<String, SchemaError>)
    ensures
        match result {
            Ok(text) => schema_violation(def@) is None && text@ == generated_text(def@),
            Err(error) => schema_violation(def@) == Some(error),
        },
{
    match SchemaModel::from_definition(def) {
        Ok(model) => Ok(Dispatch::synthesize(&model).render()),
        Err(error) => Err(error),
    }
}

/// A valid enum with N variants gets exactly N arms, and arm `i` is the arm
/// of variant `i`: its pattern names that variant of that enum, with the
/// variant's shape.
pub proof fn lemma_one_arm_per_variant(def: TypeDefinitionView)
    requires
        schema_violation(def) is None,
    ensures
        generated_dispatch(def).arms.len() == def.variants.len(),
        forall|i: int|
            #![trigger generated_dispatch(def).arms[i]]
            0 <= i < def.variants.len() ==> {
                let pattern = generated_dispatch(def).arms[i].pattern;
                &&& pattern.enum_name == def.name
                &&& pattern.variant_name == def.variants[i].name
                &&& pattern.shape == def.variants[i].shape
            },
{
}

/// Where the variants have distinct names, a variant is named by its own arm
/// and by no other: no variant is left without an arm, and none has two.
pub proof fn lemma_variant_has_exactly_one_arm(def: TypeDefinitionView, i: int)
    requires
        schema_violation(def) is None,
        distinct_names(def.variants),
        0 <= i < def.variants.len(),
    ensures
        forall|j: int|
            #![trigger generated_dispatch(def).arms[j]]
            0 <= j < generated_dispatch(def).arms.len() ==> (generated_dispatch(
                def,
            ).arms[j].pattern.variant_name == def.variants[i].name <==> j == i),
{
    assert forall|j: int|
        #![trigger generated_dispatch(def).arms[j]]
        0 <= j < generated_dispatch(def).arms.len() implies (generated_dispatch(
        def,
    ).arms[j].pattern.variant_name == def.variants[i].name <==> j == i) by {
        if j < i {
            assert(def.variants[j].name != def.variants[i].name);
        } else if i < j {
            assert(def.variants[i].name != def.variants[j].name);
        }
    }
}

/// The full code of an arm is the type's code prefix followed at once by the
/// variant's short code, and the literal written into the record denotes
/// exactly that.
pub proof fn lemma_full_code_is_prefix_then_short_code(def: TypeDefinitionView, i: int)
    requires
        schema_violation(def) is None,
        0 <= i < def.variants.len(),
    ensures
        generated_dispatch(def).arms[i].full_code == def.code_prefix->0
            + def.variants[i].short_code->0,
        literal_value(literal_text(generated_dispatch(def).arms[i].full_code)) == Some(
            def.code_prefix->0 + def.variants[i].short_code->0,
        ),
{
    lemma_literal_denotes_value(generated_dispatch(def).arms[i].full_code);
}

/// A carrier code or a client message that was not written is empty in the
/// arm, and one that was written is carried over unchanged.
pub proof fn lemma_omitted_fields_are_empty(def: TypeDefinitionView, i: int)
    requires
        schema_violation(def) is None,
        0 <= i < def.variants.len(),
    ensures
        generated_dispatch(def).arms[i].carrier_code == match def.variants[i].carrier_code {
            Some(written) => written,
            None => Seq::empty(),
        },
        generated_dispatch(def).arms[i].client_message == match def.variants[i].client_message {
            Some(written) => written,
            None => Seq::empty(),
        },
{
}

/// A type without a carrier type or without a code prefix is rejected for
/// that, whatever else it holds: nothing is synthesized for it.
pub proof fn lemma_type_metadata_is_required(def: TypeDefinitionView)
    requires
        def.carrier_type is None || def.code_prefix is None,
    ensures
        schema_violation(def) == Some(
            if def.carrier_type is None {
                SchemaError::MissingCarrierType
            } else {
                SchemaError::MissingCodePrefix
            },
        ),
{
}

/// The pattern of an arm follows the shape of its variant and binds no field:
/// the variant's path alone where there is no payload, and otherwise the path
/// with the form that ignores every field. The record is the same text for
/// every shape and ends with the matched value itself.
pub proof fn lemma_pattern_follows_shape(def: TypeDefinitionView, i: int)
    requires
        schema_violation(def) is None,
        0 <= i < def.variants.len(),
    ensures
        ({
            let arm = generated_dispatch(def).arms[i];
            let path = def.name + "::"@ + def.variants[i].name;
            &&& pattern_text(arm.pattern) == match def.variants[i].shape {
                VariantShape::NoPayload => path,
                VariantShape::Positional => path + "(..)"@,
                VariantShape::Named => path + " { .. }"@,
            }
            &&& record_text(arm) == "ErrorInfo::new("@ + literal_text(arm.carrier_code) + ", "@
                + literal_text(arm.full_code) + ", "@ + literal_text(arm.client_message)
                + ", self,)"@
        }),
{
    let path = def.name + "::"@ + def.variants[i].name;
    assert(path + Seq::<char>::empty() =~= path);
}

/// A struct or a union is rejected, whatever metadata it carries. Where its
/// own metadata is complete, it is rejected for not being an enum.
pub proof fn lemma_non_enum_is_rejected(def: TypeDefinitionView)
    requires
        def.kind != DefinitionKind::Enum,
    ensures
        schema_violation(def) is Some,
        def.carrier_type is Some && def.code_prefix is Some ==> schema_violation(def) == Some(
            SchemaError::NotAnEnum,
        ),
{
}

} // verus!
