//! The dispatch synthesizer: from a schema model to one match arm per variant,
//! held as data until it is rendered.

use crate::definition::{views_of, VariantShape};
use crate::schema::{
    unique_codes, SchemaModel, SchemaModelView, SchemaVariant, SchemaVariantView,
};
use vstd::prelude::*;

verus! {

/// The pattern of one arm. It names one variant and binds none of its fields.
#[derive(Clone, Debug, PartialEq, Eq)]
pub struct MatchPattern {
    pub enum_name: String,
    pub variant_name: String,
    pub shape: VariantShape,
}

/// The mathematical value of a [`MatchPattern`].
pub struct MatchPatternView {
    pub enum_name: Seq<char>,
    pub variant_name: Seq<char>,
    pub shape: VariantShape,
}

/// One arm: the pattern and what the record built for it holds. The record's
/// last argument is always the matched value itself.
#[derive(Clone, Debug, PartialEq, Eq)]
pub struct DispatchArm {
    pub pattern: MatchPattern,
    pub carrier_code: String,
    pub full_code: String,
    pub client_message: String,
}

/// The mathematical value of a [`DispatchArm`].
pub struct DispatchArmView {
    pub pattern: MatchPatternView,
    pub carrier_code: Seq<char>,
    pub full_code: Seq<char>,
    pub client_message: Seq<char>,
}

/// The whole trait implementation: for which type, with which carrier type,
/// and the arms in the order of the variants.
#[derive(Clone, Debug, PartialEq, Eq)]
pub struct Dispatch {
    pub enum_name: String,
    pub generics: String,
    pub carrier_type: String,
    pub arms: Vec<DispatchArm>,
}

/// The mathematical value of a [`Dispatch`].
pub struct DispatchView {
    pub enum_name: Seq<char>,
    pub generics: Seq<char>,
    pub carrier_type: Seq<char>,
    pub arms: Seq<DispatchArmView>,
}

impl View for MatchPattern {
    type V = MatchPatternView;

    open spec fn view(&self) -> MatchPatternView {
        MatchPatternView {
            enum_name: self.enum_name@,
            variant_name: self.variant_name@,
            shape: self.shape,
        }
    }
}

impl View for DispatchArm {
    type V = DispatchArmView;

    open spec fn view(&self) -> DispatchArmView {
        DispatchArmView {
            pattern: self.pattern@,
            carrier_code: self.carrier_code@,
            full_code: self.full_code@,
            client_message: self.client_message@,
        }
    }
}

impl View for Dispatch {
    type V = DispatchView;

    open spec fn view(&self) -> DispatchView {
        DispatchView {
            enum_name: self.enum_name@,
            generics: self.generics@,
            carrier_type: self.carrier_type@,
            arms: views_of(self.arms@),
        }
    }
}

/// The arm of one variant of the type `enum_name`, whose codes all begin with
/// `code_prefix`.
pub open spec fn arm_of(
    enum_name: Seq<char>,
    code_prefix: Seq<char>,
    variant: SchemaVariantView,
) -> DispatchArmView {
    DispatchArmView {
        pattern: MatchPatternView {
            enum_name,
            variant_name: variant.name,
            shape: variant.shape,
        },
        carrier_code: variant.schema.carrier_code,
        full_code: code_prefix + variant.schema.short_code,
        client_message: variant.schema.client_message,
    }
}

/// The dispatch of a schema model: arm `i` is the arm of variant `i`.
pub open spec fn dispatch_of(model: SchemaModelView) -> DispatchView {
    DispatchView {
        enum_name: model.name,
        generics: model.generics,
        carrier_type: model.schema.carrier_type,
        arms: Seq::new(
            model.variants.len(),
            |i: int| arm_of(model.name, model.schema.code_prefix, model.variants[i]),
        ),
    }
}

/// No two arms hold the same full code.
pub open spec fn distinct_full_codes(arms: Seq<DispatchArmView>) -> bool {
    forall|i: int, j: int|
        #![trigger arms[i], arms[j]]
        0 <= i < j < arms.len() ==> arms[i].full_code != arms[j].full_code
}

/// The full codes of the arms are distinct exactly when the short codes of
/// the variants are: a common prefix neither joins nor parts two codes.
pub proof fn lemma_full_codes_distinct(model: SchemaModelView)
    ensures
        distinct_full_codes(dispatch_of(model).arms) <==> unique_codes(model.variants),
{
    let arms = dispatch_of(model).arms;
    let prefix = model.schema.code_prefix;
    assert forall|i: int|
        0 <= i < arms.len() implies (#[trigger] arms[i]).full_code.skip(prefix.len() as int)
        == model.variants[i].schema.short_code by {
        assert((prefix + model.variants[i].schema.short_code).skip(prefix.len() as int)
            =~= model.variants[i].schema.short_code);
    }
    if unique_codes(model.variants) {
        assert forall|i: int, j: int| 0 <= i < j < arms.len() implies (#[trigger] arms[i]).full_code
            != (#[trigger] arms[j]).full_code by {
            assert(model.variants[i].schema.short_code != model.variants[j].schema.short_code);
        }
    }
    if distinct_full_codes(arms) {
        assert forall|i: int, j: int| 0 <= i < j < model.variants.len() implies (
        #[trigger] model.variants[i]).schema.short_code
            != (#[trigger] model.variants[j]).schema.short_code by {
            assert(arms[i].full_code != arms[j].full_code);
        }
    }
}

impl DispatchArm {
    /// Builds the arm of one variant.
    pub fn synthesize(enum_name: &String, code_prefix: &String, variant: &SchemaVariant) -> (arm:
        DispatchArm)
        ensures
            arm@ == arm_of(enum_name@, code_prefix@, variant@),
    {
        let mut full_code = code_prefix.clone();
        full_code.append(variant.schema.short_code.as_str());
        DispatchArm {
            pattern: MatchPattern {
                enum_name: enum_name.clone(),
                variant_name: variant.name.clone(),
                shape: variant.shape,
            },
            carrier_code: variant.schema.carrier_code.clone(),
            full_code,
            client_message: variant.schema.client_message.clone(),
        }
    }
}

impl Dispatch {
    /// Builds the dispatch of a schema model, one arm per variant, in the
    /// order of the variants. This cannot fail.
    pub fn synthesize(model: &SchemaModel) -> (dispatch: Dispatch)
        ensures
            dispatch@ == dispatch_of(model@),
    {
        let mut arms: Vec<DispatchArm> = Vec::new();
        let mut i: usize = 0;
        while i < model.variants.len()
            invariant
                i <= model.variants.len(),
                arms@.len() == i,
                forall|j: int|
                    0 <= j < i ==> (#[trigger] arms@[j])@ == arm_of(
                        model@.name,
                        model@.schema.code_prefix,
                        model@.variants[j],
                    ),
            decreases model.variants.len() - i,
        {
            let variant = &model.variants[i];
            assert(model@.variants[i as int] == variant@);
            arms.push(DispatchArm::synthesize(&model.name, &model.schema.code_prefix, variant));
            i += 1;
        }
        let dispatch = Dispatch {
            enum_name: model.name.clone(),
            generics: model.generics.clone(),
            carrier_type: model.schema.carrier_type.clone(),
            arms,
        };
        assert(dispatch@.arms =~= dispatch_of(model@).arms);
        dispatch
    }
}

} // verus!
