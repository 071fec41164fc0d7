//! The text of a dispatch: the source of the trait implementation that the
//! host splices into the program.

use crate::definition::VariantShape;
use crate::dispatch::{
    Dispatch, DispatchArm, DispatchArmView, DispatchView, MatchPattern, MatchPatternView,
};
use crate::literal::{literal_text, push_literal};
use vstd::prelude::*;

verus! {

/// What follows a variant's name in a pattern: nothing where the variant has
/// no payload, and otherwise the form that ignores every field.
pub open spec fn shape_text(shape: VariantShape) -> Seq<char> {
    match shape {
        VariantShape::NoPayload => Seq::empty(),
        VariantShape::Positional => "(..)"@,
        VariantShape::Named => " { .. }"@,
    }
}

/// The text of a pattern.
pub open spec fn pattern_text(pattern: MatchPatternView) -> Seq<char> {
    pattern.enum_name + "::"@ + pattern.variant_name + shape_text(pattern.shape)
}

/// The text of the record that an arm builds: the carrier code, the full
/// code and the client message as string literals, then the matched value
/// itself, whatever the variant's shape.
pub open spec fn record_text(arm: DispatchArmView) -> Seq<char> {
    "ErrorInfo::new("@ + literal_text(arm.carrier_code) + ", "@ + literal_text(arm.full_code)
        + ", "@ + literal_text(arm.client_message) + ", self,)"@
}

/// The text of an arm: the pattern, then the block that builds the record.
pub open spec fn arm_text(arm: DispatchArmView) -> Seq<char> {
    "            "@ + pattern_text(arm.pattern) + " => { "@ + record_text(arm) + " }"@
}

/// The text of the arms, in order, with a comma between two of them.
pub open spec fn arms_text(arms: Seq<DispatchArmView>) -> Seq<char>
    decreases arms.len(),
{
    if arms.len() == 0 {
        Seq::empty()
    } else if arms.len() == 1 {
        arm_text(arms[0])
    } else {
        arms_text(arms.drop_last()) + ",\n"@ + arm_text(arms.last())
    }
}

/// The text of the whole trait implementation.
pub open spec fn dispatch_text(dispatch: DispatchView) -> Seq<char> {
    "use error_code::{ErrorInfo, ToErrorInfo as _};\nimpl"@ + dispatch.generics
        + " ToErrorInfo for "@ + dispatch.enum_name + dispatch.generics + " {\n    type T = "@
        + dispatch.carrier_type
        + ";\n    fn to_error_info(&self) -> ErrorInfo<Self::T> {\n        match self {\n"@
        + arms_text(dispatch.arms) + "\n        }\n    }\n}\n"@
}

impl MatchPattern {
    /// Writes the pattern out.
    pub fn render(&self) -> (text: String)
        ensures
            text@ == pattern_text(self@),
    {
        let mut text = self.enum_name.clone();
        text.append("::");
        text.append(self.variant_name.as_str());
        match self.shape {
            VariantShape::NoPayload => {},
            VariantShape::Positional => {
                text.append("(..)");
            },
            VariantShape::Named => {
                text.append(" { .. }");
            },
        }
        text
    }
}

impl DispatchArm {
    /// Writes out the record that the arm builds.
    pub fn render_record(&self) -> (text: String)
        ensures
            text@ == record_text(self@),
    {
        let mut text = String::from_str("ErrorInfo::new(");
        push_literal(&mut text, self.carrier_code.as_str());
        text.append(", ");
        push_literal(&mut text, self.full_code.as_str());
        text.append(", ");
        push_literal(&mut text, self.client_message.as_str());
        text.append(", self,)");
        text
    }

    /// Writes the arm out.
    pub fn render(&self) -> (text: String)
        ensures
            text@ == arm_text(self@),
    {
        let mut text = String::from_str("            ");
        text.append(self.pattern.render().as_str());
        text.append(" => { ");
        text.append(self.render_record().as_str());
        text.append(" }");
        text
    }
}

impl Dispatch {
    /// Writes the trait implementation out.
    pub fn render(&self) -> (text: String)
        ensures
            text@ == dispatch_text(self@),
    {
        let mut text = String::from_str("use error_code::{ErrorInfo, ToErrorInfo as _};\nimpl");
        text.append(self.generics.as_str());
        text.append(" ToErrorInfo for ");
        text.append(self.enum_name.as_str());
        text.append(self.generics.as_str());
        text.append(" {\n    type T = ");
        text.append(self.carrier_type.as_str());
        text.append(";\n    fn to_error_info(&self) -> ErrorInfo<Self::T> {\n        match self {\n");
        let ghost head = text@;
        let mut i: usize = 0;
        while i < self.arms.len()
            invariant
                i <= self.arms.len(),
                text@ == head + arms_text(self@.arms.take(i as int)),
            decreases self.arms.len() - i,
        {
            if i > 0 {
                text.append(",\n");
            }
            let arm = &self.arms[i];
            assert(self@.arms[i as int] == arm@);
            assert(self@.arms.take(i + 1).drop_last() == self@.arms.take(i as int));
            text.append(arm.render().as_str());
            i += 1;
        }
        assert(self@.arms.take(i as int) == self@.arms);
        text.append("\n        }\n    }\n}\n");
        text
    }
}

} // verus!
