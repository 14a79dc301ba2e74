//! The parser plan: what schema compilation hands to the matcher.
use vstd::prelude::*;
use crate::schema::ElementType;

verus! {

/// One argument as the matcher and the help see it.
#[derive(Clone, Debug, PartialEq, Eq)]
pub struct DerivedArgument {
    /// The identifier of the field.
    pub identifier: String,
    /// The long spelling, with its two hyphens.
    pub long_name: String,
    /// The short character, if the argument has one.
    pub short_name: Option<char>,
    /// The type its values are coerced to.
    pub element_type: ElementType,
    /// Whether the value must be given.
    pub required: bool,
    /// The formatted help of the argument.
    pub help_line: String,
}

/// A [`DerivedArgument`] as plain mathematical values.
pub struct DerivedModel {
    pub identifier: Seq<char>,
    pub long_name: Seq<char>,
    pub short_name: Option<char>,
    pub element_type: ElementType,
    pub required: bool,
    pub help_line: Seq<char>,
}

impl View for DerivedArgument {
    type V = DerivedModel;

    open spec fn view(&self) -> DerivedModel {
        DerivedModel {
            identifier: self.identifier@,
            long_name: self.long_name@,
            short_name: self.short_name,
            element_type: self.element_type,
            required: self.required,
            help_line: self.help_line@,
        }
    }
}

/// The views of a list of derived arguments.
pub open spec fn derived_view(args: Seq<DerivedArgument>) -> Seq<DerivedModel> {
    args.map_values(|a: DerivedArgument| a@)
}

/// The compiled schema. The matcher only reads it.
#[derive(Clone, Debug, PartialEq, Eq)]
pub struct ParserPlan {
    /// The declared flags, in declaration order.
    pub flags: Vec<DerivedArgument>,
    /// The declared options, in declaration order.
    pub options: Vec<DerivedArgument>,
    /// The positional field, if the schema has one.
    pub positional: Option<DerivedArgument>,
    /// The alignment width of the flags section of the help.
    pub flags_width: usize,
    /// The alignment width of the options section of the help.
    pub options_width: usize,
    /// The whole help text.
    pub help: String,
    /// The line that names the program and its version.
    pub version: String,
}

/// A [`ParserPlan`] as plain mathematical values.
pub struct PlanModel {
    pub flags: Seq<DerivedModel>,
    pub options: Seq<DerivedModel>,
    pub positional: Option<DerivedModel>,
    pub flags_width: nat,
    pub options_width: nat,
    pub help: Seq<char>,
    pub version: Seq<char>,
}

impl View for ParserPlan {
    type V = PlanModel;

    open spec fn view(&self) -> PlanModel {
        PlanModel {
            flags: derived_view(self.flags@),
            options: derived_view(self.options@),
            positional: match self.positional {
                Some(p) => Some(p@),
                None => None,
            },
            flags_width: self.flags_width as nat,
            options_width: self.options_width as nat,
            help: self.help@,
            version: self.version@,
        }
    }
}

} // verus!
