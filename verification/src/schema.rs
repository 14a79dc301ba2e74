//! The schema: field descriptors as they are declared, and the rules that
//! derive each argument's long and short spelling from its identifier.
use vstd::prelude::*;
use crate::text::lines_view;

verus! {

/// How an argument takes part in matching.
#[derive(Clone, Copy, Debug, PartialEq, Eq, Structural)]
pub enum ValueKind {
    /// A boolean switch; it consumes no value.
    Flag,
    /// An argument that consumes the token after it as its value.
    Opt,
    /// The one field that collects every token not matched otherwise.
    Positional,
}

/// The primitive kind of the values an argument holds.
#[derive(Clone, Copy, Debug, PartialEq, Eq, Structural)]
pub enum ElementType {
    Bool,
    I8,
    I16,
    I32,
    I64,
    I128,
    Isize,
    U8,
    U16,
    U32,
    U64,
    U128,
    Usize,
    /// A UTF-8 string.
    Text,
    /// A string in the platform's own representation.
    Platform,
    /// A filesystem path.
    Path,
}

/// The class of an element type as the help text shows it.
#[derive(Clone, Copy, Debug, PartialEq, Eq, Structural)]
pub enum ArgType {
    Bool,
    Number,
    OsStr,
    Path,
    Str,
}

impl ElementType {
    /// Whether values of this type are signed integers.
    pub open spec fn is_signed(self) -> bool {
        self == ElementType::I8 || self == ElementType::I16 || self == ElementType::I32 || self
            == ElementType::I64 || self == ElementType::I128 || self == ElementType::Isize
    }

    /// Whether values of this type are unsigned integers.
    pub open spec fn is_unsigned(self) -> bool {
        self == ElementType::U8 || self == ElementType::U16 || self == ElementType::U32 || self
            == ElementType::U64 || self == ElementType::U128 || self == ElementType::Usize
    }

    /// The help class of this type.
    pub open spec fn class(self) -> ArgType {
        if self == ElementType::Bool {
            ArgType::Bool
        } else if self == ElementType::Text {
            ArgType::Str
        } else if self == ElementType::Platform {
            ArgType::OsStr
        } else if self == ElementType::Path {
            ArgType::Path
        } else {
            ArgType::Number
        }
    }

    /// The help class of this type.
    pub fn arg_type(self) -> (r: ArgType)
        ensures
            r == self.class(),
    {
        match self {
            ElementType::Bool => ArgType::Bool,
            ElementType::Text => ArgType::Str,
            ElementType::Platform => ArgType::OsStr,
            ElementType::Path => ArgType::Path,
            _ => ArgType::Number,
        }
    }
}

impl ArgType {
    /// The type hint shown after an argument's name: empty for a flag,
    /// otherwise a space and the class in angle brackets.
    pub open spec fn hint(self) -> Seq<char> {
        match self {
            ArgType::Bool => Seq::empty(),
            ArgType::Number => seq![' ', '<', 'n', 'u', 'm', '>'],
            ArgType::OsStr => seq![' ', '<', 's', 't', 'r', '>'],
            ArgType::Path => seq![' ', '<', 'p', 'a', 't', 'h', '>'],
            ArgType::Str => seq![' ', '<', 's', 't', 'r', '>'],
        }
    }

    /// The type hint as text.
    pub fn as_str(self) -> (r: &'static str)
        ensures
            r@ == self.hint(),
    {
        proof {
            reveal_strlit("");
            reveal_strlit(" <num>");
            reveal_strlit(" <str>");
            reveal_strlit(" <path>");
        }
        match self {
            ArgType::Bool => "",
            ArgType::Number => " <num>",
            ArgType::OsStr => " <str>",
            ArgType::Path => " <path>",
            ArgType::Str => " <str>",
        }
    }
}

/// One declared argument.
#[derive(Clone, Debug, PartialEq, Eq)]
pub struct FieldDescriptor {
    /// The field's name; the long and short spellings derive from it.
    pub identifier: String,
    /// The documentation, line by line.
    pub documentation: Vec<String>,
    pub value_kind: ValueKind,
    pub element_type: ElementType,
    /// Whether the value must be given; it matters for `Opt` alone.
    pub required: bool,
    /// A short character chosen by hand.
    pub explicit_short: Option<char>,
    /// Whether the argument has a long spelling only.
    pub suppress_short: bool,
}

/// What a field descriptor says, as plain mathematical values.
pub struct FieldModel {
    pub identifier: Seq<char>,
    pub documentation: Seq<Seq<char>>,
    pub value_kind: ValueKind,
    pub element_type: ElementType,
    pub required: bool,
    pub explicit_short: Option<char>,
    pub suppress_short: bool,
}

impl View for FieldDescriptor {
    type V = FieldModel;

    open spec fn view(&self) -> FieldModel {
        FieldModel {
            identifier: self.identifier@,
            documentation: lines_view(self.documentation@),
            value_kind: self.value_kind,
            element_type: self.element_type,
            required: self.required,
            explicit_short: self.explicit_short,
            suppress_short: self.suppress_short,
        }
    }
}

/// The views of a list of field descriptors.
pub open spec fn fields_view(fields: Seq<FieldDescriptor>) -> Seq<FieldModel> {
    fields.map_values(|f: FieldDescriptor| f@)
}

/// A whole schema: the texts that head the help, and the declared fields in
/// declaration order.
#[derive(Clone, Debug, PartialEq, Eq)]
pub struct Schema {
    /// The package name, first on the help header.
    pub program: String,
    /// The package version.
    pub version: String,
    /// The one-line description of the package.
    pub description: String,
    /// The name of the executable, shown on the usage line.
    pub bin_name: String,
    /// The documentation of the argument record, line by line.
    pub documentation: Vec<String>,
    pub fields: Vec<FieldDescriptor>,
}

/// What a schema says, as plain mathematical values.
pub struct SchemaModel {
    pub program: Seq<char>,
    pub version: Seq<char>,
    pub description: Seq<char>,
    pub bin_name: Seq<char>,
    pub documentation: Seq<Seq<char>>,
    pub fields: Seq<FieldModel>,
}

impl View for Schema {
    type V = SchemaModel;

    open spec fn view(&self) -> SchemaModel {
        SchemaModel {
            program: self.program@,
            version: self.version@,
            description: self.description@,
            bin_name: self.bin_name@,
            documentation: lines_view(self.documentation@),
            fields: fields_view(self.fields@),
        }
    }
}

} // verus!
