//! The errors of schema compilation and of a parse, each with the context a
//! caller needs to word a precise message.
use vstd::prelude::*;

verus! {

/// Why a schema cannot be compiled.
#[derive(Clone, Debug, PartialEq, Eq)]
pub enum SchemaError {
    /// Two arguments resolve to the same short character.
    DuplicateShortName {
        /// The contested character.
        short: char,
        /// The identifier of the argument that came second.
        identifier: String,
        /// The identifier of the argument that already owned the character.
        owner: String,
    },
    /// More than one field is positional.
    MultiplePositionalFields {
        /// The identifier of the first positional field.
        first: String,
        /// The identifier of the second positional field.
        second: String,
    },
}

/// A [`SchemaError`] as plain mathematical values.
pub enum SchemaErrorModel {
    DuplicateShortName { short: char, identifier: Seq<char>, owner: Seq<char> },
    MultiplePositionalFields { first: Seq<char>, second: Seq<char> },
}

impl View for SchemaError {
    type V = SchemaErrorModel;

    open spec fn view(&self) -> SchemaErrorModel {
        match self {
            SchemaError::DuplicateShortName { short, identifier, owner } => {
                SchemaErrorModel::DuplicateShortName {
                    short: *short,
                    identifier: identifier@,
                    owner: owner@,
                }
            },
            SchemaError::MultiplePositionalFields { first, second } => {
                SchemaErrorModel::MultiplePositionalFields { first: first@, second: second@ }
            },
        }
    }
}

/// The wording of a schema error.
pub open spec fn schema_message(error: SchemaErrorModel) -> Seq<char> {
    match error {
        SchemaErrorModel::DuplicateShortName { short, identifier, owner } => {
            "Only one short arg is allowed. `-"@.push(short) + "` on field `"@ + identifier
                + "` is also used on field `"@ + owner + "`"@
        },
        SchemaErrorModel::MultiplePositionalFields { first, second } => {
            "Only one positional field is allowed. Field `"@ + second
                + "` follows positional field `"@ + first + "`"@
        },
    }
}

impl SchemaError {
    /// The error in words, naming both fields.
    pub fn message(&self) -> (text: String)
        ensures
            text@ == schema_message(self@),
    {
        let mut text = String::new();
        match self {
            SchemaError::DuplicateShortName { short, identifier, owner } => {
                text.append("Only one short arg is allowed. `-");
                text.push(*short);
                text.append("` on field `");
                text.append(identifier.as_str());
                text.append("` is also used on field `");
                text.append(owner.as_str());
                text.append("`");
            },
            SchemaError::MultiplePositionalFields { first, second } => {
                text.append("Only one positional field is allowed. Field `");
                text.append(second.as_str());
                text.append("` follows positional field `");
                text.append(first.as_str());
                text.append("`");
            },
        }
        text
    }
}

/// Why a parse failed.
#[derive(Clone, Debug, PartialEq, Eq)]
pub enum ParseError {
    /// A token matched no flag and no option, and no positional field takes it.
    UnknownArgument(String),
    /// A token could not be coerced to the type of the argument it was meant
    /// for. The first text names the argument, the second is the token.
    InvalidValue(String, String),
    /// The scan ended and a required option was never given. The text is the
    /// long spelling of the option.
    MissingRequiredArgument(String),
    /// An option was the last token, so no value followed it.
    MissingOptionValue(String),
}

/// A [`ParseError`] as plain mathematical values.
pub enum ParseErrorModel {
    UnknownArgument(Seq<char>),
    InvalidValue(Seq<char>, Seq<char>),
    MissingRequiredArgument(Seq<char>),
    MissingOptionValue(Seq<char>),
}

impl View for ParseError {
    type V = ParseErrorModel;

    open spec fn view(&self) -> ParseErrorModel {
        match self {
            ParseError::UnknownArgument(token) => ParseErrorModel::UnknownArgument(token@),
            ParseError::InvalidValue(name, token) => ParseErrorModel::InvalidValue(name@, token@),
            ParseError::MissingRequiredArgument(name) => ParseErrorModel::MissingRequiredArgument(
                name@,
            ),
            ParseError::MissingOptionValue(name) => ParseErrorModel::MissingOptionValue(name@),
        }
    }
}

/// The wording of a parse error.
pub open spec fn parse_message(error: ParseErrorModel) -> Seq<char> {
    match error {
        ParseErrorModel::UnknownArgument(token) => "Unknown argument: `"@ + token + "`"@,
        ParseErrorModel::InvalidValue(name, token) => {
            "Invalid value for argument `"@ + name + "`: value=`"@ + token + "`"@
        },
        ParseErrorModel::MissingRequiredArgument(name) => {
            "Missing required argument `"@ + name + "`"@
        },
        ParseErrorModel::MissingOptionValue(name) => {
            "Missing value for argument `"@ + name + "`"@
        },
    }
}

impl ParseError {
    /// The error in words.
    pub fn message(&self) -> (text: String)
        ensures
            text@ == parse_message(self@),
    {
        let mut text = String::new();
        match self {
            ParseError::UnknownArgument(token) => {
                text.append("Unknown argument: `");
                text.append(token.as_str());
            },
            ParseError::InvalidValue(name, token) => {
                text.append("Invalid value for argument `");
                text.append(name.as_str());
                text.append("`: value=`");
                text.append(token.as_str());
            },
            ParseError::MissingRequiredArgument(name) => {
                text.append("Missing required argument `");
                text.append(name.as_str());
            },
            ParseError::MissingOptionValue(name) => {
                text.append("Missing value for argument `");
                text.append(name.as_str());
            },
        }
        text.append("`");
        text
    }
}

} // verus!
