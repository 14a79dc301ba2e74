//! Name derivation: the long and the short spelling of an argument, each a
//! pure function of its descriptor.
use vstd::prelude::*;
use crate::schema::{FieldDescriptor, FieldModel, ValueKind};

verus! {

/// Whether `c` is one of the ASCII letters `A` to `Z`.
pub open spec fn is_ascii_upper(c: char) -> bool {
    'A' <= c && c <= 'Z'
}

/// Whether `c` is an ASCII letter.
pub open spec fn is_ascii_alpha(c: char) -> bool {
    is_ascii_upper(c) || ('a' <= c && c <= 'z')
}

/// `c` with an ASCII capital made small; every other character unchanged.
pub open spec fn ascii_lower(c: char) -> char {
    if is_ascii_upper(c) {
        ((c as u8) + 32) as char
    } else {
        c
    }
}

/// One character of an argument name: `_` becomes `-`, an ASCII capital
/// becomes small.
pub open spec fn arg_char(c: char) -> char {
    if c == '_' {
        '-'
    } else {
        ascii_lower(c)
    }
}

/// The argument name of an identifier: each character normalised by
/// [`arg_char`].
pub open spec fn arg_name(identifier: Seq<char>) -> Seq<char> {
    identifier.map_values(|c: char| arg_char(c))
}

/// The long spelling: two hyphens and the argument name.
pub open spec fn long_name(identifier: Seq<char>) -> Seq<char> {
    seq!['-', '-'] + arg_name(identifier)
}

/// The first ASCII letter of a text, if it has one.
pub open spec fn first_ascii_alpha(text: Seq<char>) -> Option<char>
    decreases text.len(),
{
    if text.len() == 0 {
        None
    } else if is_ascii_alpha(text[0]) {
        Some(text[0])
    } else {
        first_ascii_alpha(text.skip(1))
    }
}

/// The short character an identifier gives by default: its first ASCII
/// letter, made small.
pub open spec fn default_short(identifier: Seq<char>) -> Option<char> {
    match first_ascii_alpha(identifier) {
        Some(c) => Some(ascii_lower(c)),
        None => None,
    }
}

/// The short character a field resolves to. A positional field has none;
/// otherwise suppression wins over an explicit choice, and that over the
/// default.
pub open spec fn resolved_short(field: FieldModel) -> Option<char> {
    if field.value_kind == ValueKind::Positional || field.suppress_short {
        None
    } else if field.explicit_short is Some {
        field.explicit_short
    } else {
        default_short(field.identifier)
    }
}

/// The short spelling of a character: a hyphen and the character.
pub open spec fn short_form(c: char) -> Seq<char> {
    seq!['-', c]
}

/// Makes an ASCII capital small.
pub fn to_ascii_lower(c: char) -> (r: char)
    ensures
        r == ascii_lower(c),
{
    if 'A' <= c && c <= 'Z' {
        ((c as u8) + 32u8) as char
    } else {
        c
    }
}

/// The argument name of an identifier.
pub fn to_arg_name(identifier: &str) -> (name: String)
    ensures
        name@ == arg_name(identifier@),
{
    let mut name = String::new();
    for c in it: identifier.chars()
        invariant
            it.seq() == identifier@,
            name@ == arg_name(identifier@.take(it.index() as int)),
    {
        if c == '_' {
            name.push('-');
        } else {
            name.push(to_ascii_lower(c));
        }
    }
    name
}

/// The long spelling of an identifier.
pub fn to_long_name(identifier: &str) -> (name: String)
    ensures
        name@ == long_name(identifier@),
{
    let mut name = String::new();
    name.push('-');
    name.push('-');
    let rest = to_arg_name(identifier);
    name.append(rest.as_str());
    name
}

/// Characters that are no ASCII letters can be skipped when looking for the
/// first one.
proof fn lemma_first_alpha_skip(text: Seq<char>, i: int)
    requires
        0 <= i <= text.len(),
        forall|j: int| 0 <= j < i ==> !is_ascii_alpha(text[j]),
    ensures
        first_ascii_alpha(text) == first_ascii_alpha(text.skip(i)),
    decreases i,
{
    if i == 0 {
        assert(text.skip(0) =~= text);
    } else {
        lemma_first_alpha_skip(text, i - 1);
        assert(text.skip(i - 1).skip(1) =~= text.skip(i));
    }
}

/// The default short character of an identifier.
pub fn to_default_short(identifier: &str) -> (short: Option<char>)
    ensures
        short == default_short(identifier@),
{
    for c in it: identifier.chars()
        invariant
            it.seq() == identifier@,
            forall|j: int| 0 <= j < it.index() ==> !is_ascii_alpha(identifier@[j]),
    {
        if ('a' <= c && c <= 'z') || ('A' <= c && c <= 'Z') {
            proof {
                lemma_first_alpha_skip(identifier@, it.index() as int);
            }
            return Some(to_ascii_lower(c));
        }
    }
    proof {
        lemma_first_alpha_skip(identifier@, identifier@.len() as int);
    }
    None
}

/// The short character of a field.
pub fn short_name(field: &FieldDescriptor) -> (short: Option<char>)
    ensures
        short == resolved_short(field@),
{
    if field.value_kind == ValueKind::Positional || field.suppress_short {
        None
    } else if field.explicit_short.is_some() {
        field.explicit_short
    } else {
        to_default_short(field.identifier.as_str())
    }
}

/// Name normalisation is idempotent: an argument name is its own argument
/// name.
pub proof fn lemma_arg_name_idempotent(identifier: Seq<char>)
    ensures
        arg_name(arg_name(identifier)) == arg_name(identifier),
{
    assert forall|i: int| 0 <= i < identifier.len() implies arg_char(arg_char(identifier[i]))
        == arg_char(identifier[i]) by {
        lemma_arg_char_normal(identifier[i]);
    }
}

/// A normalised character is neither an underscore nor an ASCII capital, and
/// normalising it again changes nothing.
pub proof fn lemma_arg_char_normal(c: char)
    ensures
        arg_char(c) != '_',
        !is_ascii_upper(arg_char(c)),
        arg_char(arg_char(c)) == arg_char(c),
{
}

/// Long-name derivation is total, and every long name starts with two
/// hyphens, is two characters longer than its identifier, and holds neither
/// an underscore nor an ASCII capital.
pub proof fn lemma_long_name_shape(identifier: Seq<char>)
    ensures
        long_name(identifier).len() == identifier.len() + 2,
        long_name(identifier)[0] == '-',
        long_name(identifier)[1] == '-',
        long_name(identifier).skip(2) == arg_name(identifier),
        forall|i: int|
            0 <= i < long_name(identifier).len() ==> long_name(identifier)[i] != '_'
                && !is_ascii_upper(#[trigger] long_name(identifier)[i]),
{
    assert forall|i: int| 0 <= i < long_name(identifier).len() implies long_name(identifier)[i]
        != '_' && !is_ascii_upper(#[trigger] long_name(identifier)[i]) by {
        if i >= 2 {
            lemma_arg_char_normal(identifier[i - 2]);
        }
    }
}

} // verus!
