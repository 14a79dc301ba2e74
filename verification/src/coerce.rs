//! Type coercion: from a raw token to a value of an argument's element type.
//! Integers are parsed by `onlyargs`; a verified step then holds the parsed
//! number to the width of the element type.
use vstd::prelude::*;
use onlyargs::traits::ArgExt;
use crate::error::{ParseError, ParseErrorModel};
use crate::record::{Value, ValueModel};
use crate::schema::ElementType;

verus! {

/// Whether `c` is one of the ASCII digits `0` to `9`.
pub open spec fn is_digit(c: char) -> bool {
    '0' <= c && c <= '9'
}

/// The number an ASCII digit stands for.
pub open spec fn digit_of(c: char) -> int {
    c as int - '0' as int
}

/// Whether a text is one or more ASCII digits and nothing else.
pub open spec fn is_number(digits: Seq<char>) -> bool {
    digits.len() > 0 && forall|i: int| 0 <= i < digits.len() ==> is_digit(#[trigger] digits[i])
}

/// The number that a run of ASCII digits writes in base ten.
pub open spec fn decimal_value(digits: Seq<char>) -> int
    decreases digits.len(),
{
    if digits.len() == 0 {
        0
    } else {
        10 * decimal_value(digits.drop_last()) + digit_of(digits.last())
    }
}

/// The number a token writes where no negative number is accepted: an
/// optional `+`, then one or more ASCII digits, and nothing before, between
/// or after.
pub open spec fn unsigned_decimal(token: Seq<char>) -> Option<int> {
    let digits = if token.len() > 0 && token[0] == '+' {
        token.skip(1)
    } else {
        token
    };
    if is_number(digits) {
        Some(decimal_value(digits))
    } else {
        None
    }
}

/// The number a token writes where a sign is accepted: an optional `+` or
/// `-`, then one or more ASCII digits, and nothing before, between or after.
pub open spec fn signed_decimal(token: Seq<char>) -> Option<int> {
    if token.len() > 0 && token[0] == '-' {
        if is_number(token.skip(1)) {
            Some(-decimal_value(token.skip(1)))
        } else {
            None
        }
    } else {
        unsigned_decimal(token)
    }
}

/// The error type of `onlyargs`; verified code only carries it.
#[verifier::external_type_specification]
#[verifier::external_body]
pub struct ExCliError(onlyargs::CliError);

/// Calls `onlyargs::traits::ArgExt::parse_int` for `i128` on a token that is
/// present. It hands the token, which is valid UTF-8, to the standard
/// parser of `i128`: that accepts an optional sign and decimal digits, and
/// fails on anything else and on a number that `i128` cannot hold. The
/// contract claims exactly this.
#[verifier::external_body]
fn parse_signed(token: &str, name: &str) -> (r: Result<i128, onlyargs::CliError>)
    ensures
        r is Ok <==> (signed_decimal(token@) matches Some(v) && i128::MIN <= v <= i128::MAX),
        r matches Ok(n) ==> signed_decimal(token@) == Some(n as int),
{
    ArgExt::parse_int::<i128, &str>(Some(token.into()), name)
}

/// Calls `onlyargs::traits::ArgExt::parse_int` for `u128` on a token that is
/// present. It hands the token, which is valid UTF-8, to the standard
/// parser of `u128`: that accepts an optional `+` and decimal digits, and
/// fails on anything else, a `-` included, and on a number that `u128`
/// cannot hold. The contract claims exactly this.
#[verifier::external_body]
fn parse_unsigned(token: &str, name: &str) -> (r: Result<u128, onlyargs::CliError>)
    ensures
        r is Ok <==> (unsigned_decimal(token@) matches Some(v) && v <= u128::MAX),
        r matches Ok(n) ==> unsigned_decimal(token@) == Some(n as int),
{
    ArgExt::parse_int::<u128, &str>(Some(token.into()), name)
}

/// Whether an integer type can hold a number.
pub open spec fn in_range(ty: ElementType, v: int) -> bool {
    match ty {
        ElementType::I8 => i8::MIN <= v <= i8::MAX,
        ElementType::I16 => i16::MIN <= v <= i16::MAX,
        ElementType::I32 => i32::MIN <= v <= i32::MAX,
        ElementType::I64 => i64::MIN <= v <= i64::MAX,
        ElementType::I128 => i128::MIN <= v <= i128::MAX,
        ElementType::Isize => isize::MIN <= v <= isize::MAX,
        ElementType::U8 => 0 <= v <= u8::MAX,
        ElementType::U16 => 0 <= v <= u16::MAX,
        ElementType::U32 => 0 <= v <= u32::MAX,
        ElementType::U64 => 0 <= v <= u64::MAX,
        ElementType::U128 => 0 <= v <= u128::MAX,
        ElementType::Usize => 0 <= v <= usize::MAX,
        _ => false,
    }
}

/// The value a token coerces to. An integer type takes the number the token
/// writes, where the type can hold it. The three string types take the
/// token as it is. A boolean is the type of flags, which consume no value:
/// no token coerces to it.
pub open spec fn coerced(ty: ElementType, token: Seq<char>) -> Option<ValueModel> {
    if ty.is_signed() {
        match signed_decimal(token) {
            Some(v) => if in_range(ty, v) {
                Some(ValueModel::Signed(v))
            } else {
                None
            },
            None => None,
        }
    } else if ty.is_unsigned() {
        match unsigned_decimal(token) {
            Some(v) => if in_range(ty, v) {
                Some(ValueModel::Unsigned(v))
            } else {
                None
            },
            None => None,
        }
    } else {
        match ty {
            ElementType::Text => Some(ValueModel::Text(token)),
            ElementType::Platform => Some(ValueModel::Platform(token)),
            ElementType::Path => Some(ValueModel::Path(token)),
            _ => None,
        }
    }
}

/// Holds a parsed signed number to the width of a signed type.
pub fn narrow_signed(ty: ElementType, value: i128) -> (r: Option<Value>)
    ensures
        r matches Some(v) ==> v == Value::Signed(value),
        r is Some <==> ty.is_signed() && in_range(ty, value as int),
{
    let fits = match ty {
        ElementType::I8 => -0x80 <= value && value <= 0x7f,
        ElementType::I16 => -0x8000 <= value && value <= 0x7fff,
        ElementType::I32 => -0x8000_0000 <= value && value <= 0x7fff_ffff,
        ElementType::I64 => -0x8000_0000_0000_0000 <= value && value <= 0x7fff_ffff_ffff_ffff,
        ElementType::I128 => true,
        ElementType::Isize => isize::MIN as i128 <= value && value <= isize::MAX as i128,
        _ => false,
    };
    if fits {
        Some(Value::Signed(value))
    } else {
        None
    }
}

/// Holds a parsed unsigned number to the width of an unsigned type.
pub fn narrow_unsigned(ty: ElementType, value: u128) -> (r: Option<Value>)
    ensures
        r matches Some(v) ==> v == Value::Unsigned(value),
        r is Some <==> ty.is_unsigned() && in_range(ty, value as int),
{
    let fits = match ty {
        ElementType::U8 => value <= 0xff,
        ElementType::U16 => value <= 0xffff,
        ElementType::U32 => value <= 0xffff_ffff,
        ElementType::U64 => value <= 0xffff_ffff_ffff_ffff,
        ElementType::U128 => true,
        ElementType::Usize => value <= usize::MAX as u128,
        _ => false,
    };
    if fits {
        Some(Value::Unsigned(value))
    } else {
        None
    }
}

/// Coerces a token to a value of the element type. `name` is the argument
/// the token was meant for; a token that does not coerce gives
/// `InvalidValue` with that name and the token.
pub fn coerce(ty: ElementType, token: &String, name: &String) -> (r: Result<Value, ParseError>)
    ensures
        match coerced(ty, token@) {
            Some(v) => r matches Ok(value) && value@ == v,
            None => r matches Err(e) && e@ == ParseErrorModel::InvalidValue(name@, token@),
        },
{
    let value = match ty {
        ElementType::Bool => None,
        ElementType::Text => Some(Value::Text(token.clone())),
        ElementType::Platform => Some(Value::Platform(token.clone())),
        ElementType::Path => Some(Value::Path(token.clone())),
        ElementType::I8 | ElementType::I16 | ElementType::I32 | ElementType::I64
        | ElementType::I128 | ElementType::Isize => {
            match parse_signed(token.as_str(), name.as_str()) {
                Ok(n) => narrow_signed(ty, n),
                Err(_) => None,
            }
        },
        _ => {
            match parse_unsigned(token.as_str(), name.as_str()) {
                Ok(n) => narrow_unsigned(ty, n),
                Err(_) => None,
            }
        },
    };
    match value {
        Some(v) => Ok(v),
        None => Err(ParseError::InvalidValue(name.clone(), token.clone())),
    }
}

} // verus!
