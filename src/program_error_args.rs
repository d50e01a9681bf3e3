//! The arguments of the `#[spl_program_error]` attribute, for example
//! `hash_error_code_start = 1275525928`, read from the attribute's tokens.

use vstd::prelude::*;

verus! {

/// One token of the attribute's argument list.
#[derive(Clone, Debug, PartialEq, Eq)]
pub enum ArgToken {
    /// An identifier, as its bytes.
    Ident(Vec<u8>),
    /// The `=` sign.
    Equals,
    /// The `,` separator.
    Comma,
    /// An integer literal, as its base-10 digits without suffix or `_`.
    LitInt(Vec<u8>),
    /// Any other token.
    Other,
}

/// Why an argument list was refused.
#[derive(Clone, Copy, Debug, PartialEq, Eq, Structural)]
pub enum ArgsError {
    /// An argument did not start with an identifier.
    ExpectedIdent,
    /// The identifier is not `hash_error_code_start`.
    UnknownArgument,
    /// The argument name is not followed by `=`.
    ExpectedEquals,
    /// The `=` is not followed by an integer literal.
    ExpectedInteger,
    /// The literal is not a base-10 number that fits in `u32`.
    InvalidInteger,
}

/// Possible arguments to the `#[spl_program_error]` attribute.
#[derive(Clone, Copy, Debug, PartialEq, Eq, Structural)]
pub struct SplProgramErrorArgs {
    /// Where hashed error codes start, when the error codes are hashed.
    pub hash_error_code_start: Option<u32>,
}

/// The one argument name that the attribute takes.
pub open spec fn hash_error_code_start_name() -> Seq<u8> {
    seq![104u8, 97, 115, 104, 95, 101, 114, 114, 111, 114, 95, 99, 111, 100, 101, 95, 115, 116, 97, 114, 116]
}

/// The value of a string of decimal digits, when every byte is a digit, there
/// is at least one, and the value fits in `u32`.
pub open spec fn digits_u32(s: Seq<u8>) -> Option<u32>
    decreases s.len(),
{
    if s.len() == 0 {
        None
    } else {
        let d = s.last();
        let prefix = if s.len() == 1 {
            Some(0u32)
        } else {
            digits_u32(s.drop_last())
        };
        if 48 <= d <= 57 {
            match prefix {
                Some(p) => if p * 10 + (d - 48) <= u32::MAX {
                    Some((p * 10 + (d - 48)) as u32)
                } else {
                    None
                },
                None => None,
            }
        } else {
            None
        }
    }
}

/// The outcome of reading the arguments from token `i` on, where `acc` is the
/// value that the arguments before `i` set; a later argument overrides an
/// earlier one.
pub open spec fn parse_args_from(tokens: Seq<ArgToken>, i: int, acc: Option<u32>) -> Result<
    Option<u32>,
    ArgsError,
>
    decreases tokens.len() - i,
    when 0 <= i <= tokens.len()
{
    if i >= tokens.len() {
        Ok(acc)
    } else {
        match tokens[i] {
            ArgToken::Ident(name) => if name@ != hash_error_code_start_name() {
                Err(ArgsError::UnknownArgument)
            } else if i + 1 >= tokens.len() || tokens[i + 1] != ArgToken::Equals {
                Err(ArgsError::ExpectedEquals)
            } else if i + 2 >= tokens.len() || !(tokens[i + 2] is LitInt) {
                Err(ArgsError::ExpectedInteger)
            } else {
                let next = if i + 3 < tokens.len() && tokens[i + 3] == ArgToken::Comma {
                    i + 4
                } else {
                    i + 3
                };
                match digits_u32(tokens[i + 2]->LitInt_0@) {
                    Some(v) => parse_args_from(tokens, next, Some(v)),
                    None => Err(ArgsError::InvalidInteger),
                }
            },
            _ => Err(ArgsError::ExpectedIdent),
        }
    }
}

fn is_hash_error_code_start(name: &Vec<u8>) -> (r: bool)
    ensures
        r == (name@ == hash_error_code_start_name()),
{
    let expected: [u8; 21] = [
        104, 97, 115, 104, 95, 101, 114, 114, 111, 114, 95, 99, 111, 100, 101, 95, 115, 116, 97,
        114, 116,
    ];
    assert(expected@ =~= hash_error_code_start_name());
    if name.len() != 21 {
        return false;
    }
    let mut i: usize = 0;
    while i < 21
        invariant
            name@.len() == 21,
            expected@ == hash_error_code_start_name(),
            0 <= i <= 21,
            forall|j: int| 0 <= j < i ==> name@[j] == expected@[j],
        decreases 21 - i,
    {
        if name[i] != expected[i] {
            return false;
        }
        i = i + 1;
    }
    assert(name@ =~= expected@);
    true
}

/// Reads a string of decimal digits as a `u32`.
pub fn parse_digits_u32(digits: &Vec<u8>) -> (r: Option<u32>)
    ensures
        r == digits_u32(digits@),
{
    if digits.len() == 0 {
        return None;
    }
    let mut value: u32 = 0;
    let mut i: usize = 0;
    while i < digits.len()
        invariant
            0 <= i <= digits@.len(),
            digits@.len() > 0,
            i == 0 ==> value == 0,
            i > 0 ==> digits_u32(digits@.take(i as int)) == Some(value),
        decreases digits@.len() - i,
    {
        let d = digits[i];
        proof {
            let t = digits@.take(i as int + 1);
            assert(t.last() == d);
            assert(t.drop_last() =~= digits@.take(i as int));
        }
        if d < 48 || d > 57 {
            proof {
                lemma_invalid_prefix(digits@, i as int + 1);
            }
            return None;
        }
        let step: u64 = value as u64 * 10 + (d - 48) as u64;
        if step > u32::MAX as u64 {
            proof {
                lemma_invalid_prefix(digits@, i as int + 1);
            }
            return None;
        }
        value = step as u32;
        i = i + 1;
    }
    assert(digits@.take(digits@.len() as int) =~= digits@);
    Some(value)
}

/// A string of digits whose prefix has no value has none either.
proof fn lemma_invalid_prefix(s: Seq<u8>, k: int)
    requires
        0 < k <= s.len(),
        digits_u32(s.take(k)) is None,
    ensures
        digits_u32(s) is None,
    decreases s.len() - k,
{
    if k < s.len() {
        let t = s.take(k + 1);
        assert(t.drop_last() =~= s.take(k));
        lemma_invalid_prefix(s, k + 1);
    } else {
        assert(s.take(k) =~= s);
    }
}

impl SplProgramErrorArgs {
    /// Reads the attribute's arguments: any number of
    /// `hash_error_code_start = <u32>`, each optionally followed by a comma.
    pub fn parse(tokens: &Vec<ArgToken>) -> (r: Result<SplProgramErrorArgs, ArgsError>)
        ensures
            match parse_args_from(tokens@, 0, None) {
                Ok(v) => r == Ok::<SplProgramErrorArgs, ArgsError>(
                    SplProgramErrorArgs { hash_error_code_start: v },
                ),
                Err(e) => r == Err::<SplProgramErrorArgs, ArgsError>(e),
            },
    {
        let mut hash_error_code_start: Option<u32> = None;
        let mut i: usize = 0;
        while i < tokens.len()
            invariant
                0 <= i <= tokens@.len(),
                parse_args_from(tokens@, i as int, hash_error_code_start) == parse_args_from(
                    tokens@,
                    0,
                    None,
                ),
            decreases tokens@.len() - i,
        {
            match &tokens[i] {
                ArgToken::Ident(name) => {
                    if !is_hash_error_code_start(name) {
                        return Err(ArgsError::UnknownArgument);
                    }
                },
                _ => {
                    return Err(ArgsError::ExpectedIdent);
                },
            }
            if i + 1 >= tokens.len() {
                return Err(ArgsError::ExpectedEquals);
            }
            match &tokens[i + 1] {
                ArgToken::Equals => {},
                _ => {
                    return Err(ArgsError::ExpectedEquals);
                },
            }
            if i + 2 >= tokens.len() {
                return Err(ArgsError::ExpectedInteger);
            }
            let value = match &tokens[i + 2] {
                ArgToken::LitInt(digits) => parse_digits_u32(digits),
                _ => {
                    return Err(ArgsError::ExpectedInteger);
                },
            };
            let next: usize = if i + 3 < tokens.len() {
                match &tokens[i + 3] {
                    ArgToken::Comma => i + 4,
                    _ => i + 3,
                }
            } else {
                i + 3
            };
            match value {
                Some(v) => {
                    hash_error_code_start = Some(v);
                },
                None => {
                    return Err(ArgsError::InvalidInteger);
                },
            }
            i = next;
        }
        Ok(SplProgramErrorArgs { hash_error_code_start })
    }
}

} // verus!
