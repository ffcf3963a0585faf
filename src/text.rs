//! C-string payloads: decoding, greeting, case conversion.
use vstd::prelude::*;
use vstd::utf8::{decode_utf8, valid_utf8};

verus! {

/// What std's `str::to_uppercase` returns for the characters `s`: the
/// locale-independent Unicode uppercase mapping.
pub uninterp spec fn upper_of(s: Seq<char>) -> Seq<char>;

/// The fixed message handed out by [`ret_hello`].
pub open spec fn hello_text() -> Seq<char> {
    seq!['H', 'e', 'l', 'l', 'o', ',', ' ', 'R', 'u', 's', 't']
}

/// The line printed for a greeting of `name`.
pub open spec fn greeting_of(name: Seq<char>) -> Seq<char> {
    seq!['h', 'e', 'l', 'l', 'o', ' '] + name
}

/// True when `s` can be carried by a null-terminated string.
pub open spec fn fits_c_string(s: Seq<char>) -> bool {
    !s.contains('\0')
}

/// What a greeting request asks of its caller.
pub enum Greeting {
    /// No input was given: nothing is printed.
    Silent,
    /// Print this line.
    Print(String),
    /// The input was not UTF-8: the request is a contract violation.
    InvalidText,
}

/// Relies on std's `str::from_utf8`: `Ok` exactly when the bytes are valid
/// UTF-8, holding the characters they encode.
#[verifier::external_body]
fn decode(bytes: &[u8]) -> (r: Option<String>)
    ensures
        r is Some <==> valid_utf8(bytes@),
        r matches Some(s) ==> s@ == decode_utf8(bytes@),
{
    match std::str::from_utf8(bytes) {
        Ok(s) => Some(s.to_string()),
        Err(_) => None,
    }
}

/// Relies on std's `str::to_uppercase`.
#[verifier::external_body]
fn to_upper(s: &str) -> (r: String)
    ensures
        r@ == upper_of(s@),
{
    s.to_uppercase()
}

/// Relies on std's `String::push`: appends one character.
#[verifier::external_body]
pub(crate) fn push_char(s: &mut String, c: char)
    ensures
        final(s)@ == old(s)@.push(c),
{
    s.push(c)
}

/// Decides the greeting for an optional C-string payload.
pub fn say_hello(input: Option<&[u8]>) -> (r: Greeting)
    ensures
        input is None ==> r is Silent,
        input matches Some(b) ==> (r is InvalidText <==> !valid_utf8(b@)),
        input matches Some(b) ==> (r matches Greeting::Print(line) ==> line@ == greeting_of(
            decode_utf8(b@),
        )),
        input is Some ==> !(r is Silent),
{
    match input {
        None => Greeting::Silent,
        Some(b) => match decode(b) {
            None => Greeting::InvalidText,
            Some(name) => {
                proof {
                    reveal_strlit("hello ");
                }
                let mut line = String::from_str("hello ");
                line.append(name.as_str());
                assert(line@ =~= greeting_of(name@));
                Greeting::Print(line)
            },
        },
    }
}

/// The fixed greeting message, freshly allocated on each call.
pub fn ret_hello() -> (r: String)
    ensures
        r@ == hello_text(),
        fits_c_string(r@),
{
    proof {
        reveal_strlit("Hello, Rust");
    }
    let r = String::from_str("Hello, Rust");
    assert(r@ =~= hello_text());
    r
}

/// Every greeting message handed out holds the same characters, so two
/// calls of [`ret_hello`] agree.
pub proof fn hello_is_fixed(a: String, b: String)
    requires
        a@ == hello_text(),
        b@ == hello_text(),
    ensures
        a@ == b@,
        fits_c_string(a@),
{
}

/// Whether `s` holds a null character.
pub fn has_nul(s: &str) -> (r: bool)
    ensures
        r == !fits_c_string(s@),
{
    let n = s.unicode_len();
    let mut i: usize = 0;
    while i < n
        invariant
            n == s@.len(),
            i <= n,
            forall|j: int| 0 <= j < i ==> s@[j] != '\0',
        decreases n - i,
    {
        if s.get_char(i) == '\0' {
            return true;
        }
        i = i + 1;
    }
    false
}

/// Keeps `text` as the payload of an owned C string when it can be one:
/// `None` when it holds a null character.
pub fn c_text(text: String) -> (r: Option<String>)
    ensures
        r is Some <==> fits_c_string(text@),
        r matches Some(t) ==> t@ == text@,
{
    if has_nul(text.as_str()) {
        None
    } else {
        Some(text)
    }
}

/// Uppercases an optional C-string payload. `None` when there is no input,
/// when it is not UTF-8, or when its uppercase form cannot be a C string.
pub fn str_to_upper(input: Option<&[u8]>) -> (r: Option<String>)
    ensures
        r is Some <==> (input matches Some(b) && valid_utf8(b@) && fits_c_string(
            upper_of(decode_utf8(b@)),
        )),
        r matches Some(t) ==> (input matches Some(b) && t@ == upper_of(decode_utf8(b@))),
{
    match input {
        None => None,
        Some(b) => match decode(b) {
            None => None,
            Some(s) => c_text(to_upper(s.as_str())),
        },
    }
}

} // verus!
