//! Text and status handling shared by every call into the native bridge: the
//! contents of the C strings handed to it, the decimal text of status codes, and
//! the errors that its status codes and messages stand for.
use vstd::prelude::*;

use crate::error::{error_from_status, spec_error_from_status, WebKitError};
use crate::ffi::status;

verus! {

broadcast use vstd::string::group_string_axioms;

/// Appends one character to a string.
///
/// Calls `String::push`, whose documentation says that it appends the given
/// `char` to the end of the `String`; that is all this contract claims.
#[verifier::external_body]
fn push_char(text: &mut String, c: char)
    ensures
        final(text)@ == old(text)@.push(c),
{
    text.push(c);
}

/// The characters of `value` with every NUL replaced by a space: what a C string
/// made from `value` holds, since a C string cannot hold a NUL.
pub open spec fn c_string_chars(value: Seq<char>) -> Seq<char> {
    value.map_values(|c: char| if c == '\0' { ' ' } else { c })
}

/// The text of the C string handed to the bridge for `value`: `value` itself when it
/// holds no NUL, otherwise `value` with each NUL replaced by a space.
pub fn c_string_text(value: &str) -> (text: String)
    ensures
        text@ == c_string_chars(value@),
        text@.len() == value@.len(),
        !text@.contains('\0'),
        !value@.contains('\0') ==> text@ == value@,
{
    let mut text = String::new();
    for c in iter: value.chars()
        invariant
            iter.seq() == value@,
            text@ == c_string_chars(value@.take(iter.index())),
    {
        proof {
            assert(value@.take(iter.index() + 1) =~= value@.take(iter.index()).push(c));
        }
        if c == '\0' {
            push_char(&mut text, ' ');
        } else {
            push_char(&mut text, c);
        }
        proof {
            assert(c_string_chars(value@.take(iter.index() + 1)) =~= c_string_chars(
                value@.take(iter.index()),
            ).push(if c == '\0' { ' ' } else { c }));
        }
    }
    proof {
        assert(value@.take(value@.len() as int) =~= value@);
        if text@.contains('\0') {
            let i = choose|i: int| 0 <= i < text@.len() && text@[i] == '\0';
            assert(text@[i] == (if value@[i] == '\0' { ' ' } else { value@[i] }));
        }
        if !value@.contains('\0') {
            assert forall|i: int| 0 <= i < value@.len() implies text@[i] == value@[i] by {
                if value@[i] == '\0' {
                    assert(value@.contains('\0'));
                }
            }
            assert(text@ =~= value@);
        }
    }
    text
}

/// Making a C string's text is idempotent: text that already went through it comes
/// back unchanged, and it never changes the length.
pub proof fn lemma_c_string_chars_idempotent(value: Seq<char>)
    ensures
        c_string_chars(c_string_chars(value)) == c_string_chars(value),
        c_string_chars(value).len() == value.len(),
{
    assert(c_string_chars(c_string_chars(value)) =~= c_string_chars(value));
}

/// The decimal digit character for `d`, from `'0'` to `'9'`.
pub open spec fn decimal_digit(d: int) -> char {
    if d == 0 {
        '0'
    } else if d == 1 {
        '1'
    } else if d == 2 {
        '2'
    } else if d == 3 {
        '3'
    } else if d == 4 {
        '4'
    } else if d == 5 {
        '5'
    } else if d == 6 {
        '6'
    } else if d == 7 {
        '7'
    } else if d == 8 {
        '8'
    } else {
        '9'
    }
}

/// The decimal digits of `n`, most significant first, with no leading zero.
pub open spec fn decimal_digits(n: nat) -> Seq<char>
    decreases n,
{
    if n < 10 {
        seq![decimal_digit(n as int)]
    } else {
        decimal_digits(n / 10).push(decimal_digit((n % 10) as int))
    }
}

/// The decimal text of an integer, as `{}` formats it: a minus sign before the digits
/// of a negative number.
pub open spec fn decimal_text(n: int) -> Seq<char> {
    if n < 0 {
        seq!['-'] + decimal_digits((-n) as nat)
    } else {
        decimal_digits(n as nat)
    }
}

fn digit_char(d: u32) -> (c: char)
    requires
        d < 10,
    ensures
        c == decimal_digit(d as int),
{
    match d {
        0 => '0',
        1 => '1',
        2 => '2',
        3 => '3',
        4 => '4',
        5 => '5',
        6 => '6',
        7 => '7',
        8 => '8',
        _ => '9',
    }
}

fn push_decimal_digits(text: &mut String, n: u32)
    ensures
        final(text)@ == old(text)@ + decimal_digits(n as nat),
    decreases n,
{
    if n >= 10 {
        push_decimal_digits(text, n / 10);
    }
    push_char(text, digit_char(n % 10));
    proof {
        if n >= 10 {
            assert(old(text)@ + decimal_digits(n as nat) =~= (old(text)@ + decimal_digits(
                (n / 10) as nat,
            )).push(decimal_digit((n % 10) as int)));
        } else {
            assert(old(text)@ + decimal_digits(n as nat) =~= old(text)@.push(
                decimal_digit(n as int),
            ));
        }
    }
}

/// The decimal text of `n`, such as `-2` or `17`.
pub fn decimal_string(n: i32) -> (text: String)
    ensures
        text@ == decimal_text(n as int),
{
    let mut text = String::new();
    let magnitude: u32;
    if n < 0 {
        push_char(&mut text, '-');
        let wide: i64 = n as i64;
        magnitude = (0 - wide) as u32;
    } else {
        magnitude = n as u32;
    }
    push_decimal_digits(&mut text, magnitude);
    proof {
        if n < 0 {
            assert(text@ =~= seq!['-'] + decimal_digits((-n) as nat));
        } else {
            assert(text@ =~= decimal_digits(n as nat));
        }
    }
    text
}

/// The number that a string of decimal digits denotes, reading each character as its
/// distance from `0`.
pub open spec fn digits_value(digits: Seq<char>) -> int
    decreases digits.len(),
{
    if digits.len() == 0 {
        0
    } else {
        digits_value(digits.drop_last()) * 10 + (digits.last() as int - '0' as int)
    }
}

/// A decimal digit character is between `0` and `9`, lies `d` past `0`, and is `0` only
/// for `d == 0`.
proof fn lemma_decimal_digit_value(d: int)
    requires
        0 <= d < 10,
    ensures
        '0' <= decimal_digit(d) <= '9',
        decimal_digit(d) as int - '0' as int == d,
        decimal_digit(d) == '0' <==> d == 0,
{
}

/// The digits of `n` read back as `n`: each is between `0` and `9`, and the first is
/// `0` only for `n == 0` itself.
proof fn lemma_decimal_digits_read_back(n: nat)
    ensures
        decimal_digits(n).len() >= 1,
        forall|i: int|
            0 <= i < decimal_digits(n).len() ==> '0' <= #[trigger] decimal_digits(n)[i] <= '9',
        decimal_digits(n)[0] == '0' ==> n == 0,
        digits_value(decimal_digits(n)) == n,
    decreases n,
{
    let digits = decimal_digits(n);
    if n < 10 {
        lemma_decimal_digit_value(n as int);
        assert(digits == seq![decimal_digit(n as int)]);
        assert(digits.drop_last() =~= Seq::<char>::empty());
        assert(digits.last() == decimal_digit(n as int));
        assert(digits_value(digits.drop_last()) == 0);
        assert(digits_value(digits) == digits_value(digits.drop_last()) * 10 + (digits.last() as int
            - '0' as int));
    } else {
        let q = n / 10;
        let r = n % 10;
        assert(q * 10 + r == n && 0 <= r < 10 && 1 <= q < n) by (nonlinear_arith)
            requires
                n >= 10,
                q == n / 10,
                r == n % 10,
        ;
        lemma_decimal_digits_read_back(q);
        lemma_decimal_digit_value(r as int);
        let front = decimal_digits(q);
        assert(digits == front.push(decimal_digit(r as int)));
        assert(digits.drop_last() =~= front);
        assert(digits.last() == decimal_digit(r as int));
        assert(digits_value(digits) == digits_value(front) * 10 + (digits.last() as int
            - '0' as int));
        assert(digits[0] == front[0]);
        assert forall|i: int| 0 <= i < digits.len() implies '0' <= #[trigger] digits[i] <= '9' by {
            if i < front.len() {
                assert(digits[i] == front[i]);
            }
        }
    }
}

/// Decimal text reads back as the number it was made from: a number that is not
/// negative is written as digits between `0` and `9`, with no leading `0` but for `0`
/// itself, that denote it; a negative number is a minus sign followed by the digits of
/// its magnitude.
pub proof fn lemma_decimal_text_reads_back(n: int)
    ensures
        n >= 0 ==> {
            &&& decimal_text(n).len() >= 1
            &&& forall|i: int|
                0 <= i < decimal_text(n).len() ==> '0' <= #[trigger] decimal_text(n)[i] <= '9'
            &&& (decimal_text(n)[0] == '0' ==> n == 0)
            &&& digits_value(decimal_text(n)) == n
        },
        n < 0 ==> {
            &&& decimal_text(n)[0] == '-'
            &&& digits_value(decimal_text(n).drop_first()) == -n
            &&& decimal_text(n).drop_first()[0] != '0'
        },
{
    if n < 0 {
        lemma_decimal_digits_read_back((-n) as nat);
        assert(decimal_text(n).drop_first() =~= decimal_digits((-n) as nat));
    } else {
        lemma_decimal_digits_read_back(n as nat);
    }
}

/// The message given to an error when the bridge reports a failing status without one:
/// `bridge returned status ` and the decimal status code.
pub open spec fn missing_message_text(code: i32) -> Seq<char> {
    "bridge returned status "@ + decimal_text(code as int)
}

/// The error, if any, that a bridge call's status code and optional error message
/// stand for: none when the status is `OK` and no message came back; otherwise the
/// error of the kind the status stands for, carrying the bridge's message or, when
/// there is none, `bridge returned status ` and the decimal status code.
pub fn error_from_bridge(code: i32, message: Option<String>) -> (error: Option<WebKitError>)
    ensures
        error is None <==> (code == status::OK && message is None),
        message matches Some(m) ==> error == Some(spec_error_from_status(code, m)),
        (message is None && code != status::OK) ==> (error matches Some(e) && e
            == spec_error_from_status(code, e.payload()) && e.payload()@ == missing_message_text(
            code,
        )),
{
    match message {
        Some(m) => Some(error_from_status(code, m)),
        None => {
            if code == status::OK {
                None
            } else {
                let mut text = String::from_str("bridge returned status ");
                let digits = decimal_string(code);
                text.append(digits.as_str());
                Some(error_from_status(code, text))
            }
        },
    }
}

/// The result of a bridge call that produces nothing: `Ok` exactly when the bridge
/// reports no error, otherwise the error that [`error_from_bridge`] gives.
pub fn check_bridge_status(code: i32, message: Option<String>) -> (result: Result<(), WebKitError>)
    ensures
        result is Ok <==> (code == status::OK && message is None),
        message matches Some(m) ==> result == Err::<(), WebKitError>(spec_error_from_status(code, m)),
        (message is None && code != status::OK) ==> (result matches Err(e) && e
            == spec_error_from_status(code, e.payload()) && e.payload()@ == missing_message_text(
            code,
        )),
{
    match error_from_bridge(code, message) {
        Some(e) => Err(e),
        None => Ok(()),
    }
}

/// The result of a bridge call that creates an object: the bridge's error when it
/// reports one; otherwise the created object, or, when the bridge handed back none, a
/// `FrameworkError` carrying `missing`.
pub fn take_bridge_object<T>(
    code: i32,
    message: Option<String>,
    object: Option<T>,
    missing: &str,
) -> (result: Result<T, WebKitError>)
    ensures
        message matches Some(m) ==> result == Err::<T, WebKitError>(spec_error_from_status(code, m)),
        (message is None && code != status::OK) ==> (result matches Err(e) && e
            == spec_error_from_status(code, e.payload()) && e.payload()@ == missing_message_text(
            code,
        )),
        (message is None && code == status::OK) ==> match object {
            Some(o) => result == Ok::<T, WebKitError>(o),
            None => result matches Err(e) && e is FrameworkError && e.payload()@ == missing@,
        },
{
    match error_from_bridge(code, message) {
        Some(e) => Err(e),
        None => match object {
            Some(o) => Ok(o),
            None => Err(WebKitError::FrameworkError(String::from_str(missing))),
        },
    }
}

/// What serialising the arguments of a `callAsyncJavaScript` call to a JSON value gave.
#[derive(Debug)]
pub enum JavaScriptArgumentsValue {
    /// A JSON object, with its JSON text, or the error that writing it out gave.
    Object(Result<String, String>),
    /// JSON `null`: no arguments.
    Null,
    /// Any other JSON value: an array, a string, a number or a boolean.
    Other,
    /// The arguments could not be serialised; the serialiser's error message.
    NotSerializable(String),
}

/// The C-string text of the arguments object handed to `callAsyncJavaScript`: the
/// object's JSON for an object, `{}` for `null`, and an `InvalidArgument` error for any
/// other value, for an object that could not be written out, and for arguments that
/// could not be serialised.
pub fn javascript_arguments_json(arguments: JavaScriptArgumentsValue) -> (json: Result<String, WebKitError>)
    ensures
        match arguments {
            JavaScriptArgumentsValue::Object(Ok(text)) => json matches Ok(t) && t@ == c_string_chars(
                text@,
            ),
            JavaScriptArgumentsValue::Object(Err(message)) => json == Err::<String, WebKitError>(
                WebKitError::InvalidArgument(message),
            ),
            JavaScriptArgumentsValue::Null => json matches Ok(t) && t@ == "{}"@,
            JavaScriptArgumentsValue::Other => json matches Err(WebKitError::InvalidArgument(m))
                && m@ == "callAsyncJavaScript arguments must serialize to a JSON object"@,
            JavaScriptArgumentsValue::NotSerializable(message) => json matches Err(
                WebKitError::InvalidArgument(m),
            ) && m@ == "callAsyncJavaScript arguments are not serializable: "@ + message@,
        },
{
    match arguments {
        JavaScriptArgumentsValue::Object(Ok(text)) => Ok(c_string_text(text.as_str())),
        JavaScriptArgumentsValue::Object(Err(message)) => Err(WebKitError::InvalidArgument(message)),
        JavaScriptArgumentsValue::Null => Ok(String::from_str("{}")),
        JavaScriptArgumentsValue::Other => Err(
            WebKitError::InvalidArgument(
                String::from_str("callAsyncJavaScript arguments must serialize to a JSON object"),
            ),
        ),
        JavaScriptArgumentsValue::NotSerializable(message) => {
            let mut text = String::from_str("callAsyncJavaScript arguments are not serializable: ");
            text.append(message.as_str());
            Err(WebKitError::InvalidArgument(text))
        },
    }
}

} // verus!
