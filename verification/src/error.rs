//! The error value of the binding: a failing dav1d return code together
//! with the name of the dav1d function that returned it.
use vstd::prelude::*;

use crate::raw;

verus! {

/// A dav1d call that failed: its (negative errno) return code and the
/// name of the dav1d function.
#[derive(Debug)]
pub struct Error {
    code: i32,
    function: &'static str,
}

impl View for Error {
    /// The return code and the function name.
    type V = (i32, Seq<char>);

    closed spec fn view(&self) -> (i32, Seq<char>) {
        (self.code, self.function@)
    }
}

/// The magnitude of a return code (dav1d negates errno values).
pub open spec fn code_magnitude(code: i32) -> int {
    if code < 0 {
        -code
    } else {
        code as int
    }
}

/// The character of a decimal digit.
pub open spec fn digit_char(d: nat) -> char {
    (48 + d) as char
}

/// The decimal digits of `n`, most significant first, without leading
/// zeros (`0` is written as a single digit).
pub open spec fn decimal_digits(n: nat) -> Seq<char>
    decreases n,
{
    if n < 10 {
        seq![digit_char(n)]
    } else {
        decimal_digits(n / 10).push(digit_char(n % 10))
    }
}

/// `n` written in decimal, with a leading `-` when negative.
pub open spec fn signed_decimal(n: int) -> Seq<char> {
    if n < 0 {
        seq!['-'].add(decimal_digits((-n) as nat))
    } else {
        decimal_digits(n as nat)
    }
}

/// The number that a string of decimal digits stands for.
pub open spec fn digits_value(s: Seq<char>) -> int
    decreases s.len(),
{
    if s.len() == 0 {
        0
    } else {
        digits_value(s.drop_last()) * 10 + (s.last() as int - 48)
    }
}

/// A return code's magnitude is its absolute value.
pub proof fn lemma_code_magnitude_law(code: i32)
    ensures
        code_magnitude(code) >= 0,
        code >= 0 ==> code_magnitude(code) == code,
        code < 0 ==> code_magnitude(code) == -code,
{
}

/// The decimal digits of `n` are digits, have no leading zero (unless `n`
/// is 0), and read back as `n`.
pub proof fn lemma_decimal_digits_law(n: nat)
    ensures
        decimal_digits(n).len() >= 1,
        forall|i: int|
            0 <= i < decimal_digits(n).len() ==> 48 <= (#[trigger] decimal_digits(n)[i]) as int
                <= 57,
        n > 0 ==> decimal_digits(n)[0] != '0',
        digits_value(decimal_digits(n)) == n,
    decreases n,
{
    if n < 10 {
        assert(decimal_digits(n) =~= seq![digit_char(n)]);
        let d = seq![digit_char(n)];
        assert(d.drop_last() =~= Seq::<char>::empty());
        assert(digits_value(d.drop_last()) == 0);
    } else {
        let m = n / 10;
        lemma_decimal_digits_law(m);
        let prefix = decimal_digits(m);
        let s = decimal_digits(n);
        assert(s =~= prefix.push(digit_char(n % 10)));
        assert(s.drop_last() =~= prefix);
        assert(s[0] == prefix[0]);
        assert(m > 0);
        assert(digits_value(s) == digits_value(prefix) * 10 + (s.last() as int - 48));
    }
}

/// The errno name that the message of an error with this code ends with,
/// where `eagain` is the platform's `EAGAIN` value.
pub open spec fn errno_suffix(code: i32, eagain: u32) -> Seq<char> {
    if code_magnitude(code) == eagain {
        " (EAGAIN)"@
    } else if code_magnitude(code) == raw::ENOMEM {
        " (ENOMEM)"@
    } else {
        ""@
    }
}

/// The text of the message of an error, where `eagain` is the platform's
/// `EAGAIN` value.
pub open spec fn error_message(code: i32, function: Seq<char>, eagain: u32) -> Seq<char> {
    function + "() failed: code="@ + signed_decimal(code as int) + errno_suffix(code, eagain)
}

/// The one-character string of a decimal digit.
fn digit_str(d: u64) -> (s: &'static str)
    requires
        d < 10,
    ensures
        s@ == seq![digit_char(d as nat)],
{
    proof {
        reveal_strlit("0");
        reveal_strlit("1");
        reveal_strlit("2");
        reveal_strlit("3");
        reveal_strlit("4");
        reveal_strlit("5");
        reveal_strlit("6");
        reveal_strlit("7");
        reveal_strlit("8");
        reveal_strlit("9");
    }
    match d {
        0 => "0",
        1 => "1",
        2 => "2",
        3 => "3",
        4 => "4",
        5 => "5",
        6 => "6",
        7 => "7",
        8 => "8",
        _ => "9",
    }
}

/// Appends the decimal digits of `n` to `s`.
fn append_decimal(s: &mut String, n: u64)
    ensures
        final(s)@ == old(s)@ + decimal_digits(n as nat),
    decreases n,
{
    if n >= 10 {
        append_decimal(s, n / 10);
    }
    s.append(digit_str(n % 10));
    assert(decimal_digits(n as nat) =~= if n < 10 {
        seq![digit_char(n as nat)]
    } else {
        decimal_digits((n / 10) as nat).push(digit_char((n % 10) as nat))
    });
}

/// The errno name appended to a message (" (EAGAIN)", " (ENOMEM)" or "").
fn errno_name(code: i32, eagain: u32) -> (s: &'static str)
    ensures
        s@ == errno_suffix(code, eagain),
{
    let magnitude: i64 = if code < 0 {
        -(code as i64)
    } else {
        code as i64
    };
    if magnitude == eagain as i64 {
        " (EAGAIN)"
    } else if magnitude == raw::ENOMEM as i64 {
        " (ENOMEM)"
    } else {
        ""
    }
}

impl Error {
    /// The error of a failed call.
    pub(crate) fn new(code: i32, function: &'static str) -> (r: Error)
        ensures
            r@ == (code, function@),
    {
        Error { code, function }
    }

    /// `Ok(())` when a dav1d call returned 0, otherwise the error for its
    /// code.
    pub fn check(code: i32, function: &'static str) -> (r: Result<(), Error>)
        ensures
            r is Ok <==> code == 0,
            r matches Err(e) ==> e@ == (code, function@),
    {
        if code == 0 {
            Ok(())
        } else {
            Err(Error { code, function })
        }
    }

    /// Whether the code is `EAGAIN`, where `eagain` is the platform's
    /// `EAGAIN` value.
    ///
    /// When `Decoder::decode()` fails with `EAGAIN`, the frames in the
    /// decoder have to be taken out with `Decoder::next_frame()` before the
    /// same data is sent again.
    pub fn is_eagain(&self, eagain: u32) -> (r: bool)
        ensures
            r == (code_magnitude(self@.0) == eagain),
    {
        let magnitude: i64 = if self.code < 0 {
            -(self.code as i64)
        } else {
            self.code as i64
        };
        magnitude == eagain as i64
    }

    /// The return code of the failing call.
    pub fn code(&self) -> (r: i32)
        ensures
            r == self@.0,
    {
        self.code
    }

    /// The name of the dav1d function that failed.
    pub fn function(&self) -> (r: &'static str)
        ensures
            r@ == self@.1,
    {
        self.function
    }

    /// The message describing the error:
    /// `"<function>() failed: code=<code>"`, followed by `" (EAGAIN)"` or
    /// `" (ENOMEM)"` when the code is one of those errno values (`eagain`
    /// is the platform's `EAGAIN` value).
    pub fn message(&self, eagain: u32) -> (r: String)
        ensures
            r@ == error_message(self@.0, self@.1, eagain),
    {
        let mut s = String::from_str(self.function);
        s.append("() failed: code=");
        let ghost before_number = s@;
        if self.code < 0 {
            s.append("-");
            proof {
                reveal_strlit("-");
            }
            let magnitude: i64 = -(self.code as i64);
            append_decimal(&mut s, magnitude as u64);
            assert(s@ =~= before_number + signed_decimal(self.code as int));
        } else {
            append_decimal(&mut s, self.code as u64);
            assert(s@ =~= before_number + signed_decimal(self.code as int));
        }
        s.append(errno_name(self.code, eagain));
        s
    }
}

} // verus!
