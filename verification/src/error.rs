use vstd::prelude::*;

verus! {

/// An error from a call into ALSA: the name of the C function that failed,
/// and the `errno` that it reported (positive).
#[derive(Debug, Clone, Copy, PartialEq, Eq)]
pub struct Error {
    pub func: &'static str,
    pub errno: i32,
}

/// The `errno` that a negative return code `code` of a C function stands for.
pub open spec fn errno_of(code: int) -> i32 {
    (-code) as i32
}

/// What checking a return code gives: an error for a negative code, the code
/// itself otherwise.
pub open spec fn checked(func: &'static str, code: int) -> Result<int, Error> {
    if code < 0 {
        Err(Error { func, errno: errno_of(code) })
    } else {
        Ok(code)
    }
}

/// What checking a return code gives, where success carries no value.
pub open spec fn checked_unit(func: &'static str, code: int) -> Result<(), Error> {
    match checked(func, code) {
        Ok(_) => Ok(()),
        Err(e) => Err(e),
    }
}

/// A negative return code that can be negated in an `i32` is checked into an
/// error whose `errno` is the code negated, which is positive; any other code
/// is checked into itself.
pub proof fn lemma_checked_code(func: &'static str, code: i32)
    ensures
        code < 0 && code > i32::MIN ==> checked(func, code as int) == Err::<int, Error>(
            Error { func, errno: (-code) as i32 },
        ) && (-code) > 0,
        code >= 0 ==> checked(func, code as int) == Ok::<int, Error>(code as int),
{
}

impl Error {
    /// The error that `func` reported with `errno`.
    pub fn new(func: &'static str, errno: i32) -> (e: Error)
        ensures
            e.func == func,
            e.errno == errno,
    {
        Error { func, errno }
    }

    /// The name of the C function that failed.
    pub fn func(&self) -> (f: &'static str)
        ensures
            f == self.func,
    {
        self.func
    }

    /// The `errno` that the failed call reported.
    pub fn errno(&self) -> (n: i32)
        ensures
            n == self.errno,
    {
        self.errno
    }
}

/// Checks the return code of a C function that returns an `int`: negative
/// codes are errors, whose `errno` is the code negated.
pub fn from_code(func: &'static str, code: i32) -> (r: Result<i32, Error>)
    ensures
        r matches Ok(v) ==> checked(func, code as int) == Ok::<int, Error>(v as int),
        r matches Err(e) ==> checked(func, code as int) == Err::<int, Error>(e),
        r is Ok <==> code >= 0,
{
    if code < 0 {
        let wide: i64 = code as i64;
        Err(Error { func, errno: (-wide) as i32 })
    } else {
        Ok(code)
    }
}

/// Checks the return code of a C function that returns an `ssize_t`, a count of
/// bytes on success.
pub fn from_size(func: &'static str, code: isize) -> (r: Result<usize, Error>)
    ensures
        r matches Ok(v) ==> checked(func, code as int) == Ok::<int, Error>(v as int),
        r matches Err(e) ==> checked(func, code as int) == Err::<int, Error>(e),
        r is Ok <==> code >= 0,
{
    if code < 0 {
        let wide: i128 = code as i128;
        Err(Error { func, errno: (-wide) as i32 })
    } else {
        Ok(code as usize)
    }
}

/// Checks the return code of a C function whose success carries no value.
pub fn check_unit(func: &'static str, code: i32) -> (r: Result<(), Error>)
    ensures
        r == checked_unit(func, code as int),
{
    if code < 0 {
        let wide: i64 = code as i64;
        Err(Error { func, errno: (-wide) as i32 })
    } else {
        Ok(())
    }
}

} // verus!

verus! {

/// `libc::ENOTSUP`, the `errno` of an operation that is not supported. Its
/// value depends on the target (95 on most Linux targets, 122 on MIPS, 45 on
/// SPARC); all that is claimed of it is that it is positive, which holds on
/// every Linux target of `libc`, the only targets that ALSA runs on.
#[verifier::external_body]
fn enotsup() -> (e: i32)
    ensures
        e > 0,
{
    libc::ENOTSUP
}

/// The error that `func` gave a value that no variant stands for.
pub fn unsupported(func: &'static str) -> (e: Error)
    ensures
        e.func == func,
        e.errno > 0,
{
    Error { func, errno: enotsup() }
}

} // verus!

verus! {

/// The `errno` of an error that reports a C string that is missing or is not
/// UTF-8.
pub const INVALID_STRING: i32 = 1;

/// The result of the check of a C string handed back by `func`: `None` stands
/// for a null pointer, `Some` for the bytes before the terminating NUL.
pub open spec fn spec_from_const(func: &'static str, bytes: Option<Seq<u8>>) -> Result<
    Seq<char>,
    Error,
> {
    match bytes {
        Some(b) => if vstd::utf8::valid_utf8(b) {
            Ok(vstd::utf8::decode_utf8(b))
        } else {
            Err(Error { func, errno: INVALID_STRING })
        },
        None => Err(Error { func, errno: INVALID_STRING }),
    }
}

/// `std::str::from_utf8`, which reads `bytes` as a string where they are
/// valid UTF-8 and fails otherwise; the claim is that its notion of valid
/// UTF-8 and of the characters encoded is the one written out in `vstd::utf8`.
#[verifier::external_body]
fn utf8_str(bytes: &[u8]) -> (r: Option<&str>)
    ensures
        r is Some <==> vstd::utf8::valid_utf8(bytes@),
        r matches Some(s) ==> s@ == vstd::utf8::decode_utf8(bytes@),
{
    std::str::from_utf8(bytes).ok()
}

/// The error that `func` handed back a string that is missing or is not UTF-8.
pub fn invalid_str(func: &'static str) -> (e: Error)
    ensures
        e == (Error { func, errno: INVALID_STRING }),
{
    Error { func, errno: INVALID_STRING }
}

/// The bytes of an optional C string, as a sequence.
pub open spec fn bytes_view(bytes: Option<Vec<u8>>) -> Option<Seq<u8>> {
    match bytes {
        Some(b) => Some(b@),
        None => None,
    }
}

/// A string result, with the string taken by its view.
pub open spec fn string_view(r: Result<String, Error>) -> Result<Seq<char>, Error> {
    match r {
        Ok(s) => Ok(s@),
        Err(e) => Err(e),
    }
}

/// Reads a C string handed back by `func` as a `String`: `None` stands for a
/// null pointer, `Some` for the bytes before the terminating NUL.
pub fn from_const(func: &'static str, bytes: Option<Vec<u8>>) -> (r: Result<String, Error>)
    ensures
        string_view(r) == spec_from_const(func, bytes_view(bytes)),
{
    match bytes {
        None => Err(invalid_str(func)),
        Some(b) => match utf8_str(b.as_slice()) {
            Some(s) => Ok(s.to_owned()),
            None => Err(invalid_str(func)),
        },
    }
}

/// Reading a C string keeps the whole string: a string read from bytes
/// `b` is one whose UTF-8 encoding is exactly `b`, every string is read back
/// from its own encoding, and a missing string or bytes that are not UTF-8
/// are refused.
pub proof fn lemma_from_const_keeps_whole_string(func: &'static str, b: Seq<u8>, s: Seq<char>)
    ensures
        spec_from_const(func, Some(b)) == Ok::<Seq<char>, Error>(s) ==> vstd::utf8::encode_utf8(s)
            == b,
        spec_from_const(func, Some(vstd::utf8::encode_utf8(s))) == Ok::<Seq<char>, Error>(s),
        !vstd::utf8::valid_utf8(b) ==> spec_from_const(func, Some(b)) == Err::<Seq<char>, Error>(
            Error { func, errno: INVALID_STRING },
        ),
        spec_from_const(func, None) == Err::<Seq<char>, Error>(
            Error { func, errno: INVALID_STRING },
        ),
{
    if vstd::utf8::valid_utf8(b) {
        vstd::utf8::decode_utf8_encode_utf8(b);
    }
    vstd::utf8::encode_utf8_valid_utf8(s);
    vstd::utf8::encode_utf8_decode_utf8(s);
}

} // verus!
