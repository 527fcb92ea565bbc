use vstd::prelude::*;

verus! {

/// Why a power-supply reading could not be used.
#[derive(Debug, Clone, Copy, PartialEq, Eq, Structural)]
pub enum ReadError {
    /// The capacity text is not a decimal number from 0 to 255.
    Capacity,
    /// The AC-online text is not a decimal number from 0 to 255.
    AcOnline,
}

/// What `str::trim` leaves of a text: the text without its leading and
/// trailing Unicode whitespace.
pub uninterp spec fn trim_of(s: Seq<char>) -> Seq<char>;

pub open spec fn is_decimal_digit(c: char) -> bool {
    '0' <= c && c <= '9'
}

/// Value of a sequence of decimal digits, most significant first.
pub open spec fn digits_value(s: Seq<char>) -> nat
    decreases s.len(),
{
    if s.len() == 0 {
        0
    } else {
        digits_value(s.drop_last()) * 10 + ((s.last() as int) - ('0' as int)) as nat
    }
}

/// The text with one leading `+` sign, if present, removed.
pub open spec fn unsigned_part(s: Seq<char>) -> Seq<char> {
    if s.len() > 0 && s[0] == '+' {
        s.drop_first()
    } else {
        s
    }
}

/// The `u8` that a text spells in decimal: an optional `+` followed by at
/// least one digit, with a value of at most 255; `None` for anything else.
pub open spec fn decimal_u8(s: Seq<char>) -> Option<u8> {
    let d = unsigned_part(s);
    if d.len() > 0 && (forall|i: int| 0 <= i < d.len() ==> is_decimal_digit(#[trigger] d[i]))
        && digits_value(d) <= 255 {
        Some(digits_value(d) as u8)
    } else {
        None
    }
}

/// Relies on `str::trim`: removes leading and trailing whitespace, and the
/// result depends on the characters of the text alone.
#[verifier::external_body]
pub(crate) fn trim_whitespace(s: &str) -> (r: &str)
    ensures
        r@ == trim_of(s@),
{
    s.trim()
}

/// Relies on `u8`'s `FromStr` (`str::parse::<u8>`): accepts an optional `+`
/// followed by decimal digits whose value fits in a `u8`, and nothing else.
#[verifier::external_body]
fn parse_u8(s: &str) -> (r: Option<u8>)
    ensures
        r == decimal_u8(s@),
{
    s.parse::<u8>().ok()
}

/// Reads the charge percentage from the trimmed content of the capacity file.
pub fn parse_capacity(field: &str) -> (r: Result<u8, ReadError>)
    ensures
        r == match decimal_u8(field@) {
            Some(v) => Ok::<u8, ReadError>(v),
            None => Err::<u8, ReadError>(ReadError::Capacity),
        },
{
    match parse_u8(field) {
        Some(v) => Ok(v),
        None => Err(ReadError::Capacity),
    }
}

/// Reads the AC-online flag from the trimmed content of its file: zero means
/// unplugged, any other number plugged in.
pub fn parse_online(field: &str) -> (r: Result<bool, ReadError>)
    ensures
        r == match decimal_u8(field@) {
            Some(v) => Ok::<bool, ReadError>(v != 0),
            None => Err::<bool, ReadError>(ReadError::AcOnline),
        },
{
    match parse_u8(field) {
        Some(v) => Ok(v != 0),
        None => Err(ReadError::AcOnline),
    }
}

} // verus!
