use vstd::prelude::*;
use vstd::string::{StrSliceExecFns, StringExecFns};

verus! {

/// Why an operation on firewall rules did not succeed.
#[derive(Clone, Copy, Debug, PartialEq, Eq, Structural)]
pub enum Error {
    /// A call into the native interface failed with this status code.
    Native(u32),
    /// No rule carries the name that was asked for.
    NotFound,
    /// A text does not fit into a native text slot together with its terminator.
    TooLong,
    /// A native text slot holds no terminator, or the bytes before it are not well-formed text.
    Decode,
}

/// What a status code of the native interface means: zero is success, and
/// every other value is the failure carrying that code.
pub open spec fn status_outcome(status: u32) -> Result<(), Error> {
    if status == 0 {
        Ok(())
    } else {
        Err(Error::Native(status))
    }
}

/// Turns a status code of the native interface into a result.
pub fn check_status(status: u32) -> (res: Result<(), Error>)
    ensures
        res == status_outcome(status),
{
    if status == 0 {
        Ok(())
    } else {
        Err(Error::Native(status))
    }
}

/// The character of a hexadecimal digit, in lower case.
pub open spec fn hex_digit(d: int) -> char
    recommends
        0 <= d < 16,
{
    "0123456789abcdef"@[d]
}

/// A number in hexadecimal, most significant digit first, filled up with
/// zeros in front to at least `width` digits.
pub open spec fn hex_digits(n: nat, width: nat) -> Seq<char>
    decreases n, width,
{
    if n < 16 && width <= 1 {
        seq![hex_digit(n as int)]
    } else {
        hex_digits(
            n / 16,
            if width > 0 {
                (width - 1) as nat
            } else {
                0
            },
        ) + seq![hex_digit((n % 16) as int)]
    }
}

/// A status code as text: `0x` and the code in hexadecimal, with at least
/// six digits.
pub open spec fn status_text(code: u32) -> Seq<char> {
    "0x"@ + hex_digits(code as nat, 6)
}

/// The one-character text of a hexadecimal digit.
fn hex_digit_text(d: u32) -> (s: &'static str)
    requires
        d < 16,
    ensures
        s@ == seq![hex_digit(d as int)],
{
    let digits = "0123456789abcdef";
    proof {
        reveal_strlit("0123456789abcdef");
    }
    let s = digits.substring_ascii(d as usize, d as usize + 1);
    assert(s@ =~= seq![hex_digit(d as int)]);
    s
}

/// A status code as text.
fn show_status(code: u32) -> (s: String)
    ensures
        s@ == status_text(code),
{
    // The digits behind the first one, the least significant first.
    let mut low: Vec<u32> = Vec::new();
    let mut n: u32 = code;
    let mut width: usize = 6;
    let ghost mut tail: Seq<char> = Seq::empty();
    while !(n < 16 && width <= 1)
        invariant
            width <= 6,
            low@.len() == tail.len(),
            forall|j: int| 0 <= j < low@.len() ==> low@[j] < 16,
            forall|j: int|
                0 <= j < low@.len() ==> tail[j] == hex_digit(low@[low@.len() - 1 - j] as int),
            hex_digits(code as nat, 6) == hex_digits(n as nat, width as nat) + tail,
        decreases n, width,
    {
        low.push(n % 16);
        proof {
            let rest = hex_digits(
                (n / 16) as nat,
                if width > 0 {
                    (width - 1) as nat
                } else {
                    0
                },
            );
            let digit = seq![hex_digit((n % 16) as int)];
            assert(rest + digit + tail =~= rest + (digit + tail));
            tail = digit + tail;
        }
        n = n / 16;
        if width > 0 {
            width = width - 1;
        }
    }
    let mut s = String::from_str("0x");
    s.append(hex_digit_text(n));
    let mut k: usize = low.len();
    while k > 0
        invariant
            k <= low@.len(),
            low@.len() == tail.len(),
            forall|j: int| 0 <= j < low@.len() ==> low@[j] < 16,
            forall|j: int|
                0 <= j < low@.len() ==> tail[j] == hex_digit(low@[low@.len() - 1 - j] as int),
            s@ == "0x"@ + seq![hex_digit(n as int)] + tail.take(low@.len() - k),
        decreases k,
    {
        k = k - 1;
        s.append(hex_digit_text(low[k]));
        assert(s@ =~= "0x"@ + seq![hex_digit(n as int)] + tail.take(low@.len() - k));
    }
    assert(s@ =~= status_text(code));
    s
}

impl Error {
    /// The error as text for a reader: a status code of the native
    /// interface in hexadecimal, every other error in words.
    pub open spec fn text(self) -> Seq<char> {
        match self {
            Error::Native(code) => status_text(code),
            Error::NotFound => "rule not found"@,
            Error::TooLong => "text too long for a native text slot"@,
            Error::Decode => "native text slot holds no text"@,
        }
    }

    /// The error as text for a reader.
    pub fn to_string(&self) -> (s: String)
        ensures
            s@ == self.text(),
    {
        match self {
            Error::Native(code) => show_status(*code),
            Error::NotFound => String::from_str("rule not found"),
            Error::TooLong => String::from_str("text too long for a native text slot"),
            Error::Decode => String::from_str("native text slot holds no text"),
        }
    }
}

} // verus!
