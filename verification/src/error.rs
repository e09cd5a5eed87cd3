use vstd::prelude::*;
use vstd::string::StringExecFns;

verus! {

/// Every way an operation of the engine can fail.
#[derive(Debug, Clone, Copy, PartialEq, Eq, Structural)]
pub enum Error {
    /// No backend exists for this operating system and architecture.
    UnsupportedPlatform,
    /// A required address was null.
    NullPointer,
    /// An argument was malformed.
    InvalidInput,
    /// The target address already carries a hook.
    AlreadyHooked,
    /// The target address carries no hook.
    HookNotFound,
    /// A symbol could not be resolved.
    SymbolNotFound,
    /// The bytes at the target are not valid instructions.
    DecodeFailed,
    /// Relocation produced no instructions.
    RelocationFailed,
    /// The relocated instructions could not be encoded at the trampoline.
    EncodeFailed,
    /// The saved bytes do not match the recorded patch length.
    PatchTooSmall,
    /// An operating system error on a Unix platform, with its `errno`.
    Unix(i32),
    /// An operating system error on Windows, with its last-error code.
    Win32(u32),
}

/// The character for the decimal digit `d`.
pub open spec fn digit_char(d: nat) -> char {
    if d == 0 {
        '0'
    } else if d == 1 {
        '1'
    } else if d == 2 {
        '2'
    } else if d == 3 {
        '3'
    } else if d == 4 {
        '4'
    } else if d == 5 {
        '5'
    } else if d == 6 {
        '6'
    } else if d == 7 {
        '7'
    } else if d == 8 {
        '8'
    } else {
        '9'
    }
}

/// The decimal digits of `n`, without leading zeros.
pub open spec fn digits(n: nat) -> Seq<char>
    decreases n,
{
    if n < 10 {
        seq![digit_char(n)]
    } else {
        digits(n / 10).push(digit_char(n % 10))
    }
}

/// The decimal text of `v`, with a minus sign where it is negative.
pub open spec fn decimal(v: int) -> Seq<char> {
    if v < 0 {
        seq!['-'] + digits((-v) as nat)
    } else {
        digits(v as nat)
    }
}

/// The text of the decimal digit `d`.
fn digit_text(d: u64) -> (r: &'static str)
    requires
        d < 10,
    ensures
        r@ == seq![digit_char(d as nat)],
{
    proof {
        reveal_strlit("0");
        reveal_strlit("1");
        reveal_strlit("2");
        reveal_strlit("3");
        reveal_strlit("4");
        reveal_strlit("5");
        reveal_strlit("6");
        reveal_strlit("7");
        reveal_strlit("8");
        reveal_strlit("9");
    }
    let r: &'static str = if d == 0 {
        "0"
    } else if d == 1 {
        "1"
    } else if d == 2 {
        "2"
    } else if d == 3 {
        "3"
    } else if d == 4 {
        "4"
    } else if d == 5 {
        "5"
    } else if d == 6 {
        "6"
    } else if d == 7 {
        "7"
    } else if d == 8 {
        "8"
    } else {
        "9"
    };
    assert(r@ =~= seq![digit_char(d as nat)]);
    r
}

/// Appends the decimal digits of `n` to `out`.
fn append_digits(out: &mut String, n: u64)
    ensures
        final(out)@ == old(out)@ + digits(n as nat),
    decreases n,
{
    if n >= 10 {
        append_digits(out, n / 10);
    }
    out.append(digit_text(n % 10));
    assert(out@ =~= old(out)@ + digits(n as nat));
}

/// Appends the decimal text of `v` to `out`.
fn append_decimal(out: &mut String, v: i64)
    requires
        v > i64::MIN,
    ensures
        final(out)@ == old(out)@ + decimal(v as int),
{
    if v < 0 {
        proof {
            reveal_strlit("-");
        }
        out.append("-");
        append_digits(out, (-v) as u64);
        assert(out@ =~= old(out)@ + decimal(v as int));
    } else {
        append_digits(out, v as u64);
    }
}

impl Error {
    /// What the error says, as a sequence of characters.
    pub open spec fn spec_message(self) -> Seq<char> {
        match self {
            Error::UnsupportedPlatform => "unsupported platform"@,
            Error::NullPointer => "null pointer"@,
            Error::InvalidInput => "invalid input"@,
            Error::AlreadyHooked => "target already hooked"@,
            Error::HookNotFound => "hook not found"@,
            Error::SymbolNotFound => "symbol not found"@,
            Error::DecodeFailed => "instruction decode failed"@,
            Error::RelocationFailed => "instruction relocation failed"@,
            Error::EncodeFailed => "instruction encode failed"@,
            Error::PatchTooSmall => "patch region too small"@,
            Error::Unix(code) => "unix error: "@ + decimal(code as int),
            Error::Win32(code) => "win32 error: "@ + decimal(code as int),
        }
    }

    /// What the error says.
    pub fn message(&self) -> (r: String)
        ensures
            r@ == self.spec_message(),
    {
        match self {
            Error::UnsupportedPlatform => String::from_str("unsupported platform"),
            Error::NullPointer => String::from_str("null pointer"),
            Error::InvalidInput => String::from_str("invalid input"),
            Error::AlreadyHooked => String::from_str("target already hooked"),
            Error::HookNotFound => String::from_str("hook not found"),
            Error::SymbolNotFound => String::from_str("symbol not found"),
            Error::DecodeFailed => String::from_str("instruction decode failed"),
            Error::RelocationFailed => String::from_str("instruction relocation failed"),
            Error::EncodeFailed => String::from_str("instruction encode failed"),
            Error::PatchTooSmall => String::from_str("patch region too small"),
            Error::Unix(code) => {
                let mut text: String = String::from_str("unix error: ");
                append_decimal(&mut text, *code as i64);
                text
            },
            Error::Win32(code) => {
                let mut text: String = String::from_str("win32 error: ");
                append_decimal(&mut text, *code as i64);
                text
            },
        }
    }
}

} // verus!
