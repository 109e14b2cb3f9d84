//! Status codes that the TensorFlow host returns.
use vstd::prelude::*;

verus! {

/// A status code of the TensorFlow host; `0` is success.
#[derive(Clone, Copy, Debug, Hash, PartialEq, Eq, Structural, PartialOrd, Ord)]
pub struct WasmedgeTfErrno(u32);

pub const WASMEDGE_TF_ERRNO_SUCCESS: u32 = 0;

pub const WASMEDGE_TF_ERRNO_INVALID_ARGUMENT: u32 = 1;

pub const WASMEDGE_TF_ERRNO_INVALID_ENCODING: u32 = 2;

pub const WASMEDGE_TF_ERRNO_MISSING_MEMORY: u32 = 3;

pub const WASMEDGE_TF_ERRNO_BUSY: u32 = 4;

pub const WASMEDGE_TF_ERRNO_RUNTIME_ERROR: u32 = 5;

/// The code that a host status reads as when taken as an unsigned 32-bit number.
pub open spec fn status_code(ret: i32) -> u32 {
    if ret >= 0 {
        ret as u32
    } else {
        (ret + 0x1_0000_0000) as u32
    }
}

/// Whether the host gives `code` a name.
pub open spec fn is_known_code(code: u32) -> bool {
    code <= WASMEDGE_TF_ERRNO_RUNTIME_ERROR
}

/// The name of a known code.
pub open spec fn code_name(code: u32) -> Seq<char> {
    if code == WASMEDGE_TF_ERRNO_SUCCESS {
        "SUCCESS"@
    } else if code == WASMEDGE_TF_ERRNO_INVALID_ARGUMENT {
        "INVALID_ARGUMENT"@
    } else if code == WASMEDGE_TF_ERRNO_INVALID_ENCODING {
        "INVALID_ENCODING"@
    } else if code == WASMEDGE_TF_ERRNO_MISSING_MEMORY {
        "MISSING_MEMORY"@
    } else if code == WASMEDGE_TF_ERRNO_BUSY {
        "BUSY"@
    } else {
        "RUNTIME_ERROR"@
    }
}

/// The character of the decimal digit `d`.
pub open spec fn digit_char(d: nat) -> char {
    if d == 0 {
        '0'
    } else if d == 1 {
        '1'
    } else if d == 2 {
        '2'
    } else if d == 3 {
        '3'
    } else if d == 4 {
        '4'
    } else if d == 5 {
        '5'
    } else if d == 6 {
        '6'
    } else if d == 7 {
        '7'
    } else if d == 8 {
        '8'
    } else {
        '9'
    }
}

/// The decimal digits of `n`, without leading zeros.
pub open spec fn decimal(n: nat) -> Seq<char>
    decreases n,
{
    if n < 10 {
        seq![digit_char(n)]
    } else {
        decimal(n / 10) + seq![digit_char(n % 10)]
    }
}

/// The text of an error: its name, then its code in decimal.
pub open spec fn describe_code(code: u32) -> Seq<char> {
    code_name(code) + " (error "@ + decimal(code as nat) + ")"@
}

fn digit_str(d: u32) -> (r: &'static str)
    requires
        d < 10,
    ensures
        r@ == seq![digit_char(d as nat)],
{
    proof {
        reveal_strlit("0");
        reveal_strlit("1");
        reveal_strlit("2");
        reveal_strlit("3");
        reveal_strlit("4");
        reveal_strlit("5");
        reveal_strlit("6");
        reveal_strlit("7");
        reveal_strlit("8");
        reveal_strlit("9");
    }
    match d {
        0 => "0",
        1 => "1",
        2 => "2",
        3 => "3",
        4 => "4",
        5 => "5",
        6 => "6",
        7 => "7",
        8 => "8",
        _ => "9",
    }
}

fn append_decimal(s: &mut String, n: u32)
    ensures
        final(s)@ == old(s)@ + decimal(n as nat),
    decreases n,
{
    let ghost before = s@;
    if n >= 10 {
        append_decimal(s, n / 10);
    }
    s.append(digit_str(n % 10));
    assert(s@ =~= before + decimal(n as nat));
}

impl View for WasmedgeTfErrno {
    type V = u32;

    closed spec fn view(&self) -> u32 {
        self.0
    }
}

impl WasmedgeTfErrno {
    /// The error with the given numeric code.
    pub fn from_raw(code: u32) -> (e: WasmedgeTfErrno)
        ensures
            e@ == code,
    {
        WasmedgeTfErrno(code)
    }

    /// The numeric code.
    pub fn raw(&self) -> (r: u32)
        ensures
            r == self@,
    {
        self.0
    }

    /// The name of the code, for the codes that the host defines.
    pub fn name(&self) -> (r: &'static str)
        requires
            is_known_code(self@),
        ensures
            r@ == code_name(self@),
    {
        match self.0 {
            0 => "SUCCESS",
            1 => "INVALID_ARGUMENT",
            2 => "INVALID_ENCODING",
            3 => "MISSING_MEMORY",
            4 => "BUSY",
            _ => "RUNTIME_ERROR",
        }
    }

    /// The error as text: its name, then its code in decimal, as in
    /// `BUSY (error 4)`.
    pub fn describe(&self) -> (r: String)
        requires
            is_known_code(self@),
        ensures
            r@ == describe_code(self@),
    {
        let mut text = String::from_str(self.name());
        text.append(" (error ");
        append_decimal(&mut text, self.0);
        text.append(")");
        text
    }

    /// The host attaches no message text to any of its codes.
    pub fn message(&self) -> (r: &'static str)
        requires
            is_known_code(self@),
        ensures
            r@ == Seq::<char>::empty(),
    {
        proof {
            reveal_strlit("");
        }
        ""
    }
}

/// Reads a host status: `0` is success, any other value is the error with that code.
pub fn check_status(ret: i32) -> (r: Result<(), WasmedgeTfErrno>)
    ensures
        r is Ok <==> ret == 0,
        r matches Err(e) ==> e@ == status_code(ret),
{
    if ret == 0 {
        Ok(())
    } else if ret > 0 {
        Err(WasmedgeTfErrno(ret as u32))
    } else {
        Err(WasmedgeTfErrno((ret as i64 + 0x1_0000_0000) as u32))
    }
}

} // verus!
