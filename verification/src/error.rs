use vstd::prelude::*;
use vstd::string::StringExecFns;

verus! {

/// Coarse classification of an error, used by the bootstrap fallback logic,
/// which falls back from "create" to "derive" only on a status-class failure.
#[derive(Clone, Copy, Debug, PartialEq, Eq, Structural)]
pub enum ErrorKind {
    Validation,
    Status,
    Transport,
}

/// Error taxonomy of the hot-path core.
///
/// `Validation` covers configuration and per-order validation failures,
/// `Status` a non-2xx HTTP response, and `Transport` a network or decode
/// failure. Status and transport errors are only ever produced by the
/// unverified I/O layer and handed back into the core as plain values.
#[derive(Clone, Debug, PartialEq, Eq)]
pub enum Error {
    Validation(String),
    Status(u16, String),
    Transport(String),
}

impl Error {
    pub open spec fn kind_spec(self) -> ErrorKind {
        match self {
            Error::Validation(_) => ErrorKind::Validation,
            Error::Status(_, _) => ErrorKind::Status,
            Error::Transport(_, ..) => ErrorKind::Transport,
        }
    }

    pub open spec fn message_spec(self) -> Seq<char> {
        match self {
            Error::Validation(m) => m@,
            Error::Status(_, m) => m@,
            Error::Transport(m) => m@,
        }
    }

    /// Builds a validation error from a static description.
    pub fn validation(message: &str) -> (e: Error)
        ensures
            e is Validation,
            e.message_spec() == message@,
    {
        Error::Validation(String::from_str(message))
    }

    /// Builds a status error carrying the offending HTTP status code.
    pub fn status(code: u16, message: &str) -> (e: Error)
        ensures
            e is Status,
            e->Status_0 == code,
            e.message_spec() == message@,
    {
        Error::Status(code, String::from_str(message))
    }

    /// Builds a transport error from a description of the network failure.
    pub fn transport(message: &str) -> (e: Error)
        ensures
            e is Transport,
            e.message_spec() == message@,
    {
        Error::Transport(String::from_str(message))
    }

    pub fn kind(&self) -> (r: ErrorKind)
        ensures
            r == self.kind_spec(),
    {
        match self {
            Error::Validation(_) => ErrorKind::Validation,
            Error::Status(_, _) => ErrorKind::Status,
            Error::Transport(_) => ErrorKind::Transport,
        }
    }

    /// The human-readable description carried by the error.
    pub fn message(&self) -> (r: &String)
        ensures
            r@ == self.message_spec(),
    {
        match self {
            Error::Validation(m) => m,
            Error::Status(_, m) => m,
            Error::Transport(m) => m,
        }
    }
}

/// The decimal digit characters.
pub open spec fn digit_char(d: nat) -> char {
    if d == 0 {
        '0'
    } else if d == 1 {
        '1'
    } else if d == 2 {
        '2'
    } else if d == 3 {
        '3'
    } else if d == 4 {
        '4'
    } else if d == 5 {
        '5'
    } else if d == 6 {
        '6'
    } else if d == 7 {
        '7'
    } else if d == 8 {
        '8'
    } else {
        '9'
    }
}

/// The decimal rendering of a number, most significant digit first.
pub open spec fn dec_str(v: nat) -> Seq<char>
    decreases v,
{
    if v < 10 {
        seq![digit_char(v)]
    } else {
        dec_str(v / 10) + seq![digit_char(v % 10)]
    }
}

/// Appends the decimal rendering of `v`, for error messages that carry the
/// offending value.
pub fn push_decimal_value(s: &mut String, v: u128)
    ensures
        final(s)@ == old(s)@ + dec_str(v as nat),
    decreases v,
{
    if v >= 10 {
        push_decimal_value(s, v / 10);
    }
    let d: u128 = v % 10;
    proof {
        reveal_strlit("0");
        reveal_strlit("1");
        reveal_strlit("2");
        reveal_strlit("3");
        reveal_strlit("4");
        reveal_strlit("5");
        reveal_strlit("6");
        reveal_strlit("7");
        reveal_strlit("8");
        reveal_strlit("9");
    }
    match d {
        0 => s.append("0"),
        1 => s.append("1"),
        2 => s.append("2"),
        3 => s.append("3"),
        4 => s.append("4"),
        5 => s.append("5"),
        6 => s.append("6"),
        7 => s.append("7"),
        8 => s.append("8"),
        _ => s.append("9"),
    }
    proof {
        if v >= 10 {
            assert(old(s)@ + dec_str((v / 10) as nat) + seq![digit_char((v % 10) as nat)]
                =~= old(s)@ + dec_str(v as nat));
        } else {
            assert(old(s)@ + seq![digit_char(v as nat)] =~= old(s)@ + dec_str(v as nat));
        }
    }
}

} // verus!
