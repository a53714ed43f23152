//! The failure taxonomy of the driver and the human-readable text of each
//! failure. Every operation surfaces problems as an [`MtError`] value, never
//! as a panic; the text always names the step that failed and, where one
//! exists, the status code the device reported.

use vstd::prelude::*;
use vstd::string::StringExecFns;

verus! {

/// Everything that can go wrong while talking to the controller.
#[derive(Debug)]
pub enum MtError {
    /// No session is open; the transport was not touched.
    NotConnected,
    /// The transport failed to send or receive; carries the underlying cause.
    TransportFailure(String),
    /// No response arrived within the read timeout.
    Timeout,
    /// The device answered with a non-OK status byte; carries that code.
    DeviceError(u8),
    /// The object id is absent from the object table of this controller.
    ObjectNotFound(u8),
    /// The object exists but no decode layout is known for its id.
    NotSerializable(u8),
    /// A register write would run past the declared size of the object.
    OutOfBounds(u8),
}

/// The character a single decimal digit prints as.
pub open spec fn digit_char(d: int) -> char {
    if d == 0 {
        '0'
    } else if d == 1 {
        '1'
    } else if d == 2 {
        '2'
    } else if d == 3 {
        '3'
    } else if d == 4 {
        '4'
    } else if d == 5 {
        '5'
    } else if d == 6 {
        '6'
    } else if d == 7 {
        '7'
    } else if d == 8 {
        '8'
    } else {
        '9'
    }
}

/// Decimal rendering of a non-negative number, most significant digit first.
pub open spec fn dec_seq(n: int) -> Seq<char>
    decreases n,
{
    if n < 10 {
        seq![digit_char(n)]
    } else {
        dec_seq(n / 10).push(digit_char(n % 10))
    }
}

/// The full message text of each failure.
pub open spec fn error_text(e: MtError) -> Seq<char> {
    match e {
        MtError::NotConnected => "Not connected."@,
        MtError::TransportFailure(cause) => "Transport failure: "@ + cause@,
        MtError::Timeout => "Timed out waiting for a response."@,
        MtError::DeviceError(code) => "Device reported an error ("@ + dec_seq(code as int)
            + ")"@,
        MtError::ObjectNotFound(id) => "Object "@ + dec_seq(id as int) + " not found"@,
        MtError::NotSerializable(id) => "Object type "@ + dec_seq(id as int)
            + " is not serializable"@,
        MtError::OutOfBounds(id) => "Attempt to write off the end of object "@ + dec_seq(
            id as int,
        ) + "."@,
    }
}

/// A one-character string holding a single decimal digit.
fn digit_string(d: u8) -> (s: String)
    requires
        d < 10,
    ensures
        s@ =~= seq![digit_char(d as int)],
{
    if d == 0 {
        proof {
            reveal_strlit("0");
        }
        String::from_str("0")
    } else if d == 1 {
        proof {
            reveal_strlit("1");
        }
        String::from_str("1")
    } else if d == 2 {
        proof {
            reveal_strlit("2");
        }
        String::from_str("2")
    } else if d == 3 {
        proof {
            reveal_strlit("3");
        }
        String::from_str("3")
    } else if d == 4 {
        proof {
            reveal_strlit("4");
        }
        String::from_str("4")
    } else if d == 5 {
        proof {
            reveal_strlit("5");
        }
        String::from_str("5")
    } else if d == 6 {
        proof {
            reveal_strlit("6");
        }
        String::from_str("6")
    } else if d == 7 {
        proof {
            reveal_strlit("7");
        }
        String::from_str("7")
    } else if d == 8 {
        proof {
            reveal_strlit("8");
        }
        String::from_str("8")
    } else {
        proof {
            reveal_strlit("9");
        }
        String::from_str("9")
    }
}

/// Decimal rendering of a byte, without leading zeros.
pub fn u8_decimal(n: u8) -> (s: String)
    ensures
        s@ =~= dec_seq(n as int),
{
    if n < 10 {
        digit_string(n)
    } else if n < 100 {
        let mut s = digit_string(n / 10);
        let ones = digit_string(n % 10);
        s.append(ones.as_str());
        proof {
            let ni = n as int;
            assert(dec_seq(ni / 10) =~= seq![digit_char(ni / 10)]);
            assert(dec_seq(ni) =~= seq![digit_char(ni / 10), digit_char(ni % 10)]);
        }
        s
    } else {
        let mut s = digit_string(n / 100);
        let tens = digit_string((n / 10) % 10);
        let ones = digit_string(n % 10);
        s.append(tens.as_str());
        s.append(ones.as_str());
        proof {
            let ni = n as int;
            vstd::arithmetic::div_mod::lemma_div_denominator(ni, 10, 10);
            assert(ni / 10 / 10 == ni / 100);
            assert(dec_seq(ni / 100) =~= seq![digit_char(ni / 100)]);
            assert(dec_seq(ni / 10) =~= seq![
                digit_char(ni / 100),
                digit_char(ni / 10 % 10),
            ]);
            assert(dec_seq(ni) =~= seq![
                digit_char(ni / 100),
                digit_char(ni / 10 % 10),
                digit_char(ni % 10),
            ]);
        }
        s
    }
}

impl MtError {
    /// The message a user sees for this failure.
    pub fn message(&self) -> (s: String)
        ensures
            s@ =~= error_text(*self),
    {
        match self {
            MtError::NotConnected => String::from_str("Not connected."),
            MtError::TransportFailure(cause) => {
                let mut s = String::from_str("Transport failure: ");
                s.append(cause.as_str());
                s
            },
            MtError::Timeout => String::from_str("Timed out waiting for a response."),
            MtError::DeviceError(code) => {
                let mut s = String::from_str("Device reported an error (");
                let num = u8_decimal(*code);
                s.append(num.as_str());
                s.append(")");
                s
            },
            MtError::ObjectNotFound(id) => {
                let mut s = String::from_str("Object ");
                let num = u8_decimal(*id);
                s.append(num.as_str());
                s.append(" not found");
                s
            },
            MtError::NotSerializable(id) => {
                let mut s = String::from_str("Object type ");
                let num = u8_decimal(*id);
                s.append(num.as_str());
                s.append(" is not serializable");
                s
            },
            MtError::OutOfBounds(id) => {
                let mut s = String::from_str("Attempt to write off the end of object ");
                let num = u8_decimal(*id);
                s.append(num.as_str());
                s.append(".");
                s
            },
        }
    }
}

} // verus!
