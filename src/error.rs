//! Error taxonomy shared by the codec, the transport decisions and the
//! settings orchestration.
use vstd::prelude::*;
use vstd::string::StringExecFns;

verus! {

#[derive(Debug, Clone)]
pub enum DriverError {
    /// Transport-level failure, with the platform's detail.
    UsbError(String),
    /// No device with this vendor id and product id is present or openable.
    DeviceNotFound(u16, u16),
    /// The device is held by another process, after the bounded retries.
    Busy(String),
    /// A transfer moved fewer bytes than were asked for.
    IncompleteTransfer,
    /// A request value is out of the range the protocol accepts.
    InvalidParameter(String),
    /// Local file access failed.
    IoError(String),
    /// The platform lacks the capability.
    NotImplemented(String),
    /// A response frame could not be decoded.
    Decode(String),
    Other(String),
}

pub type DriverResult<T> = Result<T, DriverError>;

impl DriverError {
    pub open spec fn is_invalid_parameter(&self) -> bool {
        self is InvalidParameter
    }

    pub open spec fn is_decode(&self) -> bool {
        self is Decode
    }
}

/// Lower-case hexadecimal digit of `d`, which is below 16.
pub open spec fn hex_char(d: int) -> char {
    if d < 10 {
        ((d + 0x30) as u8) as char
    } else {
        ((d - 10 + 0x61) as u8) as char
    }
}

/// `v` as four lower-case hexadecimal digits.
pub open spec fn hex4(v: u16) -> Seq<char> {
    seq![
        hex_char(v as int / 4096),
        hex_char((v as int / 256) % 16),
        hex_char((v as int / 16) % 16),
        hex_char(v as int % 16),
    ]
}

/// The human-readable text of an error.
pub open spec fn message_of(e: DriverError) -> Seq<char> {
    match e {
        DriverError::UsbError(d) => "USB error: "@ + d@,
        DriverError::DeviceNotFound(v, p) => "Device "@ + hex4(v) + ":"@ + hex4(p) + " not found or busy"@,
        DriverError::Busy(d) => "Device busy: "@ + d@,
        DriverError::IncompleteTransfer => "Incomplete transfer"@,
        DriverError::InvalidParameter(d) => "Invalid parameter: "@ + d@,
        DriverError::IoError(d) => "IO error: "@ + d@,
        DriverError::NotImplemented(d) => "Not implemented: "@ + d@,
        DriverError::Decode(d) => "Decode error: "@ + d@,
        DriverError::Other(d) => "Error: "@ + d@,
    }
}

fn hex_digit_str(d: u16) -> (r: &'static str)
    requires
        d < 16,
    ensures
        r@ == seq![hex_char(d as int)],
{
    if d == 0 {
        proof {
            reveal_strlit("0");
        }
        "0"
    } else if d == 1 {
        proof {
            reveal_strlit("1");
        }
        "1"
    } else if d == 2 {
        proof {
            reveal_strlit("2");
        }
        "2"
    } else if d == 3 {
        proof {
            reveal_strlit("3");
        }
        "3"
    } else if d == 4 {
        proof {
            reveal_strlit("4");
        }
        "4"
    } else if d == 5 {
        proof {
            reveal_strlit("5");
        }
        "5"
    } else if d == 6 {
        proof {
            reveal_strlit("6");
        }
        "6"
    } else if d == 7 {
        proof {
            reveal_strlit("7");
        }
        "7"
    } else if d == 8 {
        proof {
            reveal_strlit("8");
        }
        "8"
    } else if d == 9 {
        proof {
            reveal_strlit("9");
        }
        "9"
    } else if d == 10 {
        proof {
            reveal_strlit("a");
        }
        "a"
    } else if d == 11 {
        proof {
            reveal_strlit("b");
        }
        "b"
    } else if d == 12 {
        proof {
            reveal_strlit("c");
        }
        "c"
    } else if d == 13 {
        proof {
            reveal_strlit("d");
        }
        "d"
    } else if d == 14 {
        proof {
            reveal_strlit("e");
        }
        "e"
    } else if d == 15 {
        proof {
            reveal_strlit("f");
        }
        "f"
    } else {
        proof {
            reveal_strlit("f");
        }
        "f"
    }
}

fn hex4_string(v: u16) -> (r: String)
    ensures
        r@ == hex4(v),
{
    let r = String::from_str(hex_digit_str(v / 4096)).concat(hex_digit_str((v / 256) % 16)).concat(
        hex_digit_str((v / 16) % 16),
    ).concat(hex_digit_str(v % 16));
    assert(r@ =~= hex4(v));
    r
}

impl DriverError {
    /// The human-readable text of this error.
    pub fn message(&self) -> (r: String)
        ensures
            r@ == message_of(*self),
    {
        match self {
            DriverError::UsbError(d) => String::from_str("USB error: ").concat(d.as_str()),
            DriverError::DeviceNotFound(v, p) => String::from_str("Device ").concat(hex4_string(*v).as_str()).concat(
                ":",
            ).concat(hex4_string(*p).as_str()).concat(" not found or busy"),
            DriverError::Busy(d) => String::from_str("Device busy: ").concat(d.as_str()),
            DriverError::IncompleteTransfer => String::from_str("Incomplete transfer"),
            DriverError::InvalidParameter(d) => String::from_str("Invalid parameter: ").concat(d.as_str()),
            DriverError::IoError(d) => String::from_str("IO error: ").concat(d.as_str()),
            DriverError::NotImplemented(d) => String::from_str("Not implemented: ").concat(d.as_str()),
            DriverError::Decode(d) => String::from_str("Decode error: ").concat(d.as_str()),
            DriverError::Other(d) => String::from_str("Error: ").concat(d.as_str()),
        }
    }
}

} // verus!
