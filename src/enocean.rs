//! Enumerated wire codes of the radio protocol and of the gateway.

use vstd::prelude::*;

verus! {

/// The type code of a radio telegram.
#[derive(Debug, Clone, Copy, PartialEq, Eq, Hash)]
pub enum Rorg {
    /// Repeated switch communication.
    RPS,
    /// One-byte communication.
    BS1,
    /// Four-byte communication.
    BS4,
    /// Variable-length data.
    VLD,
    /// Manufacturer-specific communication.
    MSC,
    /// Addressing destination telegram.
    ADT,
    /// Smart-acknowledge learn request.
    SmLrnReq,
    /// Smart-acknowledge learn answer.
    SmLrnAns,
    /// Smart-acknowledge reclaim.
    SmRec,
    /// Remote management.
    SysEx,
    /// Secure telegram.
    Sec,
    /// Secure telegram with encapsulated type.
    SecEncaps,
    /// Signal telegram.
    Signal,
    /// Universal teach-in.
    UTE,
}

/// The telegram type that a byte stands for.
pub open spec fn rorg_of(b: u8) -> Option<Rorg> {
    if b == 0xf6 {
        Some(Rorg::RPS)
    } else if b == 0xd5 {
        Some(Rorg::BS1)
    } else if b == 0xa5 {
        Some(Rorg::BS4)
    } else if b == 0xd2 {
        Some(Rorg::VLD)
    } else if b == 0xd1 {
        Some(Rorg::MSC)
    } else if b == 0xa6 {
        Some(Rorg::ADT)
    } else if b == 0xc6 {
        Some(Rorg::SmLrnReq)
    } else if b == 0xc7 {
        Some(Rorg::SmLrnAns)
    } else if b == 0xa7 {
        Some(Rorg::SmRec)
    } else if b == 0xc5 {
        Some(Rorg::SysEx)
    } else if b == 0x30 {
        Some(Rorg::Sec)
    } else if b == 0x31 {
        Some(Rorg::SecEncaps)
    } else if b == 0xd0 {
        Some(Rorg::Signal)
    } else if b == 0xd4 {
        Some(Rorg::UTE)
    } else {
        None
    }
}

impl Rorg {
    /// The byte that stands for this value on the wire.
    pub open spec fn spec_byte(self) -> u8 {
        match self {
            Rorg::RPS => 0xf6,
            Rorg::BS1 => 0xd5,
            Rorg::BS4 => 0xa5,
            Rorg::VLD => 0xd2,
            Rorg::MSC => 0xd1,
            Rorg::ADT => 0xa6,
            Rorg::SmLrnReq => 0xc6,
            Rorg::SmLrnAns => 0xc7,
            Rorg::SmRec => 0xa7,
            Rorg::SysEx => 0xc5,
            Rorg::Sec => 0x30,
            Rorg::SecEncaps => 0x31,
            Rorg::Signal => 0xd0,
            Rorg::UTE => 0xd4,
        }
    }

    /// The byte that stands for this value on the wire.
    pub fn to_byte(self) -> (r: u8)
        ensures
            r == self.spec_byte(),
    {
        match self {
            Rorg::RPS => 0xf6,
            Rorg::BS1 => 0xd5,
            Rorg::BS4 => 0xa5,
            Rorg::VLD => 0xd2,
            Rorg::MSC => 0xd1,
            Rorg::ADT => 0xa6,
            Rorg::SmLrnReq => 0xc6,
            Rorg::SmLrnAns => 0xc7,
            Rorg::SmRec => 0xa7,
            Rorg::SysEx => 0xc5,
            Rorg::Sec => 0x30,
            Rorg::SecEncaps => 0x31,
            Rorg::Signal => 0xd0,
            Rorg::UTE => 0xd4,
        }
    }

    /// The value a byte stands for; `None` for a byte outside the known set.
    pub fn from_byte(b: u8) -> (r: Option<Rorg>)
        ensures
            r == rorg_of(b),
    {
        if b == 0xf6 {
            Some(Rorg::RPS)
        } else if b == 0xd5 {
            Some(Rorg::BS1)
        } else if b == 0xa5 {
            Some(Rorg::BS4)
        } else if b == 0xd2 {
            Some(Rorg::VLD)
        } else if b == 0xd1 {
            Some(Rorg::MSC)
        } else if b == 0xa6 {
            Some(Rorg::ADT)
        } else if b == 0xc6 {
            Some(Rorg::SmLrnReq)
        } else if b == 0xc7 {
            Some(Rorg::SmLrnAns)
        } else if b == 0xa7 {
            Some(Rorg::SmRec)
        } else if b == 0xc5 {
            Some(Rorg::SysEx)
        } else if b == 0x30 {
            Some(Rorg::Sec)
        } else if b == 0x31 {
            Some(Rorg::SecEncaps)
        } else if b == 0xd0 {
            Some(Rorg::Signal)
        } else if b == 0xd4 {
            Some(Rorg::UTE)
        } else {
            None
        }
    }

    /// Reading back the byte of a value gives that value.
    pub proof fn lemma_byte_round_trip(self)
        ensures
            rorg_of(self.spec_byte()) == Some(self),
    {
    }

}

/// The return code of a gateway response.
#[derive(Debug, Clone, Copy, PartialEq, Eq, Hash)]
pub enum ReturnCode {
    /// The command succeeded.
    RetOk,
    /// The command failed.
    RetError,
    /// The command is not supported.
    RetNotSupported,
    /// A parameter was wrong.
    RetWrongParam,
    /// The operation was denied.
    RetOperationDenied,
    /// A lock is set.
    RetLockSet,
    /// The buffer is too small.
    RetBufferTooSmall,
    /// No buffer is free.
    RetNoFreeBuffer,
}

/// The return code that a byte stands for.
pub open spec fn return_code_of(b: u8) -> Option<ReturnCode> {
    if b == 0x00 {
        Some(ReturnCode::RetOk)
    } else if b == 0x01 {
        Some(ReturnCode::RetError)
    } else if b == 0x02 {
        Some(ReturnCode::RetNotSupported)
    } else if b == 0x03 {
        Some(ReturnCode::RetWrongParam)
    } else if b == 0x04 {
        Some(ReturnCode::RetOperationDenied)
    } else if b == 0x05 {
        Some(ReturnCode::RetLockSet)
    } else if b == 0x06 {
        Some(ReturnCode::RetBufferTooSmall)
    } else if b == 0x07 {
        Some(ReturnCode::RetNoFreeBuffer)
    } else {
        None
    }
}

impl ReturnCode {
    /// The byte that stands for this value on the wire.
    pub open spec fn spec_byte(self) -> u8 {
        match self {
            ReturnCode::RetOk => 0x00,
            ReturnCode::RetError => 0x01,
            ReturnCode::RetNotSupported => 0x02,
            ReturnCode::RetWrongParam => 0x03,
            ReturnCode::RetOperationDenied => 0x04,
            ReturnCode::RetLockSet => 0x05,
            ReturnCode::RetBufferTooSmall => 0x06,
            ReturnCode::RetNoFreeBuffer => 0x07,
        }
    }

    /// The byte that stands for this value on the wire.
    pub fn to_byte(self) -> (r: u8)
        ensures
            r == self.spec_byte(),
    {
        match self {
            ReturnCode::RetOk => 0x00,
            ReturnCode::RetError => 0x01,
            ReturnCode::RetNotSupported => 0x02,
            ReturnCode::RetWrongParam => 0x03,
            ReturnCode::RetOperationDenied => 0x04,
            ReturnCode::RetLockSet => 0x05,
            ReturnCode::RetBufferTooSmall => 0x06,
            ReturnCode::RetNoFreeBuffer => 0x07,
        }
    }

    /// The value a byte stands for; `None` for a byte outside the known set.
    pub fn from_byte(b: u8) -> (r: Option<ReturnCode>)
        ensures
            r == return_code_of(b),
    {
        if b == 0x00 {
            Some(ReturnCode::RetOk)
        } else if b == 0x01 {
            Some(ReturnCode::RetError)
        } else if b == 0x02 {
            Some(ReturnCode::RetNotSupported)
        } else if b == 0x03 {
            Some(ReturnCode::RetWrongParam)
        } else if b == 0x04 {
            Some(ReturnCode::RetOperationDenied)
        } else if b == 0x05 {
            Some(ReturnCode::RetLockSet)
        } else if b == 0x06 {
            Some(ReturnCode::RetBufferTooSmall)
        } else if b == 0x07 {
            Some(ReturnCode::RetNoFreeBuffer)
        } else {
            None
        }
    }

    /// Reading back the byte of a value gives that value.
    pub proof fn lemma_byte_round_trip(self)
        ensures
            return_code_of(self.spec_byte()) == Some(self),
    {
    }

}

} // verus!
