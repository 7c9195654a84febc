//! The thirty named interrupt conditions and their fixed bit positions.

use vstd::prelude::*;

verus! {

/// A single interrupt condition of the CAN peripheral.
///
/// Each condition sits at a fixed bit position (0 to 29) of the 32-bit
/// interrupt registers; [`Interrupt::number`] gives that position and
/// [`Interrupt::try_from`] maps a position back to the condition. Positions
/// 30 and 31 are reserved and have no condition.
#[derive(Debug, Copy, Clone, PartialEq, Eq, Structural)]
pub enum Interrupt {
    /// RF0N, bit 0
    RxFifo0NewMessage,
    /// RF0W, bit 1
    RxFifo0WatermarkReached,
    /// RF0F, bit 2
    RxFifo0Full,
    /// RF0L, bit 3
    RxFifo0MessageLost,
    /// RF1N, bit 4
    RxFifo1NewMessage,
    /// RF1W, bit 5
    RxFifo1WatermarkReached,
    /// RF1F, bit 6
    RxFifo1Full,
    /// RF1L, bit 7
    RxFifo1MessageLost,
    /// HPM, bit 8
    HighPriorityMessage,
    /// TC, bit 9
    TransmissionCompleted,
    /// TCF, bit 10
    TransmissionCancellationFinished,
    /// TFE, bit 11
    TxFifoEmpty,
    /// TEFN, bit 12
    TxEventFifoNewEntry,
    /// TEFW, bit 13
    TxEventFifoWatermarkReached,
    /// TEFF, bit 14
    TxEventFifoFull,
    /// TEFL, bit 15
    TxEventFifoElementLost,
    /// TSW, bit 16
    TimestampWraparound,
    /// MRAF, bit 17
    MessageRamAccessFailure,
    /// TOO, bit 18
    TimeoutOccured,
    /// DRX, bit 19
    MessageStoredToDedicatedRxBuffer,
    /// BEC, bit 20
    BitErrorCorrected,
    /// BEU, bit 21
    BitErrorUncorrected,
    /// ELO, bit 22
    ErrorLoggingOverflow,
    /// EP, bit 23
    ErrorPassive,
    /// EW, bit 24
    WarningStatusChanged,
    /// BO, bit 25
    BusOff,
    /// WDI, bit 26
    Watchdog,
    /// PEA, bit 27
    ProtocolErrorArbitration,
    /// PED, bit 28
    ProtocolErrorData,
    /// ARA, bit 29
    AccessToReservedAddress,
}

/// No interrupt with that number exists: only positions 0 to 29 name one.
#[derive(Debug)]
pub struct InvalidInterruptNumber;

/// The interrupt condition sitting at bit position `n`, for `n < 30`.
pub open spec fn interrupt_with_number(n: u32) -> Interrupt {
    if n == 0 {
        Interrupt::RxFifo0NewMessage
    } else if n == 1 {
        Interrupt::RxFifo0WatermarkReached
    } else if n == 2 {
        Interrupt::RxFifo0Full
    } else if n == 3 {
        Interrupt::RxFifo0MessageLost
    } else if n == 4 {
        Interrupt::RxFifo1NewMessage
    } else if n == 5 {
        Interrupt::RxFifo1WatermarkReached
    } else if n == 6 {
        Interrupt::RxFifo1Full
    } else if n == 7 {
        Interrupt::RxFifo1MessageLost
    } else if n == 8 {
        Interrupt::HighPriorityMessage
    } else if n == 9 {
        Interrupt::TransmissionCompleted
    } else if n == 10 {
        Interrupt::TransmissionCancellationFinished
    } else if n == 11 {
        Interrupt::TxFifoEmpty
    } else if n == 12 {
        Interrupt::TxEventFifoNewEntry
    } else if n == 13 {
        Interrupt::TxEventFifoWatermarkReached
    } else if n == 14 {
        Interrupt::TxEventFifoFull
    } else if n == 15 {
        Interrupt::TxEventFifoElementLost
    } else if n == 16 {
        Interrupt::TimestampWraparound
    } else if n == 17 {
        Interrupt::MessageRamAccessFailure
    } else if n == 18 {
        Interrupt::TimeoutOccured
    } else if n == 19 {
        Interrupt::MessageStoredToDedicatedRxBuffer
    } else if n == 20 {
        Interrupt::BitErrorCorrected
    } else if n == 21 {
        Interrupt::BitErrorUncorrected
    } else if n == 22 {
        Interrupt::ErrorLoggingOverflow
    } else if n == 23 {
        Interrupt::ErrorPassive
    } else if n == 24 {
        Interrupt::WarningStatusChanged
    } else if n == 25 {
        Interrupt::BusOff
    } else if n == 26 {
        Interrupt::Watchdog
    } else if n == 27 {
        Interrupt::ProtocolErrorArbitration
    } else if n == 28 {
        Interrupt::ProtocolErrorData
    } else {
        Interrupt::AccessToReservedAddress
    }
}

impl Interrupt {
    /// The bit position of this condition in the interrupt registers.
    pub open spec fn spec_number(self) -> u32 {
        match self {
            Interrupt::RxFifo0NewMessage => 0,
            Interrupt::RxFifo0WatermarkReached => 1,
            Interrupt::RxFifo0Full => 2,
            Interrupt::RxFifo0MessageLost => 3,
            Interrupt::RxFifo1NewMessage => 4,
            Interrupt::RxFifo1WatermarkReached => 5,
            Interrupt::RxFifo1Full => 6,
            Interrupt::RxFifo1MessageLost => 7,
            Interrupt::HighPriorityMessage => 8,
            Interrupt::TransmissionCompleted => 9,
            Interrupt::TransmissionCancellationFinished => 10,
            Interrupt::TxFifoEmpty => 11,
            Interrupt::TxEventFifoNewEntry => 12,
            Interrupt::TxEventFifoWatermarkReached => 13,
            Interrupt::TxEventFifoFull => 14,
            Interrupt::TxEventFifoElementLost => 15,
            Interrupt::TimestampWraparound => 16,
            Interrupt::MessageRamAccessFailure => 17,
            Interrupt::TimeoutOccured => 18,
            Interrupt::MessageStoredToDedicatedRxBuffer => 19,
            Interrupt::BitErrorCorrected => 20,
            Interrupt::BitErrorUncorrected => 21,
            Interrupt::ErrorLoggingOverflow => 22,
            Interrupt::ErrorPassive => 23,
            Interrupt::WarningStatusChanged => 24,
            Interrupt::BusOff => 25,
            Interrupt::Watchdog => 26,
            Interrupt::ProtocolErrorArbitration => 27,
            Interrupt::ProtocolErrorData => 28,
            Interrupt::AccessToReservedAddress => 29,
        }
    }

    /// The single-bit mask of this condition.
    pub open spec fn spec_mask(self) -> u32 {
        1u32 << self.spec_number()
    }

    /// The bit position of this condition, as a runtime value.
    pub fn number(self) -> (r: u8)
        ensures
            r == self.spec_number(),
            r < 30,
    {
        match self {
            Interrupt::RxFifo0NewMessage => 0,
            Interrupt::RxFifo0WatermarkReached => 1,
            Interrupt::RxFifo0Full => 2,
            Interrupt::RxFifo0MessageLost => 3,
            Interrupt::RxFifo1NewMessage => 4,
            Interrupt::RxFifo1WatermarkReached => 5,
            Interrupt::RxFifo1Full => 6,
            Interrupt::RxFifo1MessageLost => 7,
            Interrupt::HighPriorityMessage => 8,
            Interrupt::TransmissionCompleted => 9,
            Interrupt::TransmissionCancellationFinished => 10,
            Interrupt::TxFifoEmpty => 11,
            Interrupt::TxEventFifoNewEntry => 12,
            Interrupt::TxEventFifoWatermarkReached => 13,
            Interrupt::TxEventFifoFull => 14,
            Interrupt::TxEventFifoElementLost => 15,
            Interrupt::TimestampWraparound => 16,
            Interrupt::MessageRamAccessFailure => 17,
            Interrupt::TimeoutOccured => 18,
            Interrupt::MessageStoredToDedicatedRxBuffer => 19,
            Interrupt::BitErrorCorrected => 20,
            Interrupt::BitErrorUncorrected => 21,
            Interrupt::ErrorLoggingOverflow => 22,
            Interrupt::ErrorPassive => 23,
            Interrupt::WarningStatusChanged => 24,
            Interrupt::BusOff => 25,
            Interrupt::Watchdog => 26,
            Interrupt::ProtocolErrorArbitration => 27,
            Interrupt::ProtocolErrorData => 28,
            Interrupt::AccessToReservedAddress => 29,
        }
    }

    /// The single-bit mask of this condition, as a runtime value.
    pub fn mask(self) -> (r: u32)
        ensures
            r == self.spec_mask(),
    {
        1u32 << (self.number() as u32)
    }

    /// The short canonical code of this condition.
    pub open spec fn spec_mnemonic(self) -> Seq<char> {
        match self {
            Interrupt::RxFifo0NewMessage => "RF0N"@,
            Interrupt::RxFifo0WatermarkReached => "RF0W"@,
            Interrupt::RxFifo0Full => "RF0F"@,
            Interrupt::RxFifo0MessageLost => "RF0L"@,
            Interrupt::RxFifo1NewMessage => "RF1N"@,
            Interrupt::RxFifo1WatermarkReached => "RF1W"@,
            Interrupt::RxFifo1Full => "RF1F"@,
            Interrupt::RxFifo1MessageLost => "RF1L"@,
            Interrupt::HighPriorityMessage => "HPM"@,
            Interrupt::TransmissionCompleted => "TC"@,
            Interrupt::TransmissionCancellationFinished => "TCF"@,
            Interrupt::TxFifoEmpty => "TFE"@,
            Interrupt::TxEventFifoNewEntry => "TEFN"@,
            Interrupt::TxEventFifoWatermarkReached => "TEFW"@,
            Interrupt::TxEventFifoFull => "TEFF"@,
            Interrupt::TxEventFifoElementLost => "TEFL"@,
            Interrupt::TimestampWraparound => "TSW"@,
            Interrupt::MessageRamAccessFailure => "MRAF"@,
            Interrupt::TimeoutOccured => "TOO"@,
            Interrupt::MessageStoredToDedicatedRxBuffer => "DRX"@,
            Interrupt::BitErrorCorrected => "BEC"@,
            Interrupt::BitErrorUncorrected => "BEU"@,
            Interrupt::ErrorLoggingOverflow => "ELO"@,
            Interrupt::ErrorPassive => "EP"@,
            Interrupt::WarningStatusChanged => "EW"@,
            Interrupt::BusOff => "BO"@,
            Interrupt::Watchdog => "WDI"@,
            Interrupt::ProtocolErrorArbitration => "PEA"@,
            Interrupt::ProtocolErrorData => "PED"@,
            Interrupt::AccessToReservedAddress => "ARA"@,
        }
    }

    /// The short canonical code of this condition, as a runtime value.
    pub fn mnemonic(self) -> (r: &'static str)
        ensures
            r@ == self.spec_mnemonic(),
    {
        match self {
            Interrupt::RxFifo0NewMessage => "RF0N",
            Interrupt::RxFifo0WatermarkReached => "RF0W",
            Interrupt::RxFifo0Full => "RF0F",
            Interrupt::RxFifo0MessageLost => "RF0L",
            Interrupt::RxFifo1NewMessage => "RF1N",
            Interrupt::RxFifo1WatermarkReached => "RF1W",
            Interrupt::RxFifo1Full => "RF1F",
            Interrupt::RxFifo1MessageLost => "RF1L",
            Interrupt::HighPriorityMessage => "HPM",
            Interrupt::TransmissionCompleted => "TC",
            Interrupt::TransmissionCancellationFinished => "TCF",
            Interrupt::TxFifoEmpty => "TFE",
            Interrupt::TxEventFifoNewEntry => "TEFN",
            Interrupt::TxEventFifoWatermarkReached => "TEFW",
            Interrupt::TxEventFifoFull => "TEFF",
            Interrupt::TxEventFifoElementLost => "TEFL",
            Interrupt::TimestampWraparound => "TSW",
            Interrupt::MessageRamAccessFailure => "MRAF",
            Interrupt::TimeoutOccured => "TOO",
            Interrupt::MessageStoredToDedicatedRxBuffer => "DRX",
            Interrupt::BitErrorCorrected => "BEC",
            Interrupt::BitErrorUncorrected => "BEU",
            Interrupt::ErrorLoggingOverflow => "ELO",
            Interrupt::ErrorPassive => "EP",
            Interrupt::WarningStatusChanged => "EW",
            Interrupt::BusOff => "BO",
            Interrupt::Watchdog => "WDI",
            Interrupt::ProtocolErrorArbitration => "PEA",
            Interrupt::ProtocolErrorData => "PED",
            Interrupt::AccessToReservedAddress => "ARA",
        }
    }

    /// The condition at bit position `value`; positions 30 and up name no
    /// condition and are rejected.
    pub fn try_from(value: u8) -> (r: Result<Interrupt, InvalidInterruptNumber>)
        ensures
            match r {
                Ok(i) => value < 30 && i == interrupt_with_number(value as u32),
                Err(_) => value >= 30,
            },
    {
        match value {
            0 => Ok(Interrupt::RxFifo0NewMessage),
            1 => Ok(Interrupt::RxFifo0WatermarkReached),
            2 => Ok(Interrupt::RxFifo0Full),
            3 => Ok(Interrupt::RxFifo0MessageLost),
            4 => Ok(Interrupt::RxFifo1NewMessage),
            5 => Ok(Interrupt::RxFifo1WatermarkReached),
            6 => Ok(Interrupt::RxFifo1Full),
            7 => Ok(Interrupt::RxFifo1MessageLost),
            8 => Ok(Interrupt::HighPriorityMessage),
            9 => Ok(Interrupt::TransmissionCompleted),
            10 => Ok(Interrupt::TransmissionCancellationFinished),
            11 => Ok(Interrupt::TxFifoEmpty),
            12 => Ok(Interrupt::TxEventFifoNewEntry),
            13 => Ok(Interrupt::TxEventFifoWatermarkReached),
            14 => Ok(Interrupt::TxEventFifoFull),
            15 => Ok(Interrupt::TxEventFifoElementLost),
            16 => Ok(Interrupt::TimestampWraparound),
            17 => Ok(Interrupt::MessageRamAccessFailure),
            18 => Ok(Interrupt::TimeoutOccured),
            19 => Ok(Interrupt::MessageStoredToDedicatedRxBuffer),
            20 => Ok(Interrupt::BitErrorCorrected),
            21 => Ok(Interrupt::BitErrorUncorrected),
            22 => Ok(Interrupt::ErrorLoggingOverflow),
            23 => Ok(Interrupt::ErrorPassive),
            24 => Ok(Interrupt::WarningStatusChanged),
            25 => Ok(Interrupt::BusOff),
            26 => Ok(Interrupt::Watchdog),
            27 => Ok(Interrupt::ProtocolErrorArbitration),
            28 => Ok(Interrupt::ProtocolErrorData),
            29 => Ok(Interrupt::AccessToReservedAddress),
            _ => Err(InvalidInterruptNumber),
        }
    }
}

/// Every condition sits below position 30; the two top positions are
/// reserved.
pub proof fn lemma_number_below_30(i: Interrupt)
    ensures
        i.spec_number() < 30,
{
}

/// Mapping a condition to its position and back yields the condition again.
pub proof fn lemma_number_inverse(i: Interrupt)
    ensures
        interrupt_with_number(i.spec_number()) == i,
{
}

} // verus!
