//! Decoding of the exception syndrome register and of data-abort detail.
//! Every function here is total: codes outside the architectural tables
//! decode to an explicit "unknown" value.
use vstd::prelude::*;

verus! {

/// Exception class, bits [31:26] of the syndrome register.
#[derive(Debug, Clone, Copy, PartialEq, Eq, Structural)]
pub enum ExceptionClass {
    Unknown,
    WfiWfe,
    SimdFp,
    IllegalExecution,
    SvcAarch32,
    SvcAarch64,
    MsrMrsTrap,
    InstructionAbortLowerEL,
    InstructionAbortSameEL,
    PcAlignment,
    DataAbortLowerEL,
    DataAbortSameEL,
    SpAlignment,
    FpAarch32,
    FpAarch64,
    Serror,
    BreakpointLowerEL,
    BreakpointSameEL,
    SoftwareStepLowerEL,
    SoftwareStepSameEL,
    WatchpointLowerEL,
    WatchpointSameEL,
    BkptAarch32,
    BrkAarch64,
}

/// The class that a 6-bit class code stands for; codes outside the table
/// are `Unknown`.
pub open spec fn class_of_code(code: u8) -> ExceptionClass {
    if code == 0x01 {
        ExceptionClass::WfiWfe
    } else if code == 0x07 {
        ExceptionClass::SimdFp
    } else if code == 0x0E {
        ExceptionClass::IllegalExecution
    } else if code == 0x11 {
        ExceptionClass::SvcAarch32
    } else if code == 0x15 {
        ExceptionClass::SvcAarch64
    } else if code == 0x18 {
        ExceptionClass::MsrMrsTrap
    } else if code == 0x20 {
        ExceptionClass::InstructionAbortLowerEL
    } else if code == 0x21 {
        ExceptionClass::InstructionAbortSameEL
    } else if code == 0x22 {
        ExceptionClass::PcAlignment
    } else if code == 0x24 {
        ExceptionClass::DataAbortLowerEL
    } else if code == 0x25 {
        ExceptionClass::DataAbortSameEL
    } else if code == 0x26 {
        ExceptionClass::SpAlignment
    } else if code == 0x28 {
        ExceptionClass::FpAarch32
    } else if code == 0x2C {
        ExceptionClass::FpAarch64
    } else if code == 0x2F {
        ExceptionClass::Serror
    } else if code == 0x30 {
        ExceptionClass::BreakpointLowerEL
    } else if code == 0x31 {
        ExceptionClass::BreakpointSameEL
    } else if code == 0x32 {
        ExceptionClass::SoftwareStepLowerEL
    } else if code == 0x33 {
        ExceptionClass::SoftwareStepSameEL
    } else if code == 0x34 {
        ExceptionClass::WatchpointLowerEL
    } else if code == 0x35 {
        ExceptionClass::WatchpointSameEL
    } else if code == 0x38 {
        ExceptionClass::BkptAarch32
    } else if code == 0x3C {
        ExceptionClass::BrkAarch64
    } else {
        ExceptionClass::Unknown
    }
}

/// The codes that the class table lists.
pub open spec fn is_listed_class_code(code: u8) -> bool {
    code == 0x00 || code == 0x01 || code == 0x07 || code == 0x0E || code == 0x11 || code == 0x15
        || code == 0x18 || code == 0x20 || code == 0x21 || code == 0x22 || code == 0x24
        || code == 0x25 || code == 0x26 || code == 0x28 || code == 0x2C || code == 0x2F
        || code == 0x30 || code == 0x31 || code == 0x32 || code == 0x33 || code == 0x34
        || code == 0x35 || code == 0x38 || code == 0x3C
}

impl ExceptionClass {
    /// The architectural class code of each variant.
    pub open spec fn code_spec(self) -> u8 {
        match self {
            ExceptionClass::Unknown => 0x00,
            ExceptionClass::WfiWfe => 0x01,
            ExceptionClass::SimdFp => 0x07,
            ExceptionClass::IllegalExecution => 0x0E,
            ExceptionClass::SvcAarch32 => 0x11,
            ExceptionClass::SvcAarch64 => 0x15,
            ExceptionClass::MsrMrsTrap => 0x18,
            ExceptionClass::InstructionAbortLowerEL => 0x20,
            ExceptionClass::InstructionAbortSameEL => 0x21,
            ExceptionClass::PcAlignment => 0x22,
            ExceptionClass::DataAbortLowerEL => 0x24,
            ExceptionClass::DataAbortSameEL => 0x25,
            ExceptionClass::SpAlignment => 0x26,
            ExceptionClass::FpAarch32 => 0x28,
            ExceptionClass::FpAarch64 => 0x2C,
            ExceptionClass::Serror => 0x2F,
            ExceptionClass::BreakpointLowerEL => 0x30,
            ExceptionClass::BreakpointSameEL => 0x31,
            ExceptionClass::SoftwareStepLowerEL => 0x32,
            ExceptionClass::SoftwareStepSameEL => 0x33,
            ExceptionClass::WatchpointLowerEL => 0x34,
            ExceptionClass::WatchpointSameEL => 0x35,
            ExceptionClass::BkptAarch32 => 0x38,
            ExceptionClass::BrkAarch64 => 0x3C,
        }
    }

    /// The architectural class code of this variant.
    pub fn code(&self) -> (r: u8)
        ensures
            r == self.code_spec(),
    {
        match self {
            ExceptionClass::Unknown => 0x00,
            ExceptionClass::WfiWfe => 0x01,
            ExceptionClass::SimdFp => 0x07,
            ExceptionClass::IllegalExecution => 0x0E,
            ExceptionClass::SvcAarch32 => 0x11,
            ExceptionClass::SvcAarch64 => 0x15,
            ExceptionClass::MsrMrsTrap => 0x18,
            ExceptionClass::InstructionAbortLowerEL => 0x20,
            ExceptionClass::InstructionAbortSameEL => 0x21,
            ExceptionClass::PcAlignment => 0x22,
            ExceptionClass::DataAbortLowerEL => 0x24,
            ExceptionClass::DataAbortSameEL => 0x25,
            ExceptionClass::SpAlignment => 0x26,
            ExceptionClass::FpAarch32 => 0x28,
            ExceptionClass::FpAarch64 => 0x2C,
            ExceptionClass::Serror => 0x2F,
            ExceptionClass::BreakpointLowerEL => 0x30,
            ExceptionClass::BreakpointSameEL => 0x31,
            ExceptionClass::SoftwareStepLowerEL => 0x32,
            ExceptionClass::SoftwareStepSameEL => 0x33,
            ExceptionClass::WatchpointLowerEL => 0x34,
            ExceptionClass::WatchpointSameEL => 0x35,
            ExceptionClass::BkptAarch32 => 0x38,
            ExceptionClass::BrkAarch64 => 0x3C,
        }
    }
}

impl From<u8> for ExceptionClass {
    fn from(value: u8) -> Self {
        if value == 0x01 {
            ExceptionClass::WfiWfe
        } else if value == 0x07 {
            ExceptionClass::SimdFp
        } else if value == 0x0E {
            ExceptionClass::IllegalExecution
        } else if value == 0x11 {
            ExceptionClass::SvcAarch32
        } else if value == 0x15 {
            ExceptionClass::SvcAarch64
        } else if value == 0x18 {
            ExceptionClass::MsrMrsTrap
        } else if value == 0x20 {
            ExceptionClass::InstructionAbortLowerEL
        } else if value == 0x21 {
            ExceptionClass::InstructionAbortSameEL
        } else if value == 0x22 {
            ExceptionClass::PcAlignment
        } else if value == 0x24 {
            ExceptionClass::DataAbortLowerEL
        } else if value == 0x25 {
            ExceptionClass::DataAbortSameEL
        } else if value == 0x26 {
            ExceptionClass::SpAlignment
        } else if value == 0x28 {
            ExceptionClass::FpAarch32
        } else if value == 0x2C {
            ExceptionClass::FpAarch64
        } else if value == 0x2F {
            ExceptionClass::Serror
        } else if value == 0x30 {
            ExceptionClass::BreakpointLowerEL
        } else if value == 0x31 {
            ExceptionClass::BreakpointSameEL
        } else if value == 0x32 {
            ExceptionClass::SoftwareStepLowerEL
        } else if value == 0x33 {
            ExceptionClass::SoftwareStepSameEL
        } else if value == 0x34 {
            ExceptionClass::WatchpointLowerEL
        } else if value == 0x35 {
            ExceptionClass::WatchpointSameEL
        } else if value == 0x38 {
            ExceptionClass::BkptAarch32
        } else if value == 0x3C {
            ExceptionClass::BrkAarch64
        } else {
            ExceptionClass::Unknown
        }
    }
}

impl vstd::std_specs::convert::FromSpecImpl<u8> for ExceptionClass {
    open spec fn obeys_from_spec() -> bool {
        true
    }

    open spec fn from_spec(v: u8) -> ExceptionClass {
        class_of_code(v)
    }
}

/// Class code field of a syndrome value, bits [31:26].
pub open spec fn esr_class_code(esr: u64) -> u8 {
    ((esr >> 26u64) & 0x3f) as u8
}

/// Instruction-length flag of a syndrome value, bit 25.
pub open spec fn esr_il(esr: u64) -> bool {
    esr & (1u64 << 25u64) != 0
}

/// Instruction-specific syndrome of a syndrome value, bits [24:0].
pub open spec fn esr_iss(esr: u64) -> u32 {
    (esr & 0x1ffffff) as u32
}

/// A decoded syndrome register.
#[derive(Debug, Clone, Copy)]
pub struct EsrInfo {
    pub exception_class: ExceptionClass,
    /// false: 16-bit instruction, true: 32-bit instruction.
    pub instruction_length: bool,
    pub instruction_specific_syndrome: u32,
}

impl EsrInfo {
    /// Split a syndrome value into class, instruction length and payload.
    pub fn parse(esr: u64) -> (r: EsrInfo)
        ensures
            r.exception_class == class_of_code(esr_class_code(esr)),
            r.instruction_length == esr_il(esr),
            r.instruction_specific_syndrome == esr_iss(esr),
    {
        let exception_class = ExceptionClass::from(((esr >> 26) & 0x3f) as u8);
        let instruction_length = (esr & (1 << 25)) != 0;
        let instruction_specific_syndrome = (esr & 0x1ffffff) as u32;
        EsrInfo { exception_class, instruction_length, instruction_specific_syndrome }
    }
}

/// Decoding of a syndrome is total over the class field: a listed code
/// yields the variant whose code it is, any other code yields `Unknown`.
pub proof fn lemma_syndrome_decode_total(esr: u64)
    ensures
        is_listed_class_code(esr_class_code(esr)) ==> class_of_code(
            esr_class_code(esr),
        ).code_spec() == esr_class_code(esr),
        !is_listed_class_code(esr_class_code(esr)) ==> class_of_code(esr_class_code(esr))
            == ExceptionClass::Unknown,
{
}

/// Detail of a data abort, from its instruction-specific syndrome.
#[derive(Debug, Clone, Copy)]
pub struct DataAbortInfo {
    pub valid: bool,
    pub write_not_read: bool,
    pub s1ptw: bool,
    pub cache_maintenance: bool,
    pub external_abort_type: u8,
    pub fault_status_code: u8,
    pub access_size: u8,
}

/// Whether bit `b` of `v` is set.
pub open spec fn bit_set32(v: u32, b: u32) -> bool {
    v & (1u32 << b) != 0
}

/// Description of a fault status code, grouped by bits [5:2] with the level
/// in bits [1:0] where the group has levels.
pub open spec fn fault_text(code: u8) -> Seq<char> {
    let group = code & 0x3C;
    let level = code & 0x03;
    if group == 0x00 {
        if level == 0 {
            "Address size fault, level 0"@
        } else if level == 1 {
            "Address size fault, level 1"@
        } else if level == 2 {
            "Address size fault, level 2"@
        } else {
            "Address size fault, level 3"@
        }
    } else if group == 0x04 {
        if level == 0 {
            "Translation fault, level 0"@
        } else if level == 1 {
            "Translation fault, level 1"@
        } else if level == 2 {
            "Translation fault, level 2"@
        } else {
            "Translation fault, level 3"@
        }
    } else if group == 0x08 {
        if level == 0 {
            "Access flag fault, level 0"@
        } else if level == 1 {
            "Access flag fault, level 1"@
        } else if level == 2 {
            "Access flag fault, level 2"@
        } else {
            "Access flag fault, level 3"@
        }
    } else if group == 0x0C {
        if level == 0 {
            "Permission fault, level 0"@
        } else if level == 1 {
            "Permission fault, level 1"@
        } else if level == 2 {
            "Permission fault, level 2"@
        } else {
            "Permission fault, level 3"@
        }
    } else if group == 0x10 {
        "Synchronous external abort"@
    } else if group == 0x18 {
        "Synchronous parity or ECC error"@
    } else if group == 0x1C {
        "Synchronous parity or ECC error on translation table walk"@
    } else if group == 0x20 {
        "Alignment fault"@
    } else if group == 0x30 {
        "TLB conflict abort"@
    } else if group == 0x34 {
        "Implementation defined fault"@
    } else {
        "Unknown fault"@
    }
}

/// The fault status codes that the description table covers.
pub open spec fn is_documented_fault_status(code: u8) -> bool {
    let group = code & 0x3C;
    group == 0x00 || group == 0x04 || group == 0x08 || group == 0x0C || group == 0x10 || group
        == 0x18 || group == 0x1C || group == 0x20 || group == 0x30 || group == 0x34
}

/// Text for a fault status code; "Unknown fault" for codes outside the table.
pub fn fault_status_to_text(code: u8) -> (r: &'static str)
    ensures
        r@ == fault_text(code),
{
    let level = code & 0x03;
    match code & 0x3C {
        0x00 => {
            if level == 0 {
                "Address size fault, level 0"
            } else if level == 1 {
                "Address size fault, level 1"
            } else if level == 2 {
                "Address size fault, level 2"
            } else {
                "Address size fault, level 3"
            }
        },
        0x04 => {
            if level == 0 {
                "Translation fault, level 0"
            } else if level == 1 {
                "Translation fault, level 1"
            } else if level == 2 {
                "Translation fault, level 2"
            } else {
                "Translation fault, level 3"
            }
        },
        0x08 => {
            if level == 0 {
                "Access flag fault, level 0"
            } else if level == 1 {
                "Access flag fault, level 1"
            } else if level == 2 {
                "Access flag fault, level 2"
            } else {
                "Access flag fault, level 3"
            }
        },
        0x0C => {
            if level == 0 {
                "Permission fault, level 0"
            } else if level == 1 {
                "Permission fault, level 1"
            } else if level == 2 {
                "Permission fault, level 2"
            } else {
                "Permission fault, level 3"
            }
        },
        0x10 => "Synchronous external abort",
        0x18 => "Synchronous parity or ECC error",
        0x1C => "Synchronous parity or ECC error on translation table walk",
        0x20 => "Alignment fault",
        0x30 => "TLB conflict abort",
        0x34 => "Implementation defined fault",
        _ => "Unknown fault",
    }
}

/// Every fault status code has a non-empty description, and the
/// "Unknown fault" text is given to exactly the codes outside the table.
pub proof fn lemma_fault_text_total(code: u8)
    ensures
        fault_text(code).len() > 0,
        fault_text(code) == "Unknown fault"@ <==> !is_documented_fault_status(code),
{
    reveal_strlit("Address size fault, level 0");
    reveal_strlit("Address size fault, level 1");
    reveal_strlit("Address size fault, level 2");
    reveal_strlit("Address size fault, level 3");
    reveal_strlit("Translation fault, level 0");
    reveal_strlit("Translation fault, level 1");
    reveal_strlit("Translation fault, level 2");
    reveal_strlit("Translation fault, level 3");
    reveal_strlit("Access flag fault, level 0");
    reveal_strlit("Access flag fault, level 1");
    reveal_strlit("Access flag fault, level 2");
    reveal_strlit("Access flag fault, level 3");
    reveal_strlit("Permission fault, level 0");
    reveal_strlit("Permission fault, level 1");
    reveal_strlit("Permission fault, level 2");
    reveal_strlit("Permission fault, level 3");
    reveal_strlit("Synchronous external abort");
    reveal_strlit("Synchronous parity or ECC error");
    reveal_strlit("Synchronous parity or ECC error on translation table walk");
    reveal_strlit("Alignment fault");
    reveal_strlit("TLB conflict abort");
    reveal_strlit("Implementation defined fault");
    reveal_strlit("Unknown fault");
    assert("Unknown fault"@.len() == 13);
    if is_documented_fault_status(code) {
        assert(fault_text(code).len() > 13);
    }
}

impl DataAbortInfo {
    /// The fields of a data-abort syndrome payload: ISV bit 24, WnR bit 6,
    /// S1PTW bit 7, CM bit 8, external abort type bits [10:9], fault status
    /// bits [5:0], access size bits [23:22].
    pub open spec fn parse_spec(iss: u32) -> DataAbortInfo {
        DataAbortInfo {
            valid: bit_set32(iss, 24),
            write_not_read: bit_set32(iss, 6),
            s1ptw: bit_set32(iss, 7),
            cache_maintenance: bit_set32(iss, 8),
            external_abort_type: ((iss >> 9u32) & 0x3) as u8,
            fault_status_code: (iss & 0x3F) as u8,
            access_size: ((iss >> 22u32) & 0x3) as u8,
        }
    }

    /// Split a data-abort syndrome payload into its fields.
    pub fn parse_data_abort_iss(iss: u32) -> (r: DataAbortInfo)
        ensures
            r == DataAbortInfo::parse_spec(iss),
    {
        DataAbortInfo {
            valid: (iss & (1 << 24)) != 0,
            write_not_read: (iss & (1 << 6)) != 0,
            s1ptw: (iss & (1 << 7)) != 0,
            cache_maintenance: (iss & (1 << 8)) != 0,
            external_abort_type: ((iss >> 9) & 0x3) as u8,
            fault_status_code: (iss & 0x3F) as u8,
            access_size: ((iss >> 22) & 0x3) as u8,
        }
    }

    /// Description of this abort's fault status code.
    pub fn get_fault_type(&self) -> (r: &'static str)
        ensures
            r@ == fault_text(self.fault_status_code),
    {
        fault_status_to_text(self.fault_status_code)
    }
}

} // verus!
