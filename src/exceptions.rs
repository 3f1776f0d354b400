//! Exception-vector installation and the decisions of the synchronous
//! exception handler.
use vstd::prelude::*;
use crate::fault::{class_of_code, esr_class_code, esr_iss, DataAbortInfo, EsrInfo, ExceptionClass};
use crate::sysregs::SystemRegisters;

verus! {

/// The vector table must be aligned to 2 KiB: these low bits must be clear.
pub const VECTOR_ALIGN_MASK: u64 = 0x7ff;

/// Registers saved by the trampoline before the handler runs.
#[derive(Debug, Clone, Copy, PartialEq, Eq, Structural)]
pub struct InterruptFrame {
    pub x0: u64,
    pub x1: u64,
    pub x2: u64,
    pub x3: u64,
    pub x4: u64,
    pub x5: u64,
    pub x6: u64,
    pub x7: u64,
    pub x8: u64,
    pub x9: u64,
    pub x10: u64,
    pub x11: u64,
    pub x12: u64,
    pub x13: u64,
    pub x14: u64,
    pub x15: u64,
    pub x16: u64,
    pub x17: u64,
    pub x18: u64,
    pub x29: u64,
    pub x30: u64,
    /// Return address.
    pub elr: u64,
    /// Syndrome.
    pub esr: u64,
    /// Fault address.
    pub far: u64,
}

impl InterruptFrame {
    /// A frame with the given return address, syndrome and fault address and
    /// all general-purpose registers zero.
    pub fn new(elr: u64, esr: u64, far: u64) -> (r: InterruptFrame)
        ensures
            r == (InterruptFrame {
                x0: 0,
                x1: 0,
                x2: 0,
                x3: 0,
                x4: 0,
                x5: 0,
                x6: 0,
                x7: 0,
                x8: 0,
                x9: 0,
                x10: 0,
                x11: 0,
                x12: 0,
                x13: 0,
                x14: 0,
                x15: 0,
                x16: 0,
                x17: 0,
                x18: 0,
                x29: 0,
                x30: 0,
                elr,
                esr,
                far,
            }),
    {
        InterruptFrame {
            x0: 0,
            x1: 0,
            x2: 0,
            x3: 0,
            x4: 0,
            x5: 0,
            x6: 0,
            x7: 0,
            x8: 0,
            x9: 0,
            x10: 0,
            x11: 0,
            x12: 0,
            x13: 0,
            x14: 0,
            x15: 0,
            x16: 0,
            x17: 0,
            x18: 0,
            x29: 0,
            x30: 0,
            elr,
            esr,
            far,
        }
    }
}

impl InterruptFrame {
    /// What the no-op vector slot does before returning: step the return
    /// address past the 4-byte faulting instruction.
    pub fn skip_instruction(&mut self)
        ensures
            *final(self) == (InterruptFrame {
                elr: ((old(self).elr + 4) % 0x1_0000_0000_0000_0000) as u64,
                ..*old(self)
            }),
    {
        self.elr = self.elr.wrapping_add(4);
    }
}

/// Errors of exception-vector installation.
#[derive(Debug, Clone, Copy, PartialEq, Eq, Structural)]
pub enum VectorError {
    /// The table's base address has some of its low 11 bits set.
    Misaligned,
}

/// Conditions that this kernel recognises but does not handle.
#[derive(Debug, Clone, Copy, PartialEq, Eq, Structural)]
pub enum KernelError {
    NotImplemented,
}

/// Install the vector table at `vector_addr` in the vector-base register.
/// A base with any of its low 11 bits set is refused before the register is
/// written.
pub fn set_exception_vectors(regs: &mut SystemRegisters, vector_addr: u64) -> (r: Result<
    (),
    VectorError,
>)
    ensures
        vector_addr & VECTOR_ALIGN_MASK != 0 ==> r == Err::<(), VectorError>(VectorError::Misaligned)
            && *final(regs) == *old(regs),
        vector_addr & VECTOR_ALIGN_MASK == 0 ==> r == Ok::<(), VectorError>(()) && *final(regs) == (
        SystemRegisters { vbar_el1: vector_addr, ..*old(regs) }),
{
    if (vector_addr & VECTOR_ALIGN_MASK) != 0 {
        return Err(VectorError::Misaligned);
    }
    regs.vbar_el1 = vector_addr;
    Ok(())
}

/// Page-fault handling: not supported by this kernel.
pub fn handle_page_fault(fault_addr: u64, fault_pc: u64, access: bool) -> (r: Result<
    (),
    KernelError,
>)
    ensures
        r == Err::<(), KernelError>(KernelError::NotImplemented),
{
    Err(KernelError::NotImplemented)
}

/// Instruction-abort handling: not supported by this kernel.
pub fn handle_instruction_abort(fault_addr: u64) -> (r: Result<(), KernelError>)
    ensures
        r == Err::<(), KernelError>(KernelError::NotImplemented),
{
    Err(KernelError::NotImplemented)
}

/// What the synchronous handler found; every outcome is fatal and is
/// reported before the kernel halts.
#[derive(Debug, Clone, Copy)]
pub enum SyncException {
    /// A data abort at `pc` on `address`, with its decoded detail and the
    /// result of page-fault handling.
    DataAbort { pc: u64, address: u64, info: DataAbortInfo, handled: Result<(), KernelError> },
    /// An instruction abort at `pc`, with the result of its handling.
    InstructionAbort { pc: u64, handled: Result<(), KernelError> },
    /// A misaligned program counter at `pc`.
    PcAlignment { pc: u64 },
    /// A misaligned stack pointer, raised at `pc`.
    SpAlignment { pc: u64 },
    /// Any other class.
    Unhandled { class: ExceptionClass },
}

/// Classify a synchronous exception from its saved frame and route it:
/// aborts are decoded and handed to their handlers, alignment faults and
/// all other classes are reported as they are.
pub fn sync_current_el_spx_handler(frame: &InterruptFrame) -> (r: SyncException)
    ensures
        ({
            let class = class_of_code(esr_class_code(frame.esr));
            match class {
                ExceptionClass::DataAbortLowerEL | ExceptionClass::DataAbortSameEL => r matches SyncException::DataAbort { pc, address, info, handled }
                    && pc == frame.elr && address == frame.far && info == DataAbortInfo::parse_spec(
                    esr_iss(frame.esr),
                ) && handled == Err::<(), KernelError>(
                    KernelError::NotImplemented,
                ),
                ExceptionClass::InstructionAbortLowerEL | ExceptionClass::InstructionAbortSameEL => r matches SyncException::InstructionAbort { pc, handled } && pc == frame.elr
                    && handled == Err::<(), KernelError>(KernelError::NotImplemented),
                ExceptionClass::PcAlignment => r matches SyncException::PcAlignment { pc } && pc
                    == frame.elr,
                ExceptionClass::SpAlignment => r matches SyncException::SpAlignment { pc } && pc
                    == frame.elr,
                _ => r matches SyncException::Unhandled { class: c } && c == class,
            }
        }),
{
    let esr_info = EsrInfo::parse(frame.esr);
    match esr_info.exception_class {
        ExceptionClass::DataAbortLowerEL | ExceptionClass::DataAbortSameEL => {
            let info = DataAbortInfo::parse_data_abort_iss(esr_info.instruction_specific_syndrome);
            let handled = handle_page_fault(frame.far, frame.elr, info.write_not_read);
            SyncException::DataAbort { pc: frame.elr, address: frame.far, info, handled }
        },
        ExceptionClass::InstructionAbortLowerEL | ExceptionClass::InstructionAbortSameEL => {
            let handled = handle_instruction_abort(frame.elr);
            SyncException::InstructionAbort { pc: frame.elr, handled }
        },
        ExceptionClass::PcAlignment => SyncException::PcAlignment { pc: frame.elr },
        ExceptionClass::SpAlignment => SyncException::SpAlignment { pc: frame.elr },
        class => SyncException::Unhandled { class },
    }
}

} // verus!
