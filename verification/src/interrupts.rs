//! The interrupt side of the trap boundary: the fixed vector layout, the
//! trap table, and the fast syscall entry configuration.
//!
//! The table is laid out so: vectors below `0x20` are the hardware
//! exception vectors, `0x20..0x30` is the block the legacy interrupt
//! controller is remapped onto, `0x30` up to the timer vector is free for
//! device interrupts, and the two highest vectors carry the periodic
//! timer tick and the spurious-interrupt sink. This layout is part of the
//! kernel's binary contract with its own handler stubs and must remain
//! stable.
//!
//! Initialization order: exception handlers are installed first, then the
//! table is loaded, the legacy controller is disabled when an advanced
//! one is present, the per-CPU timer controller is enabled, the fast
//! syscall entry is configured, and only then may the table fire — the
//! timer and spurious handlers exist before anything is enabled.

use vstd::prelude::*;
use crate::error::BootError;
use crate::platform::GdtSelectors;

verus! {

/// The first vector the legacy interrupt controller is remapped onto.
pub const LEGACY_PIC_VECTOR: u8 = 0x20;

/// The first vector free for device interrupts.
pub const FREE_VECTORS_START: u8 = 0x30;

/// The vector of the per-CPU timer tick.
pub const APIC_TIMER_VECTOR: u8 = 0xFE;

/// The vector of the spurious-interrupt sink.
pub const APIC_SPURIOUS_VECTOR: u8 = 0xFF;

/// How many vectors the trap table holds.
pub const NUM_VECTORS: usize = 256;

/// The exception vectors the kernel installs handlers for.
pub const NMI_VECTOR: u8 = 2;

pub const BREAKPOINT_VECTOR: u8 = 3;

pub const INVALID_OPCODE_VECTOR: u8 = 6;

pub const DOUBLE_FAULT_VECTOR: u8 = 8;

pub const GENERAL_PROTECTION_FAULT_VECTOR: u8 = 13;

pub const PAGE_FAULT_VECTOR: u8 = 14;

/// The hardware-exception handler stubs, one reference each, registered
/// data-driven against the fixed layout rather than through ad-hoc
/// installation code.
#[derive(Clone, Copy, Debug, PartialEq, Eq, Structural)]
pub struct ExceptionHandlers {
    pub nmi: u64,
    pub breakpoint: u64,
    pub invalid_opcode: u64,
    pub general_protection_fault: u64,
    pub page_fault: u64,
    pub double_fault: u64,
}

/// The trap table: which handler stub each vector routes to.
pub struct TrapTable {
    pub entries: Vec<Option<u64>>,
}

impl TrapTable {
    /// Well-formedness: one entry per vector.
    pub open spec fn wf(self) -> bool {
        self.entries@.len() == NUM_VECTORS
    }

    /// The handler registered for a vector.
    pub open spec fn handler_at(self, vector: int) -> Option<u64> {
        self.entries@[vector]
    }

    /// An empty table: every vector unrouted.
    pub fn empty() -> (r: TrapTable)
        ensures
            r.wf(),
            forall|v: int| 0 <= v < NUM_VECTORS ==> r.handler_at(v) is None,
    {
        let mut entries: Vec<Option<u64>> = Vec::new();
        let mut k: usize = 0;
        while k < NUM_VECTORS
            invariant
                k <= NUM_VECTORS,
                entries@.len() == k,
                forall|j: int| 0 <= j < k ==> entries@[j] is None,
            decreases NUM_VECTORS - k,
        {
            entries.push(None);
            k = k + 1;
        }
        TrapTable { entries }
    }

    /// Registers a handler for one hardware-exception vector. Vectors
    /// outside the exception block are refused: the layout is fixed.
    pub fn register_exception_handler(&mut self, vector: u8, handler: u64) -> (r: Result<
        (),
        BootError,
    >)
        requires
            old(self).wf(),
        ensures
            final(self).wf(),
            r is Ok <==> vector < LEGACY_PIC_VECTOR,
            r is Ok ==> final(self).handler_at(vector as int) == Some(handler) && forall|v: int|
                0 <= v < NUM_VECTORS && v != vector ==> final(self).handler_at(v) == old(
                    self,
                ).handler_at(v),
            r is Err ==> *final(self) == *old(self),
    {
        if vector >= LEGACY_PIC_VECTOR {
            return Err(BootError::UnsupportedInterruptModel);
        }
        self.entries.set(vector as usize, Some(handler));
        Ok(())
    }

    /// Registers a handler for one device-interrupt vector. Only vectors
    /// in the free block — above the legacy range, below the timer — are
    /// accepted.
    pub fn register_device_handler(&mut self, vector: u8, handler: u64) -> (r: Result<
        (),
        BootError,
    >)
        requires
            old(self).wf(),
        ensures
            final(self).wf(),
            r is Ok <==> FREE_VECTORS_START <= vector < APIC_TIMER_VECTOR,
            r is Ok ==> final(self).handler_at(vector as int) == Some(handler) && forall|v: int|
                0 <= v < NUM_VECTORS && v != vector ==> final(self).handler_at(v) == old(
                    self,
                ).handler_at(v),
            r is Err ==> *final(self) == *old(self),
    {
        if vector < FREE_VECTORS_START || vector >= APIC_TIMER_VECTOR {
            return Err(BootError::UnsupportedInterruptModel);
        }
        self.entries.set(vector as usize, Some(handler));
        Ok(())
    }

    /// Installs the six exception handlers at their fixed vectors.
    pub fn install_exception_handlers(&mut self, handlers: &ExceptionHandlers)
        requires
            old(self).wf(),
        ensures
            final(self).wf(),
            final(self).handler_at(NMI_VECTOR as int) == Some(handlers.nmi),
            final(self).handler_at(BREAKPOINT_VECTOR as int) == Some(handlers.breakpoint),
            final(self).handler_at(INVALID_OPCODE_VECTOR as int) == Some(handlers.invalid_opcode),
            final(self).handler_at(GENERAL_PROTECTION_FAULT_VECTOR as int) == Some(
                handlers.general_protection_fault,
            ),
            final(self).handler_at(PAGE_FAULT_VECTOR as int) == Some(handlers.page_fault),
            final(self).handler_at(DOUBLE_FAULT_VECTOR as int) == Some(handlers.double_fault),
            forall|v: int|
                0 <= v < NUM_VECTORS && v != NMI_VECTOR && v != BREAKPOINT_VECTOR && v
                    != INVALID_OPCODE_VECTOR && v != GENERAL_PROTECTION_FAULT_VECTOR && v
                    != PAGE_FAULT_VECTOR && v != DOUBLE_FAULT_VECTOR ==> final(self).handler_at(v)
                    == old(self).handler_at(v),
    {
        let _ = self.register_exception_handler(NMI_VECTOR, handlers.nmi);
        let _ = self.register_exception_handler(BREAKPOINT_VECTOR, handlers.breakpoint);
        let _ = self.register_exception_handler(INVALID_OPCODE_VECTOR, handlers.invalid_opcode);
        let _ = self.register_exception_handler(
            GENERAL_PROTECTION_FAULT_VECTOR,
            handlers.general_protection_fault,
        );
        let _ = self.register_exception_handler(PAGE_FAULT_VECTOR, handlers.page_fault);
        let _ = self.register_exception_handler(DOUBLE_FAULT_VECTOR, handlers.double_fault);
    }
}

/// The values for the platform's fast-trap configuration registers: the
/// flat privilege segment selectors for kernel and user code, the entry
/// address, and the initial interrupt-mask state. The hardware writes
/// happen at the machine edge, with exactly these values.
#[derive(Clone, Copy, Debug, PartialEq, Eq, Structural)]
pub struct SyscallMsrConfig {
    /// The selector word: the kernel code selector in bits 32..48 and the
    /// user compatibility-mode code selector in bits 48..64, the order
    /// the fast-return instruction expects the segments in.
    pub star: u64,
    /// The syscall entry address.
    pub lstar: u64,
    /// The flags cleared on entry.
    pub fmask: u64,
}

/// Relies on bit_field's `BitField::set_bits` on `u64`: replaces the bits
/// `lo..hi` of `value` with `bits` and leaves every other bit.
#[verifier::external_body]
fn set_bits_u64(value: u64, lo: u32, hi: u32, bits: u64) -> (r: u64)
    requires
        lo < hi,
        hi <= 64,
        bits <= !0u64 >> ((64 - (hi - lo)) as u64),
    ensures
        r == (value & !((!0u64 >> ((64 - (hi - lo)) as u64)) << (lo as u64))) | (bits << (
        lo as u64)),
{
    let mut v = value;
    bit_field::BitField::set_bits(&mut v, (lo as usize)..(hi as usize), bits);
    v
}

/// Computes the fast syscall entry configuration: the selector word from
/// the flat kernel and user code selectors, the entry address, and an
/// empty mask.
pub fn install_syscall_handler(selectors: &GdtSelectors, entry: u64) -> (r: SyscallMsrConfig)
    ensures
        r.star == ((selectors.kernel_code as u64) << 32) | ((selectors.user_compat_code as u64)
            << 48),
        r.lstar == entry,
        r.fmask == 0,
{
    let kernel: u64 = selectors.kernel_code as u64;
    let user: u64 = selectors.user_compat_code as u64;
    proof {
        assert(kernel <= !0u64 >> 48 && user <= !0u64 >> 48) by (bit_vector)
            requires
                kernel <= 0xFFFF,
                user <= 0xFFFF,
        ;
    }
    let step1 = set_bits_u64(0, 32, 48, kernel);
    let star = set_bits_u64(step1, 48, 64, user);
    proof {
        let k = kernel;
        let u = user;
        assert((0u64 & !((!0u64 >> 48) << 32)) | (k << 32) == k << 32) by (bit_vector);
        assert(((k << 32) & !((!0u64 >> 48) << 48)) | (u << 48) == (k << 32) | (u << 48))
            by (bit_vector)
            requires
                k <= 0xFFFF,
        ;
    }
    SyscallMsrConfig { star, lstar: entry, fmask: 0 }
}

/// What the kernel can drive of the firmware-reported interrupt wiring.
/// Anything else is an unsupported model, fatal at boot.
#[derive(Clone, Copy, Debug, PartialEq, Eq, Structural)]
pub enum InterruptModel {
    /// An advanced per-CPU interrupt controller at the given physical
    /// address, with or without the legacy controller also present.
    Apic { local_apic_address: u64, also_has_legacy_pics: bool },
    /// Anything the kernel cannot drive.
    Unsupported,
}

/// The timer programming handed to the per-CPU timer controller: which
/// vector it raises and how many of its ticks make one period.
#[derive(Clone, Copy, Debug, PartialEq, Eq, Structural)]
pub struct TimerConfig {
    pub vector: u8,
    pub ticks_per_period: u64,
}

/// The interrupt controller: the routed trap table plus what was learned
/// of the hardware while bringing it up.
pub struct InterruptController {
    pub table: TrapTable,
    /// The physical address of the per-CPU interrupt controller's
    /// registers.
    pub local_apic_address: u64,
    /// Whether the legacy controller was remapped out of the way and
    /// disabled.
    pub legacy_pic_disabled: bool,
    /// Set only once the spurious and timer handlers exist; nothing may
    /// fire before.
    pub enabled: bool,
}

impl InterruptController {
    /// Well-formedness: the table is full-sized, and once enabled the
    /// timer and spurious vectors are routed.
    pub open spec fn wf(self) -> bool {
        &&& self.table.wf()
        &&& self.enabled ==> self.table.handler_at(APIC_TIMER_VECTOR as int) is Some
            && self.table.handler_at(APIC_SPURIOUS_VECTOR as int) is Some
    }

    /// Brings the boundary up in the required order over the reported
    /// interrupt model. An unsupported model is a fatal boot error.
    /// On success the exception, timer, and spurious handlers are routed,
    /// the legacy controller is disabled exactly when it was present, and
    /// only then is the controller enabled.
    pub fn init(
        model: &InterruptModel,
        exception_handlers: &ExceptionHandlers,
        timer_handler: u64,
        spurious_handler: u64,
    ) -> (r: Result<InterruptController, BootError>)
        ensures
            r is Ok <==> model is Apic,
            r matches Ok(c) ==> {
                &&& c.wf()
                &&& c.enabled
                &&& c.table.handler_at(APIC_TIMER_VECTOR as int) == Some(timer_handler)
                &&& c.table.handler_at(APIC_SPURIOUS_VECTOR as int) == Some(spurious_handler)
                &&& c.table.handler_at(NMI_VECTOR as int) == Some(exception_handlers.nmi)
                &&& c.table.handler_at(BREAKPOINT_VECTOR as int) == Some(
                    exception_handlers.breakpoint,
                )
                &&& c.table.handler_at(INVALID_OPCODE_VECTOR as int) == Some(
                    exception_handlers.invalid_opcode,
                )
                &&& c.table.handler_at(GENERAL_PROTECTION_FAULT_VECTOR as int) == Some(
                    exception_handlers.general_protection_fault,
                )
                &&& c.table.handler_at(PAGE_FAULT_VECTOR as int) == Some(
                    exception_handlers.page_fault,
                )
                &&& c.table.handler_at(DOUBLE_FAULT_VECTOR as int) == Some(
                    exception_handlers.double_fault,
                )
                &&& (model matches InterruptModel::Apic { local_apic_address, also_has_legacy_pics }
                    ==> c.local_apic_address == local_apic_address && c.legacy_pic_disabled
                    == also_has_legacy_pics)
                &&& forall|v: int|
                    0 <= v < NUM_VECTORS && v != NMI_VECTOR && v != BREAKPOINT_VECTOR && v
                        != INVALID_OPCODE_VECTOR && v != GENERAL_PROTECTION_FAULT_VECTOR && v
                        != PAGE_FAULT_VECTOR && v != DOUBLE_FAULT_VECTOR && v != APIC_TIMER_VECTOR
                        && v != APIC_SPURIOUS_VECTOR ==> c.table.handler_at(v) is None
            },
            r matches Err(e) ==> e == BootError::UnsupportedInterruptModel,
    {
        let (local_apic_address, also_has_legacy_pics) = match model {
            InterruptModel::Apic { local_apic_address, also_has_legacy_pics } => (
                *local_apic_address,
                *also_has_legacy_pics,
            ),
            InterruptModel::Unsupported => {
                return Err(BootError::UnsupportedInterruptModel);
            },
        };
        let mut table = TrapTable::empty();
        let ghost unrouted = table;
        table.install_exception_handlers(exception_handlers);
        let ghost routed = table;
        // Loading the table and remapping the legacy controller are
        // machine-register writes, performed at the edge with the values
        // recorded here.
        table.entries.set(APIC_TIMER_VECTOR as usize, Some(timer_handler));
        table.entries.set(APIC_SPURIOUS_VECTOR as usize, Some(spurious_handler));
        proof {
            assert forall|v: int|
                0 <= v < NUM_VECTORS && v != NMI_VECTOR && v != BREAKPOINT_VECTOR && v
                    != INVALID_OPCODE_VECTOR && v != GENERAL_PROTECTION_FAULT_VECTOR && v
                    != PAGE_FAULT_VECTOR && v != DOUBLE_FAULT_VECTOR && v != APIC_TIMER_VECTOR && v
                    != APIC_SPURIOUS_VECTOR implies table.handler_at(v) is None by {
                assert(table.handler_at(v) == routed.handler_at(v));
                assert(routed.handler_at(v) == unrouted.handler_at(v));
                assert(unrouted.handler_at(v) is None);
            }
        }
        Ok(
            InterruptController {
                table,
                local_apic_address,
                legacy_pic_disabled: also_has_legacy_pics,
                enabled: true,
            },
        )
    }

    /// Programs the per-CPU timer to tick every `period_ms` milliseconds,
    /// given the controller frequency in ticks per second where the
    /// hardware reports one. Without a reported frequency the timer is
    /// left disabled — never mis-programmed — and `None` is returned.
    pub fn enable_local_timer(&mut self, apic_frequency: Option<u32>, period_ms: u32) -> (r:
        Option<TimerConfig>)
        requires
            old(self).wf(),
            old(self).enabled,
        ensures
            *final(self) == *old(self),
            r is Some <==> apic_frequency is Some,
            r matches Some(t) ==> {
                &&& t.vector == APIC_TIMER_VECTOR
                &&& apic_frequency matches Some(f) && t.ticks_per_period == (f as int)
                    * (period_ms as int) / 1000
            },
    {
        match apic_frequency {
            Some(frequency) => {
                proof {
                    assert((frequency as int) * (period_ms as int) < 0x1_0000_0000_0000_0000)
                        by (nonlinear_arith)
                        requires
                            frequency < 0x1_0000_0000,
                            period_ms < 0x1_0000_0000,
                    ;
                }
                let ticks: u64 = (frequency as u64) * (period_ms as u64) / 1000;
                Some(TimerConfig { vector: APIC_TIMER_VECTOR, ticks_per_period: ticks })
            },
            None => None,
        }
    }
}

} // verus!
