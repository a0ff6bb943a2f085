use vstd::prelude::*;

verus! {

/// The CPU exceptions that the vector table installs a handler for.
#[derive(Debug, Clone, Copy, PartialEq, Eq, Structural)]
pub enum ExceptionKind {
    DivideError,
    Debug,
    NonMaskableInterrupt,
    Breakpoint,
    Overflow,
    BoundRangeExceeded,
    InvalidOpcode,
    DeviceNotAvailable,
    DoubleFault,
    InvalidTss,
    SegmentNotPresent,
    StackSegmentFault,
    GeneralProtectionFault,
    PageFault,
    X87FloatingPoint,
    AlignmentCheck,
    MachineCheck,
    SimdFloatingPoint,
    Virtualization,
    VmmCommunication,
    Security,
}

/// The exception that the instruction set assigns to a vector, if the table handles one there.
pub open spec fn exception_at(v: u8) -> Option<ExceptionKind> {
    match v {
        0 => Some(ExceptionKind::DivideError),
        1 => Some(ExceptionKind::Debug),
        2 => Some(ExceptionKind::NonMaskableInterrupt),
        3 => Some(ExceptionKind::Breakpoint),
        4 => Some(ExceptionKind::Overflow),
        5 => Some(ExceptionKind::BoundRangeExceeded),
        6 => Some(ExceptionKind::InvalidOpcode),
        7 => Some(ExceptionKind::DeviceNotAvailable),
        8 => Some(ExceptionKind::DoubleFault),
        10 => Some(ExceptionKind::InvalidTss),
        11 => Some(ExceptionKind::SegmentNotPresent),
        12 => Some(ExceptionKind::StackSegmentFault),
        13 => Some(ExceptionKind::GeneralProtectionFault),
        14 => Some(ExceptionKind::PageFault),
        16 => Some(ExceptionKind::X87FloatingPoint),
        17 => Some(ExceptionKind::AlignmentCheck),
        18 => Some(ExceptionKind::MachineCheck),
        19 => Some(ExceptionKind::SimdFloatingPoint),
        20 => Some(ExceptionKind::Virtualization),
        29 => Some(ExceptionKind::VmmCommunication),
        30 => Some(ExceptionKind::Security),
        _ => None,
    }
}

impl ExceptionKind {
    /// The vector the instruction set raises this exception on.
    pub open spec fn spec_vector(self) -> u8 {
        match self {
            ExceptionKind::DivideError => 0,
            ExceptionKind::Debug => 1,
            ExceptionKind::NonMaskableInterrupt => 2,
            ExceptionKind::Breakpoint => 3,
            ExceptionKind::Overflow => 4,
            ExceptionKind::BoundRangeExceeded => 5,
            ExceptionKind::InvalidOpcode => 6,
            ExceptionKind::DeviceNotAvailable => 7,
            ExceptionKind::DoubleFault => 8,
            ExceptionKind::InvalidTss => 10,
            ExceptionKind::SegmentNotPresent => 11,
            ExceptionKind::StackSegmentFault => 12,
            ExceptionKind::GeneralProtectionFault => 13,
            ExceptionKind::PageFault => 14,
            ExceptionKind::X87FloatingPoint => 16,
            ExceptionKind::AlignmentCheck => 17,
            ExceptionKind::MachineCheck => 18,
            ExceptionKind::SimdFloatingPoint => 19,
            ExceptionKind::Virtualization => 20,
            ExceptionKind::VmmCommunication => 29,
            ExceptionKind::Security => 30,
        }
    }

    /// Aborts after which continuing is unsound: the handler halts instead of returning.
    pub open spec fn is_fatal(self) -> bool {
        self == ExceptionKind::DoubleFault || self == ExceptionKind::MachineCheck
    }

    /// Exceptions for which the processor pushes an error code.
    pub open spec fn has_error_code(self) -> bool {
        match self {
            ExceptionKind::DoubleFault
            | ExceptionKind::InvalidTss
            | ExceptionKind::SegmentNotPresent
            | ExceptionKind::StackSegmentFault
            | ExceptionKind::GeneralProtectionFault
            | ExceptionKind::PageFault
            | ExceptionKind::AlignmentCheck
            | ExceptionKind::VmmCommunication
            | ExceptionKind::Security => true,
            _ => false,
        }
    }

    pub fn vector(self) -> (r: u8)
        ensures
            r == self.spec_vector(),
            exception_at(r) == Some(self),
    {
        match self {
            ExceptionKind::DivideError => 0,
            ExceptionKind::Debug => 1,
            ExceptionKind::NonMaskableInterrupt => 2,
            ExceptionKind::Breakpoint => 3,
            ExceptionKind::Overflow => 4,
            ExceptionKind::BoundRangeExceeded => 5,
            ExceptionKind::InvalidOpcode => 6,
            ExceptionKind::DeviceNotAvailable => 7,
            ExceptionKind::DoubleFault => 8,
            ExceptionKind::InvalidTss => 10,
            ExceptionKind::SegmentNotPresent => 11,
            ExceptionKind::StackSegmentFault => 12,
            ExceptionKind::GeneralProtectionFault => 13,
            ExceptionKind::PageFault => 14,
            ExceptionKind::X87FloatingPoint => 16,
            ExceptionKind::AlignmentCheck => 17,
            ExceptionKind::MachineCheck => 18,
            ExceptionKind::SimdFloatingPoint => 19,
            ExceptionKind::Virtualization => 20,
            ExceptionKind::VmmCommunication => 29,
            ExceptionKind::Security => 30,
        }
    }

    /// Looks up the exception raised on vector `v`.
    pub fn from_vector(v: u8) -> (r: Option<ExceptionKind>)
        ensures
            r == exception_at(v),
            r matches Some(k) ==> k.spec_vector() == v,
    {
        match v {
            0 => Some(ExceptionKind::DivideError),
            1 => Some(ExceptionKind::Debug),
            2 => Some(ExceptionKind::NonMaskableInterrupt),
            3 => Some(ExceptionKind::Breakpoint),
            4 => Some(ExceptionKind::Overflow),
            5 => Some(ExceptionKind::BoundRangeExceeded),
            6 => Some(ExceptionKind::InvalidOpcode),
            7 => Some(ExceptionKind::DeviceNotAvailable),
            8 => Some(ExceptionKind::DoubleFault),
            10 => Some(ExceptionKind::InvalidTss),
            11 => Some(ExceptionKind::SegmentNotPresent),
            12 => Some(ExceptionKind::StackSegmentFault),
            13 => Some(ExceptionKind::GeneralProtectionFault),
            14 => Some(ExceptionKind::PageFault),
            16 => Some(ExceptionKind::X87FloatingPoint),
            17 => Some(ExceptionKind::AlignmentCheck),
            18 => Some(ExceptionKind::MachineCheck),
            19 => Some(ExceptionKind::SimdFloatingPoint),
            20 => Some(ExceptionKind::Virtualization),
            29 => Some(ExceptionKind::VmmCommunication),
            30 => Some(ExceptionKind::Security),
            _ => None,
        }
    }

    pub fn fatal(self) -> (r: bool)
        ensures
            r == self.is_fatal(),
    {
        match self {
            ExceptionKind::DoubleFault | ExceptionKind::MachineCheck => true,
            _ => false,
        }
    }

    pub fn error_code_pushed(self) -> (r: bool)
        ensures
            r == self.has_error_code(),
    {
        match self {
            ExceptionKind::DoubleFault
            | ExceptionKind::InvalidTss
            | ExceptionKind::SegmentNotPresent
            | ExceptionKind::StackSegmentFault
            | ExceptionKind::GeneralProtectionFault
            | ExceptionKind::PageFault
            | ExceptionKind::AlignmentCheck
            | ExceptionKind::VmmCommunication
            | ExceptionKind::Security => true,
            _ => false,
        }
    }

    /// The heading that the diagnostic report of this exception starts with.
    pub open spec fn heading(self) -> Seq<char> {
        match self {
            ExceptionKind::DivideError => "Divide by zero"@,
            ExceptionKind::Debug => "Debug trap"@,
            ExceptionKind::NonMaskableInterrupt => "Non-maskable interrupt"@,
            ExceptionKind::Breakpoint => "Breakpoint trap"@,
            ExceptionKind::Overflow => "Overflow trap"@,
            ExceptionKind::BoundRangeExceeded => "Bound range exceeded fault"@,
            ExceptionKind::InvalidOpcode => "Invalid opcode fault"@,
            ExceptionKind::DeviceNotAvailable => "Device not available fault"@,
            ExceptionKind::DoubleFault => "Double fault"@,
            ExceptionKind::InvalidTss => "Invalid TSS fault"@,
            ExceptionKind::SegmentNotPresent => "Segment not present fault"@,
            ExceptionKind::StackSegmentFault => "Stack segment fault"@,
            ExceptionKind::GeneralProtectionFault => "General protection fault"@,
            ExceptionKind::PageFault => "Page fault"@,
            ExceptionKind::X87FloatingPoint => "FPU floating point fault"@,
            ExceptionKind::AlignmentCheck => "Alignment check fault"@,
            ExceptionKind::MachineCheck => "Machine check fault"@,
            ExceptionKind::SimdFloatingPoint => "SIMD floating point fault"@,
            ExceptionKind::Virtualization => "Virtualization fault"@,
            ExceptionKind::VmmCommunication => "Vmm communication"@,
            ExceptionKind::Security => "Security exception"@,
        }
    }

    pub fn name(self) -> (r: &'static str)
        ensures
            r@ == self.heading(),
    {
        match self {
            ExceptionKind::DivideError => "Divide by zero",
            ExceptionKind::Debug => "Debug trap",
            ExceptionKind::NonMaskableInterrupt => "Non-maskable interrupt",
            ExceptionKind::Breakpoint => "Breakpoint trap",
            ExceptionKind::Overflow => "Overflow trap",
            ExceptionKind::BoundRangeExceeded => "Bound range exceeded fault",
            ExceptionKind::InvalidOpcode => "Invalid opcode fault",
            ExceptionKind::DeviceNotAvailable => "Device not available fault",
            ExceptionKind::DoubleFault => "Double fault",
            ExceptionKind::InvalidTss => "Invalid TSS fault",
            ExceptionKind::SegmentNotPresent => "Segment not present fault",
            ExceptionKind::StackSegmentFault => "Stack segment fault",
            ExceptionKind::GeneralProtectionFault => "General protection fault",
            ExceptionKind::PageFault => "Page fault",
            ExceptionKind::X87FloatingPoint => "FPU floating point fault",
            ExceptionKind::AlignmentCheck => "Alignment check fault",
            ExceptionKind::MachineCheck => "Machine check fault",
            ExceptionKind::SimdFloatingPoint => "SIMD floating point fault",
            ExceptionKind::Virtualization => "Virtualization fault",
            ExceptionKind::VmmCommunication => "Vmm communication",
            ExceptionKind::Security => "Security exception",
        }
    }
}

/// The snapshot of the interrupted instruction that the processor pushes on a trap.
#[derive(Debug, Clone, Copy, PartialEq, Eq, Structural)]
pub struct StackFrame {
    pub instruction_pointer: u64,
    pub code_segment: u64,
    pub cpu_flags: u64,
    pub stack_pointer: u64,
    pub stack_segment: u64,
}

/// What the hardware hands a handler: the frame, the error code if one was pushed,
/// and for page faults the address whose access faulted.
#[derive(Debug, Clone, Copy, PartialEq, Eq, Structural)]
pub struct ExceptionRecord {
    pub frame: StackFrame,
    pub error_code: Option<u64>,
    pub fault_address: Option<u64>,
}

/// The one diagnostic report that a handler writes for a trapped exception.
#[derive(Debug, Clone, Copy, PartialEq, Eq, Structural)]
pub struct Report {
    pub kind: ExceptionKind,
    pub vector: u8,
    pub error_code: Option<u64>,
    pub fault_address: Option<u64>,
    pub frame: StackFrame,
}

/// How control leaves an exception handler.
#[derive(Debug, Clone, Copy, PartialEq, Eq, Structural)]
pub enum Outcome {
    /// The handler returns; the processor resumes or retries the instruction.
    Resume(Report),
    /// The handler reports and halts; control never comes back.
    Halt(Report),
}

impl Outcome {
    pub open spec fn report(self) -> Report {
        match self {
            Outcome::Resume(r) => r,
            Outcome::Halt(r) => r,
        }
    }
}

/// The report for `kind`: the error code only where the processor pushes one,
/// the faulting address only for a page fault.
pub open spec fn report_of(kind: ExceptionKind, rec: ExceptionRecord) -> Report {
    Report {
        kind,
        vector: kind.spec_vector(),
        error_code: if kind.has_error_code() { rec.error_code } else { None },
        fault_address: if kind == ExceptionKind::PageFault { rec.fault_address } else { None },
        frame: rec.frame,
    }
}

/// Recoverable exceptions resume after their report; the fatal ones halt.
pub open spec fn outcome_of(kind: ExceptionKind, rec: ExceptionRecord) -> Outcome {
    if kind.is_fatal() {
        Outcome::Halt(report_of(kind, rec))
    } else {
        Outcome::Resume(report_of(kind, rec))
    }
}

/// Handles a trapped exception: builds its report and decides whether execution goes on.
pub fn handle_exception(kind: ExceptionKind, rec: ExceptionRecord) -> (o: Outcome)
    ensures
        o == outcome_of(kind, rec),
{
    let error_code = if kind.error_code_pushed() { rec.error_code } else { None };
    let fault_address = match kind {
        ExceptionKind::PageFault => rec.fault_address,
        _ => None,
    };
    let report = Report { kind, vector: kind.vector(), error_code, fault_address, frame: rec.frame };
    if kind.fatal() {
        Outcome::Halt(report)
    } else {
        Outcome::Resume(report)
    }
}

} // verus!
