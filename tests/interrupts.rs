use kyros::exceptions::{ExceptionKind, ExceptionRecord, Outcome, StackFrame};
use kyros::vectors::{init_idt, Dispatch, Handler, InterruptIndex, PIC_1_OFFSET, PIC_2_OFFSET};

fn record(error_code: Option<u64>, fault_address: Option<u64>) -> ExceptionRecord {
    ExceptionRecord {
        frame: StackFrame {
            instruction_pointer: 0x20_1000,
            code_segment: 8,
            cpu_flags: 0x202,
            stack_pointer: 0x4444_4444_0000,
            stack_segment: 0,
        },
        error_code,
        fault_address,
    }
}

#[test]
fn test_breakpoint_exception() {
    let idt = init_idt(0);
    let rec = record(None, None);
    match idt.dispatch(3, rec) {
        Dispatch::Exception(Outcome::Resume(report)) => {
            assert_eq!(report.kind, ExceptionKind::Breakpoint);
            assert_eq!(report.vector, 3);
            assert_eq!(report.frame, rec.frame);
            assert_eq!(report.kind.name(), "Breakpoint trap");
        }
        _ => panic!("breakpoint must resume"),
    }
    // execution goes on: a second trap is dispatched the same way
    assert!(matches!(idt.dispatch(3, rec), Dispatch::Exception(Outcome::Resume(_))));
}

#[test]
fn interrupt_index_values() {
    assert_eq!(InterruptIndex::Timer.as_u8(), 32);
    assert_eq!(InterruptIndex::Keyboard.as_u8(), 33);
    assert_eq!(InterruptIndex::Timer.as_usize(), 32);
    assert_eq!(InterruptIndex::Keyboard.as_usize(), 33);
    assert_eq!(PIC_1_OFFSET, 32);
    assert_eq!(PIC_2_OFFSET, 40);
}

#[test]
fn table_layout() {
    let idt = init_idt(7);
    assert_eq!(idt.entries.len(), 256);
    assert_eq!(idt.entries[0].handler, Handler::Exception(ExceptionKind::DivideError));
    assert_eq!(idt.entries[8].handler, Handler::Exception(ExceptionKind::DoubleFault));
    assert_eq!(idt.entries[8].stack_index, Some(7));
    assert_eq!(idt.entries[14].stack_index, None);
    assert_eq!(idt.entries[9].handler, Handler::Unassigned);
    assert_eq!(idt.entries[15].handler, Handler::Unassigned);
    assert_eq!(idt.entries[32].handler, Handler::Irq(InterruptIndex::Timer));
    assert_eq!(idt.entries[33].handler, Handler::Irq(InterruptIndex::Keyboard));
    assert_eq!(idt.entries[34].handler, Handler::Unassigned);
    assert_eq!(idt.entries[255].handler, Handler::Unassigned);
}

#[test]
fn every_recoverable_vector_resumes_with_one_report() {
    let idt = init_idt(0);
    let recoverable = [0u8, 1, 2, 3, 4, 5, 6, 7, 10, 11, 12, 13, 14, 16, 17, 19, 20, 29, 30];
    for v in recoverable {
        match idt.dispatch(v, record(Some(5), Some(0xdead_b000))) {
            Dispatch::Exception(Outcome::Resume(report)) => {
                assert_eq!(report.vector, v);
                assert_eq!(report.kind.vector(), v);
                assert_eq!(ExceptionKind::from_vector(v), Some(report.kind));
            }
            other => panic!("vector {} gave {:?}", v, other),
        }
    }
}

#[test]
fn fatal_vectors_halt() {
    let idt = init_idt(0);
    match idt.dispatch(8, record(Some(0), None)) {
        Dispatch::Exception(Outcome::Halt(report)) => {
            assert_eq!(report.kind, ExceptionKind::DoubleFault);
            assert_eq!(report.error_code, Some(0));
        }
        other => panic!("double fault gave {:?}", other),
    }
    match idt.dispatch(18, record(None, None)) {
        Dispatch::Exception(Outcome::Halt(report)) => {
            assert_eq!(report.kind, ExceptionKind::MachineCheck);
            assert_eq!(report.error_code, None);
        }
        other => panic!("machine check gave {:?}", other),
    }
}

#[test]
fn page_fault_reports_address_and_code() {
    let idt = init_idt(0);
    match idt.dispatch(14, record(Some(2), Some(0xdead_beef))) {
        Dispatch::Exception(Outcome::Resume(report)) => {
            assert_eq!(report.kind, ExceptionKind::PageFault);
            assert_eq!(report.error_code, Some(2));
            assert_eq!(report.fault_address, Some(0xdead_beef));
        }
        other => panic!("page fault gave {:?}", other),
    }
    // other exceptions keep neither an address nor, without one pushed, an error code
    match idt.dispatch(13, record(Some(0x10), Some(0xdead_beef))) {
        Dispatch::Exception(Outcome::Resume(report)) => {
            assert_eq!(report.error_code, Some(0x10));
            assert_eq!(report.fault_address, None);
        }
        other => panic!("general protection gave {:?}", other),
    }
    match idt.dispatch(0, record(Some(0x10), None)) {
        Dispatch::Exception(Outcome::Resume(report)) => assert_eq!(report.error_code, None),
        other => panic!("divide error gave {:?}", other),
    }
}

#[test]
fn irq_and_unassigned_vectors() {
    let idt = init_idt(0);
    assert_eq!(idt.dispatch(32, record(None, None)), Dispatch::Irq(InterruptIndex::Timer));
    assert_eq!(idt.dispatch(33, record(None, None)), Dispatch::Irq(InterruptIndex::Keyboard));
    assert_eq!(idt.dispatch(9, record(None, None)), Dispatch::Unhandled);
    assert_eq!(idt.dispatch(200, record(None, None)), Dispatch::Unhandled);
}
