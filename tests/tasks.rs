use kyros::executor::{Executor, TaskState};
use kyros::kernel::{Kernel, Pass};
use kyros::keyboard::Decoder;
use kyros::queue::ScancodeQueue;

#[test]
fn fifo_order_up_to_capacity() {
    let mut q = ScancodeQueue::new(4);
    for b in [0x1Eu8, 0x30, 0x2E, 0x20] {
        assert!(q.try_push(b));
    }
    assert_eq!(q.len(), 4);
    let mut out = Vec::new();
    while let Some(b) = q.pop() {
        out.push(b);
    }
    assert_eq!(out, vec![0x1E, 0x30, 0x2E, 0x20]);
}

#[test]
fn push_beyond_capacity_drops() {
    let mut q = ScancodeQueue::new(2);
    assert!(q.try_push(1));
    assert!(q.try_push(2));
    assert!(!q.try_push(3));
    assert_eq!(q.len(), 2);
    assert_eq!(q.pop(), Some(1));
    assert!(q.try_push(4));
    assert_eq!(q.pop(), Some(2));
    assert_eq!(q.pop(), Some(4));
    assert_eq!(q.pop(), None);
    assert_eq!(q.capacity(), 2);
}

#[test]
fn zero_capacity_queue_drops_everything() {
    let mut q = ScancodeQueue::new(0);
    assert!(!q.try_push(1));
    assert_eq!(q.pop(), None);
}

#[test]
fn executor_fifo_and_idempotent_wake() {
    let mut e = Executor::new();
    assert!(e.is_idle());
    let a = e.spawn();
    let b = e.spawn();
    assert_eq!(a.0, 0);
    assert_eq!(b.0, 1);
    assert_eq!(e.next_ready(), Some(a));
    assert_eq!(e.state(a), Some(TaskState::Running));
    e.finish_poll(a, false);
    assert_eq!(e.state(a), Some(TaskState::Suspended));
    e.wake(a);
    e.wake(a);
    assert_eq!(e.state(a), Some(TaskState::Queued));
    assert_eq!(e.next_ready(), Some(b));
    assert_eq!(e.next_ready(), Some(a));
    assert_eq!(e.next_ready(), None);
    e.finish_poll(b, true);
    assert_eq!(e.state(b), Some(TaskState::Completed));
    e.wake(b);
    assert_eq!(e.state(b), Some(TaskState::Completed));
    assert!(e.is_idle());
}

#[test]
fn wake_while_running_requeues() {
    let mut e = Executor::new();
    let a = e.spawn();
    assert_eq!(e.next_ready(), Some(a));
    e.wake(a);
    assert_eq!(e.state(a), Some(TaskState::RunningWoken));
    e.finish_poll(a, false);
    assert_eq!(e.state(a), Some(TaskState::Queued));
    assert_eq!(e.next_ready(), Some(a));
    assert_eq!(e.state(kyros::executor::TaskId(9)), None);
}

#[test]
fn decoder_letters_and_shift() {
    let mut d = Decoder::new();
    assert_eq!(d.process(0x1E), Some('a'));
    assert_eq!(d.process(0x9E), None);
    assert_eq!(d.process(0x2A), None);
    assert_eq!(d.process(0x1E), Some('A'));
    assert_eq!(d.process(0x02), Some('!'));
    assert_eq!(d.process(0xAA), None);
    assert_eq!(d.process(0x02), Some('1'));
    assert_eq!(d.process(0x39), Some(' '));
    assert_eq!(d.process(0x1C), Some('\n'));
    assert_eq!(d.process(0x01), None);
}

#[test]
fn letter_a_reaches_the_display() {
    let mut k = Kernel::new(100);
    let id = k.spawn_printer();
    assert!(matches!(k.run_pass(), Pass::Polled { output, done: false, .. } if output.is_empty()));
    assert!(matches!(k.run_pass(), Pass::Idle));
    assert_eq!(k.keyboard_interrupt(0x1E), 33);
    match k.run_pass() {
        Pass::Polled { task, output, done } => {
            assert_eq!(task, id);
            assert_eq!(output, vec!['a']);
            assert!(!done);
        }
        Pass::Idle => panic!("the keypress task was not woken"),
    }
}

#[test]
fn suspended_task_woken_by_push() {
    let mut k = Kernel::new(8);
    k.spawn_printer();
    assert!(matches!(k.run_pass(), Pass::Polled { .. }));
    assert!(matches!(k.run_pass(), Pass::Idle));
    k.keyboard_interrupt(0x2A);
    k.keyboard_interrupt(0x23);
    k.keyboard_interrupt(0xAA);
    k.keyboard_interrupt(0x17);
    match k.run_pass() {
        Pass::Polled { output, .. } => assert_eq!(output, vec!['H', 'i']),
        Pass::Idle => panic!("no pass after pushes"),
    }
    assert!(matches!(k.run_pass(), Pass::Idle));
}

#[test]
fn idle_kernel_still_acknowledges() {
    let mut k = Kernel::new(4);
    for _ in 0..3 {
        assert!(matches!(k.run_pass(), Pass::Idle));
        assert_eq!(k.timer_interrupt(), 32);
        assert_eq!(k.keyboard_interrupt(0x1E), 33);
    }
}

#[test]
fn keyboard_overflow_is_silent() {
    let mut k = Kernel::new(2);
    k.spawn_printer();
    k.run_pass();
    for _ in 0..5 {
        assert_eq!(k.keyboard_interrupt(0x1E), 33);
    }
    match k.run_pass() {
        Pass::Polled { output, .. } => assert_eq!(output, vec!['a', 'a']),
        Pass::Idle => panic!("no pass after pushes"),
    }
    k.keyboard_interrupt(0x30);
    match k.run_pass() {
        Pass::Polled { output, .. } => assert_eq!(output, vec!['b']),
        Pass::Idle => panic!("no pass after push"),
    }
}
