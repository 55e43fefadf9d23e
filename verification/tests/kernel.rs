use coop_kernel::context::Cpu;
use coop_kernel::kernel::{
    next_thread, Kernel, ThreadId, KERNEL_MAIN, SPIN_COUNT, TH_A_ENTRY, TH_B_ENTRY,
};
use coop_kernel::layout::{FRAME_SIZE, SAVED_REGS, STACK_SIZE};

fn text(kernel: &Kernel) -> String {
    String::from_utf8(kernel.output().clone()).unwrap()
}

fn booted(spin: u64) -> Kernel {
    let mut kernel = Kernel::with_spin(spin);
    kernel.kernel_main();
    kernel
}

#[test]
fn next_thread_is_a_ring_of_two() {
    assert_eq!(next_thread(ThreadId::A), ThreadId::B);
    assert_eq!(next_thread(ThreadId::B), ThreadId::A);
    assert_eq!(next_thread(ThreadId::Boot), ThreadId::A);
}

#[test]
fn machine_at_reset() {
    let kernel = Kernel::new();
    assert_eq!(kernel.current(), ThreadId::Boot);
    assert!(!kernel.halted());
    assert_eq!(kernel.cpu().pc, KERNEL_MAIN);
    assert_eq!(kernel.cpu().sp, STACK_SIZE as u64);
    assert_eq!(kernel.cpu().regs, [0u64; SAVED_REGS]);
    assert!(kernel.output().is_empty());
    assert_eq!(kernel.spin_count(), SPIN_COUNT);
    assert_eq!(kernel.spin_count(), 1_000_000);
    assert_eq!(kernel.nops(), 0);
    for id in [ThreadId::Boot, ThreadId::A, ThreadId::B] {
        assert_eq!(kernel.thread(id).sp(), 0);
        assert!(kernel.thread(id).stack().iter().all(|b| *b == 0));
    }
    assert_eq!(Kernel::with_spin(3).spin_count(), 3);
}

#[test]
fn kernel_main_greets_and_starts_thread_a() {
    let kernel = booted(0);
    assert_eq!(text(&kernel), "Hello, world!\n");
    assert!(!kernel.halted());
    assert_eq!(kernel.current(), ThreadId::A);
    assert_eq!(kernel.cpu().pc, TH_A_ENTRY as u64);
    assert_eq!(kernel.cpu().sp, STACK_SIZE as u64);
    assert_eq!(kernel.cpu().regs, [0u64; SAVED_REGS]);
    // Thread B waits with the image that starts it.
    let b = kernel.thread(ThreadId::B);
    assert_eq!(b.sp(), (STACK_SIZE - FRAME_SIZE) as u64);
    assert_eq!(b.resume_address(), TH_B_ENTRY as u64);
    // The boot context was saved on its own stack and is never resumed.
    let boot = kernel.thread(ThreadId::Boot);
    assert_eq!(boot.sp(), (STACK_SIZE - FRAME_SIZE) as u64);
    assert_eq!(boot.resume_address(), KERNEL_MAIN);
}

#[test]
fn threads_alternate_with_spin_count_zero() {
    let mut kernel = booted(0);
    kernel.take_output();
    kernel.run(8);
    assert_eq!(text(&kernel), "A B A B A B A B ");
    assert!(!kernel.halted());
    assert_eq!(kernel.current(), ThreadId::A);
    assert_eq!(kernel.nops(), 0);
}

#[test]
fn tokens_alternate_after_every_number_of_steps() {
    let mut kernel = booted(5);
    let mut expected = String::from("Hello, world!\n");
    for n in 0..200u64 {
        assert_eq!(text(&kernel), expected);
        let running = if n % 2 == 0 { ThreadId::A } else { ThreadId::B };
        assert_eq!(kernel.current(), running);
        assert_eq!(kernel.nops(), 5 * n);
        kernel.step();
        expected.push_str(if n % 2 == 0 { "A " } else { "B " });
    }
    assert!(!kernel.halted());
}

#[test]
fn output_with_the_default_spin_count() {
    let mut kernel = Kernel::new();
    kernel.kernel_main();
    kernel.run(3);
    assert_eq!(text(&kernel), "Hello, world!\nA B A ");
    assert_eq!(kernel.nops(), 3_000_000);
    assert_eq!(kernel.current(), ThreadId::B);
}

#[test]
fn run_of_zero_steps_changes_nothing() {
    let mut kernel = booted(1);
    kernel.run(0);
    assert_eq!(text(&kernel), "Hello, world!\n");
    assert_eq!(kernel.current(), ThreadId::A);
    assert_eq!(kernel.nops(), 0);
}

#[test]
fn thread_bodies_print_their_own_token() {
    let mut kernel = booted(2);
    kernel.take_output();
    kernel.th_a_entry();
    assert_eq!(text(&kernel), "A ");
    assert_eq!(kernel.current(), ThreadId::B);
    assert_eq!(kernel.nops(), 2);
    kernel.th_b_entry();
    assert_eq!(text(&kernel), "A B ");
    assert_eq!(kernel.current(), ThreadId::A);
    assert_eq!(kernel.nops(), 4);
}

#[test]
fn take_output_leaves_the_machine_running() {
    let mut kernel = booted(0);
    assert_eq!(kernel.take_output(), b"Hello, world!\n".to_vec());
    assert!(kernel.output().is_empty());
    kernel.step();
    assert_eq!(kernel.take_output(), b"A ".to_vec());
    assert_eq!(kernel.current(), ThreadId::B);
}

#[test]
fn local_counters_survive_every_yield() {
    // Each thread keeps a counter of its turns in a callee-preserved
    // register and a second value in another; both must come back from
    // every yield as they were left.
    let mut kernel = booted(0);
    let mut seen = [0u64; 2];
    for turn in 0..100u64 {
        let me = if turn % 2 == 0 { 0 } else { 1 };
        assert_eq!(kernel.current(), if me == 0 { ThreadId::A } else { ThreadId::B });
        let mut cpu = kernel.cpu();
        assert_eq!(cpu.regs[0], seen[me]);
        if seen[me] > 0 {
            assert_eq!(cpu.regs[11], 0xa5a5_0000 + me as u64);
        }
        cpu.regs[0] += 1;
        cpu.regs[11] = 0xa5a5_0000 + me as u64;
        seen[me] += 1;
        kernel.set_cpu(cpu);
        kernel.step();
    }
    assert_eq!(seen, [50, 50]);
    assert!(!kernel.halted());
}

#[test]
fn yield_round_trip_restores_stack_pointer_and_stack() {
    let mut kernel = booted(0);
    // Thread A has called into a few functions: its stack pointer is lower.
    let mut cpu = kernel.cpu();
    cpu.sp -= 256;
    cpu.regs[3] = 33;
    kernel.set_cpu(cpu);
    let before = kernel.cpu();
    kernel.th_yield();
    assert_eq!(kernel.current(), ThreadId::B);
    let a = *kernel.thread(ThreadId::A);
    assert_eq!(a.sp(), before.sp - FRAME_SIZE as u64);
    assert_eq!(a.resume_address(), before.pc);
    // Thread B takes its turn.
    kernel.step();
    assert_eq!(kernel.current(), ThreadId::A);
    let after = kernel.cpu();
    assert_eq!(after.pc, before.pc);
    assert_eq!(after.sp, before.sp);
    assert_eq!(after.regs, before.regs);
    assert_eq!(kernel.thread(ThreadId::A).stack(), a.stack());
}

#[test]
fn a_thread_that_never_yields_starves_the_other() {
    let mut kernel = booted(10);
    kernel.take_output();
    let cpu = kernel.cpu();
    let b = *kernel.thread(ThreadId::B);
    for _ in 0..1000 {
        kernel.print("A ");
        kernel.spin();
    }
    assert!(!kernel.halted());
    assert_eq!(kernel.current(), ThreadId::A);
    assert_eq!(kernel.cpu().pc, cpu.pc);
    assert_eq!(kernel.cpu().sp, cpu.sp);
    assert_eq!(kernel.cpu().regs, cpu.regs);
    assert_eq!(kernel.thread(ThreadId::B).sp(), b.sp());
    assert_eq!(kernel.thread(ThreadId::B).stack(), b.stack());
    assert_eq!(kernel.nops(), 10_000);
    assert_eq!(text(&kernel), "A ".repeat(1000));
    assert!(!text(&kernel).contains('B'));
}

#[test]
fn yield_with_one_image_too_little_stack_halts_the_core() {
    // The running thread has used its whole stack: the image that a yield
    // must push needs one image size more than is left.
    let mut kernel = booted(0);
    kernel.take_output();
    let mut cpu = kernel.cpu();
    cpu.sp = 0;
    kernel.set_cpu(cpu);
    let a = *kernel.thread(ThreadId::A);
    let b = *kernel.thread(ThreadId::B);
    kernel.step();
    assert!(kernel.halted());
    assert_eq!(text(&kernel), "A ");
    assert_eq!(kernel.thread(ThreadId::A).stack(), a.stack());
    assert_eq!(kernel.thread(ThreadId::B).stack(), b.stack());
    assert_eq!(kernel.cpu().sp, 0);
    // A halted core makes no progress: printing stops.
    kernel.run(10);
    kernel.th_yield();
    kernel.print("x");
    kernel.spin();
    kernel.kernel_main();
    assert_eq!(text(&kernel), "A ");
    assert!(kernel.halted());
}

#[test]
fn yield_one_byte_short_of_room_halts_and_exact_room_does_not() {
    let mut short = booted(0);
    let mut cpu = short.cpu();
    cpu.sp = FRAME_SIZE as u64 - 1;
    short.set_cpu(cpu);
    short.th_yield();
    assert!(short.halted());

    let mut exact = booted(0);
    let mut cpu = exact.cpu();
    cpu.sp = FRAME_SIZE as u64;
    exact.set_cpu(cpu);
    exact.th_yield();
    assert!(!exact.halted());
    assert_eq!(exact.current(), ThreadId::B);
    assert_eq!(exact.thread(ThreadId::A).sp(), 0);
}

#[test]
fn yield_with_stack_pointer_above_the_stack_halts_the_core() {
    let mut kernel = booted(0);
    let mut cpu = kernel.cpu();
    cpu.sp = STACK_SIZE as u64 + 8;
    kernel.set_cpu(cpu);
    kernel.th_yield();
    assert!(kernel.halted());
}

#[test]
fn step_at_an_address_that_is_no_body_halts_the_core() {
    let mut kernel = Kernel::with_spin(0);
    // Before the kernel was entered, control is not in a thread body.
    kernel.step();
    assert!(kernel.halted());
    assert!(kernel.output().is_empty());

    // A body that returns lands on the zero sentinel.
    let mut kernel = booted(0);
    let mut cpu = kernel.cpu();
    cpu.pc = 0;
    kernel.set_cpu(cpu);
    kernel.step();
    assert!(kernel.halted());
    assert_eq!(text(&kernel), "Hello, world!\n");
}

#[test]
fn panic_stops_the_core() {
    let mut kernel = booted(0);
    kernel.panic();
    assert!(kernel.halted());
    let cpu = kernel.cpu();
    kernel.set_cpu(Cpu { pc: 1, sp: 2, regs: [3; SAVED_REGS] });
    assert_eq!(kernel.cpu().pc, cpu.pc);
    assert_eq!(kernel.cpu().sp, cpu.sp);
    kernel.run(4);
    assert_eq!(text(&kernel), "Hello, world!\n");
    assert_eq!(kernel.current(), ThreadId::A);
}

#[test]
fn busy_iterations_stop_counting_at_the_largest_value() {
    let mut kernel = booted(u64::MAX - 1);
    kernel.spin();
    assert_eq!(kernel.nops(), u64::MAX - 1);
    kernel.spin();
    assert_eq!(kernel.nops(), u64::MAX);
    kernel.spin();
    assert_eq!(kernel.nops(), u64::MAX);
    assert!(!kernel.halted());
}

