//! What holds of the machine whatever it is asked to do.

use vstd::prelude::*;
use crate::context::{CpuView, ThView};
use crate::frame::{image, initial_image, lemma_load_stored_words};
use crate::kernel::{
    at_reset, entry_of, greeting, repeated, spec_next_thread, thread_after, token, tokens,
    KernelView, ThreadId,
};
use crate::layout::{FRAME_SIZE, FRAME_WORDS, SAVED_REGS, STACK_SIZE};

verus! {

/// A thread that is suspended and then resumed finds every saved register,
/// its stack pointer and its resume address as they were, and no byte of
/// its stack outside the saved image has changed.
pub proof fn lemma_suspend_resume(th: ThView, cpu: CpuView)
    requires
        th.wf(),
        cpu.wf(),
        cpu.can_suspend(),
    ensures
        th.suspend(cpu).wf(),
        th.suspend(cpu).saved() == image(cpu.pc, cpu.regs),
        th.suspend(cpu).resume() == cpu,
        forall|i: int|
            0 <= i < STACK_SIZE && !(cpu.sp - FRAME_SIZE <= i < cpu.sp) ==> th.suspend(
                cpu,
            ).stack[i] == th.stack[i],
{
    let words = image(cpu.pc, cpu.regs);
    lemma_load_stored_words(th.stack, cpu.sp - FRAME_SIZE, words);
    assert(words.subrange(1, FRAME_WORDS as int) =~= cpu.regs);
}

/// A freshly prepared thread starts at its entry with every saved register
/// zero and its whole stack above it; the image it starts from lies one
/// image size below the top of its stack.
pub proof fn lemma_init_resume(th: ThView, entry: u64)
    requires
        th.wf(),
    ensures
        th.init(entry).wf(),
        th.init(entry).sp == STACK_SIZE - FRAME_SIZE,
        th.init(entry).saved() == initial_image(entry),
        th.init(entry).resume() == (CpuView {
            pc: entry,
            sp: STACK_SIZE as u64,
            regs: Seq::new(SAVED_REGS as nat, |k: int| 0u64),
        }),
        forall|i: int| 0 <= i < STACK_SIZE - FRAME_SIZE ==> th.init(entry).stack[i] == th.stack[i],
{
    let words = initial_image(entry);
    lemma_load_stored_words(th.stack, STACK_SIZE - FRAME_SIZE, words);
    assert(words.subrange(1, FRAME_WORDS as int) =~= Seq::new(SAVED_REGS as nat, |k: int| 0u64));
}

/// Preparing a thread twice is preparing it once with the second entry.
pub proof fn lemma_init_second_wins(th: ThView, first: u64, second: u64)
    requires
        th.wf(),
    ensures
        th.init(first).init(second) == th.init(second),
{
    assert(th.init(first).init(second).stack =~= th.init(second).stack);
}

/// One step of a machine whose two threads are alive prints the running
/// thread's token, hands the core to the other thread, and leaves both
/// alive.
pub proof fn lemma_step_alternates(k: KernelView)
    requires
        k.wf(),
        k.scheduled(),
    ensures
        k.step().wf(),
        k.step().scheduled(),
        k.step().current == spec_next_thread(k.current),
        k.step().console == k.console + token(k.current),
{
    lemma_suspend_resume(k.th(k.current), k.cpu);
}

/// However many steps a machine with two live threads takes, the tokens
/// printed alternate strictly, beginning with the thread that was running,
/// and both threads stay alive.
pub proof fn lemma_run_alternates(k: KernelView, n: nat)
    requires
        k.wf(),
        k.scheduled(),
    ensures
        k.run(n).wf(),
        k.run(n).scheduled(),
        k.run(n).current == thread_after(k.current, n),
        k.run(n).console == k.console + tokens(k.current, n),
    decreases n,
{
    if n == 0 {
        assert(k.console + tokens(k.current, 0) =~= k.console);
    } else {
        lemma_step_alternates(k);
        lemma_run_alternates(k.step(), (n - 1) as nat);
        assert(k.console + token(k.current) + tokens(spec_next_thread(k.current), (n - 1) as nat)
            =~= k.console + tokens(k.current, n));
    }
}

/// Entering the kernel from the boot context prints the greeting and leaves
/// thread A running at its entry with an empty stack, thread B ready to
/// start, and the boot context suspended for good.
pub proof fn lemma_kernel_main_starts_a(k: KernelView)
    requires
        k.wf(),
        !k.halted,
        k.current == ThreadId::Boot,
        k.cpu.can_suspend(),
    ensures
        k.kernel_main().wf(),
        k.kernel_main().scheduled(),
        k.kernel_main().current == ThreadId::A,
        k.kernel_main().console == k.console + greeting(),
        k.kernel_main().cpu == (CpuView {
            pc: entry_of(ThreadId::A),
            sp: STACK_SIZE as u64,
            regs: Seq::new(SAVED_REGS as nat, |k: int| 0u64),
        }),
        k.kernel_main().th_b == k.th_b.init(entry_of(ThreadId::B)),
{
    lemma_init_resume(k.th_a, entry_of(ThreadId::A));
    lemma_init_resume(k.th_b, entry_of(ThreadId::B));
    lemma_suspend_resume(k.boot, k.cpu);
}

/// From reset, entering the kernel and taking `n` steps prints the greeting
/// and then `n` tokens that alternate strictly, beginning with thread A.
pub proof fn lemma_boot_output(spin: u64, n: nat)
    ensures
        !at_reset(spin).kernel_main().run(n).halted,
        at_reset(spin).kernel_main().run(n).console == greeting() + tokens(ThreadId::A, n),
{
    let k = at_reset(spin);
    lemma_kernel_main_starts_a(k);
    lemma_run_alternates(k.kernel_main(), n);
    assert(k.console + greeting() =~= greeting());
}

/// A thread that yields and is later switched back to continues with the
/// registers, stack pointer and resume address it yielded with, and with
/// its stack outside the saved image untouched, whatever the other thread
/// did with the processor and with its own stack in between.
pub proof fn lemma_yield_round_trip(k: KernelView, later: KernelView)
    requires
        k.wf(),
        later.wf(),
        !k.halted,
        k.current != ThreadId::Boot,
        k.cpu.can_suspend(),
        !later.halted,
        later.current == spec_next_thread(k.current),
        later.cpu.can_suspend(),
        later.th(k.current) == k.th_yield().th(k.current),
    ensures
        !later.th_yield().halted,
        later.th_yield().current == k.current,
        later.th_yield().cpu == k.cpu,
        forall|i: int|
            0 <= i < STACK_SIZE && !(k.cpu.sp - FRAME_SIZE <= i < k.cpu.sp)
                ==> later.th_yield().th(k.current).stack[i] == k.th(k.current).stack[i],
{
    lemma_suspend_resume(k.th(k.current), k.cpu);
}

/// A yield writes to the control block of the context that yields and to
/// no other, and so does a step: a suspended thread's saved state and stack
/// stay as they are until it is switched to.
pub proof fn lemma_suspended_untouched(k: KernelView, id: ThreadId)
    requires
        id != k.current,
    ensures
        k.th_yield().th(id) == k.th(id),
        k.step().th(id) == k.th(id),
{
}

/// A body that never yields keeps the core: however many turns it takes,
/// the same thread is running with the same registers, the core has not
/// halted, no control block has changed, and only its own bytes were
/// printed.
pub proof fn lemma_no_yield_starves(k: KernelView, bytes: Seq<u8>, n: nat)
    requires
        !k.halted,
    ensures
        !k.turns_without_yield(bytes, n).halted,
        k.turns_without_yield(bytes, n).current == k.current,
        k.turns_without_yield(bytes, n).cpu == k.cpu,
        k.turns_without_yield(bytes, n).boot == k.boot,
        k.turns_without_yield(bytes, n).th_a == k.th_a,
        k.turns_without_yield(bytes, n).th_b == k.th_b,
        k.turns_without_yield(bytes, n).console == k.console + repeated(bytes, n),
    decreases n,
{
    if n == 0 {
        assert(k.console + repeated(bytes, 0) =~= k.console);
    } else {
        lemma_no_yield_starves(k.print(bytes).spin(), bytes, (n - 1) as nat);
        assert(k.console + bytes + repeated(bytes, (n - 1) as nat) =~= k.console + repeated(
            bytes,
            n,
        ));
    }
}

} // verus!
