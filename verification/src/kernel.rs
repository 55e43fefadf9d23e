//! The machine as a whole: three execution contexts on one core, the
//! dispatcher that alternates between the two threads, and the thread bodies.
//!
//! The boot context owns a control block of its own, so that the first yield
//! has somewhere to save the state it leaves; nothing ever switches back to
//! it. Code is not interpreted: the program counter names which body runs,
//! and each body is one turn of its loop, up to and including its yield.

use vstd::prelude::*;
use vstd::string::{is_ascii_spec_bytes, StringSliceAdditionalSpecFns};
use crate::console::{print, Console};
use crate::context::{switch_context, Cpu, CpuView, Th, ThView};
use crate::layout::{SAVED_REGS, STACK_SIZE};

verus! {

/// The address at which the boot code enters the kernel.
pub const KERNEL_MAIN: u64 = 0x8020_0000;

/// The address of the body of thread A.
pub const TH_A_ENTRY: usize = 0x8020_1000;

/// The address of the body of thread B.
pub const TH_B_ENTRY: usize = 0x8020_2000;

/// The busy iterations that a body performs between printing and yielding.
pub const SPIN_COUNT: u64 = 1_000_000;

/// The execution contexts of the machine.
#[derive(Debug, Clone, Copy, PartialEq, Eq, Structural)]
pub enum ThreadId {
    /// The context that the core is in when it enters the kernel.
    Boot,
    /// The first of the two threads.
    A,
    /// The second of the two threads.
    B,
}

/// The thread that runs after `current` yields: B after A, and A after
/// anything else.
pub open spec fn spec_next_thread(current: ThreadId) -> ThreadId {
    if current == ThreadId::A {
        ThreadId::B
    } else {
        ThreadId::A
    }
}

/// The address of the body of a thread; the boot context has none.
pub open spec fn entry_of(id: ThreadId) -> u64 {
    match id {
        ThreadId::A => TH_A_ENTRY as u64,
        ThreadId::B => TH_B_ENTRY as u64,
        ThreadId::Boot => KERNEL_MAIN,
    }
}

/// The bytes that the kernel prints when it is entered: `Hello, world!` and
/// a line feed.
pub open spec fn greeting() -> Seq<u8> {
    seq![72u8, 101u8, 108u8, 108u8, 111u8, 44u8, 32u8, 119u8, 111u8, 114u8, 108u8, 100u8, 33u8, 10u8]
}

/// The bytes that a thread prints in each turn of its body: its letter and
/// a space. The boot context prints nothing of the kind.
pub open spec fn token(id: ThreadId) -> Seq<u8> {
    match id {
        ThreadId::A => seq![65u8, 32u8],
        ThreadId::B => seq![66u8, 32u8],
        ThreadId::Boot => Seq::<u8>::empty(),
    }
}

/// The bytes printed by `n` turns of bodies that alternate, `first` first.
pub open spec fn tokens(first: ThreadId, n: nat) -> Seq<u8>
    decreases n,
{
    if n == 0 {
        Seq::<u8>::empty()
    } else {
        token(first) + tokens(spec_next_thread(first), (n - 1) as nat)
    }
}

/// `bytes` repeated `n` times.
pub open spec fn repeated(bytes: Seq<u8>, n: nat) -> Seq<u8>
    decreases n,
{
    if n == 0 {
        Seq::<u8>::empty()
    } else {
        bytes + repeated(bytes, (n - 1) as nat)
    }
}

/// The thread that is current after `n` yields, when `first` was current
/// before them.
pub open spec fn thread_after(first: ThreadId, n: nat) -> ThreadId
    decreases n,
{
    if n == 0 {
        first
    } else {
        thread_after(spec_next_thread(first), (n - 1) as nat)
    }
}

/// The machine, as mathematical values.
pub struct KernelView {
    /// The control block of the boot context.
    pub boot: ThView,
    /// The control block of thread A.
    pub th_a: ThView,
    /// The control block of thread B.
    pub th_b: ThView,
    /// The context whose state is in the processor.
    pub current: ThreadId,
    /// The processor's registers.
    pub cpu: CpuView,
    /// The bytes printed and not yet taken out.
    pub console: Seq<u8>,
    /// The core has stopped for good.
    pub halted: bool,
    /// The busy iterations that each turn of a body performs.
    pub spin: u64,
    /// The busy iterations performed so far, up to the largest value held.
    pub nops: u64,
}

impl KernelView {
    /// Every control block and the register file are well formed.
    pub open spec fn wf(self) -> bool {
        &&& self.boot.wf()
        &&& self.th_a.wf()
        &&& self.th_b.wf()
        &&& self.cpu.wf()
    }

    /// The control block of a context.
    pub open spec fn th(self, id: ThreadId) -> ThView {
        match id {
            ThreadId::Boot => self.boot,
            ThreadId::A => self.th_a,
            ThreadId::B => self.th_b,
        }
    }

    /// The machine with the control block of `id` replaced by `th`.
    pub open spec fn with_th(self, id: ThreadId, th: ThView) -> KernelView {
        match id {
            ThreadId::Boot => KernelView { boot: th, ..self },
            ThreadId::A => KernelView { th_a: th, ..self },
            ThreadId::B => KernelView { th_b: th, ..self },
        }
    }

    /// The core stops for good.
    pub open spec fn panic(self) -> KernelView {
        KernelView { halted: true, ..self }
    }

    /// The running code prints `bytes`. A halted core prints nothing.
    pub open spec fn print(self, bytes: Seq<u8>) -> KernelView {
        if self.halted {
            self
        } else {
            KernelView { console: self.console + bytes, ..self }
        }
    }

    /// The running code performs its busy iterations.
    pub open spec fn spin(self) -> KernelView {
        if self.halted {
            self
        } else if self.nops + self.spin > u64::MAX {
            KernelView { nops: u64::MAX, ..self }
        } else {
            KernelView { nops: (self.nops + self.spin) as u64, ..self }
        }
    }

    /// The running code replaces the processor's registers.
    pub open spec fn set_cpu(self, cpu: CpuView) -> KernelView {
        if self.halted {
            self
        } else {
            KernelView { cpu, ..self }
        }
    }

    /// The running context yields: the dispatcher makes the next thread
    /// current, then the processor is switched over to it. Where the switch
    /// is refused the core halts.
    pub open spec fn th_yield(self) -> KernelView {
        let next = spec_next_thread(self.current);
        if self.halted {
            self
        } else if self.cpu.can_suspend() {
            KernelView {
                current: next,
                cpu: self.th(next).resume(),
                ..self.with_th(self.current, self.th(self.current).suspend(self.cpu))
            }
        } else {
            KernelView { current: next, halted: true, ..self }
        }
    }

    /// One turn of a thread's body that prints `bytes`.
    pub open spec fn th_entry(self, bytes: Seq<u8>) -> KernelView {
        self.print(bytes).spin().th_yield()
    }

    /// The core runs the code at the program counter up to its next yield.
    /// An address that is no thread's body halts the core.
    pub open spec fn step(self) -> KernelView {
        if self.halted {
            self
        } else if self.cpu.pc == entry_of(ThreadId::A) {
            self.th_entry(token(ThreadId::A))
        } else if self.cpu.pc == entry_of(ThreadId::B) {
            self.th_entry(token(ThreadId::B))
        } else {
            self.panic()
        }
    }

    /// The core takes `n` steps.
    pub open spec fn run(self, n: nat) -> KernelView
        decreases n,
    {
        if n == 0 {
            self
        } else {
            self.step().run((n - 1) as nat)
        }
    }

    /// `n` turns of a body that prints `bytes`, spins, and never yields.
    pub open spec fn turns_without_yield(self, bytes: Seq<u8>, n: nat) -> KernelView
        decreases n,
    {
        if n == 0 {
            self
        } else {
            self.print(bytes).spin().turns_without_yield(bytes, (n - 1) as nat)
        }
    }

    /// Both threads are alive: one of them is running at the top of its
    /// body with room on its stack to be suspended, and the other is
    /// suspended with an image that resumes it at the top of its body.
    pub open spec fn scheduled(self) -> bool {
        let other = spec_next_thread(self.current);
        &&& !self.halted
        &&& self.current != ThreadId::Boot
        &&& self.cpu.pc == entry_of(self.current)
        &&& self.cpu.can_suspend()
        &&& self.th(other).saved()[0] == entry_of(other)
    }

    /// The kernel is entered: it prints its greeting, prepares both threads
    /// to start at their bodies, and yields for the first time.
    pub open spec fn kernel_main(self) -> KernelView {
        if self.halted {
            self
        } else {
            KernelView {
                th_a: self.th_a.init(entry_of(ThreadId::A)),
                th_b: self.th_b.init(entry_of(ThreadId::B)),
                ..self.print(greeting())
            }.th_yield()
        }
    }
}

/// The mathematical value of the machine as the boot code hands it over,
/// with `spin` busy iterations for each turn of a body.
pub open spec fn at_reset(spin: u64) -> KernelView {
    let fresh = ThView { sp: 0, stack: Seq::new(STACK_SIZE as nat, |i: int| 0u8) };
    KernelView {
        boot: fresh,
        th_a: fresh,
        th_b: fresh,
        current: ThreadId::Boot,
        cpu: CpuView {
            pc: KERNEL_MAIN,
            sp: STACK_SIZE as u64,
            regs: Seq::new(SAVED_REGS as nat, |k: int| 0u64),
        },
        console: Seq::<u8>::empty(),
        halted: false,
        spin,
        nops: 0,
    }
}

/// The thread that runs after `current` yields.
pub fn next_thread(current: ThreadId) -> (next: ThreadId)
    ensures
        next == spec_next_thread(current),
{
    if current == ThreadId::A {
        ThreadId::B
    } else {
        ThreadId::A
    }
}

/// The machine: three control blocks, the dispatcher's selector, the
/// processor and the console.
#[derive(Debug)]
pub struct Kernel {
    boot: Th,
    th_a: Th,
    th_b: Th,
    cu: ThreadId,
    cpu: Cpu,
    console: Console,
    halted: bool,
    spin: u64,
    nops: u64,
}

impl View for Kernel {
    type V = KernelView;

    closed spec fn view(&self) -> KernelView {
        KernelView {
            boot: self.boot@,
            th_a: self.th_a@,
            th_b: self.th_b@,
            current: self.cu,
            cpu: self.cpu@,
            console: self.console@,
            halted: self.halted,
            spin: self.spin,
            nops: self.nops,
        }
    }
}

impl Kernel {
    /// The machine as the boot code hands it over: the stack pointer is at
    /// the top of the boot stack, control is at the kernel's entry, no thread
    /// is prepared, and each turn of a body will perform `SPIN_COUNT` busy
    /// iterations.
    pub fn new() -> (kernel: Kernel)
        ensures
            kernel@ == at_reset(SPIN_COUNT),
    {
        Kernel::with_spin(SPIN_COUNT)
    }

    /// As `new`, with `spin` busy iterations for each turn of a body.
    pub fn with_spin(spin: u64) -> (kernel: Kernel)
        ensures
            kernel@ == at_reset(spin),
    {
        let kernel = Kernel {
            boot: Th::new(),
            th_a: Th::new(),
            th_b: Th::new(),
            cu: ThreadId::Boot,
            cpu: Cpu { pc: KERNEL_MAIN, sp: STACK_SIZE as u64, regs: [0u64;SAVED_REGS] },
            console: Console::new(),
            halted: false,
            spin,
            nops: 0,
        };
        assert(kernel.cpu.regs@ =~= Seq::new(SAVED_REGS as nat, |k: int| 0u64));
        kernel
    }

    /// The context whose state is in the processor.
    pub fn current(&self) -> (id: ThreadId)
        ensures
            id == self@.current,
    {
        self.cu
    }

    /// The processor's registers.
    pub fn cpu(&self) -> (cpu: Cpu)
        ensures
            cpu@ == self@.cpu,
    {
        self.cpu
    }

    /// Whether the core has stopped for good.
    pub fn halted(&self) -> (halted: bool)
        ensures
            halted == self@.halted,
    {
        self.halted
    }

    /// The control block of a context.
    pub fn thread(&self, id: ThreadId) -> (th: &Th)
        ensures
            th@ == self@.th(id),
    {
        match id {
            ThreadId::Boot => &self.boot,
            ThreadId::A => &self.th_a,
            ThreadId::B => &self.th_b,
        }
    }

    /// The bytes printed so far and not yet taken out, oldest first.
    pub fn output(&self) -> (bytes: &Vec<u8>)
        ensures
            bytes@ == self@.console,
    {
        self.console.output()
    }

    /// Takes out the bytes printed so far; the machine is otherwise left as
    /// it is.
    pub fn take_output(&mut self) -> (bytes: Vec<u8>)
        ensures
            bytes@ == old(self)@.console,
            final(self)@ == (KernelView { console: Seq::<u8>::empty(), ..old(self)@ }),
    {
        self.console.take()
    }

    /// The busy iterations that each turn of a body performs.
    pub fn spin_count(&self) -> (spin: u64)
        ensures
            spin == self@.spin,
    {
        self.spin
    }

    /// The busy iterations performed so far, up to the largest value held.
    pub fn nops(&self) -> (nops: u64)
        ensures
            nops == self@.nops,
    {
        self.nops
    }

    /// Replaces the processor's registers, as the running code may. A
    /// halted core keeps its registers.
    pub fn set_cpu(&mut self, cpu: Cpu)
        ensures
            final(self)@ == old(self)@.set_cpu(cpu@),
    {
        if !self.halted {
            self.cpu = cpu;
        }
    }

    /// Stops the core for good.
    pub fn panic(&mut self)
        ensures
            final(self)@ == old(self)@.panic(),
    {
        self.halted = true;
    }

    /// Yields the core to the next thread.
    ///
    /// The dispatcher's selector is moved to the next thread first; then the
    /// running context is suspended into its own control block and the next
    /// thread is resumed from its. The call returns at once: what has changed
    /// is whose state the processor holds. Where the running stack has no
    /// room for the saved image, the core halts.
    pub fn th_yield(&mut self)
        ensures
            final(self)@ == old(self)@.th_yield(),
    {
        if self.halted {
            return ;
        }
        let prev = self.cu;
        let next = next_thread(prev);
        self.cu = next;
        let switched = match prev {
            ThreadId::A => switch_context(&mut self.cpu, &mut self.th_a, &self.th_b),
            ThreadId::B => switch_context(&mut self.cpu, &mut self.th_b, &self.th_a),
            ThreadId::Boot => switch_context(&mut self.cpu, &mut self.boot, &self.th_a),
        };
        if switched.is_err() {
            self.panic();
        }
    }

    /// Prints `s` on the console. A halted core prints nothing.
    pub fn print(&mut self, s: &str)
        ensures
            final(self)@ == old(self)@.print(s.spec_bytes()),
    {
        if !self.halted {
            print(&mut self.console, s);
        }
    }

    /// Performs the busy iterations of one turn of a body.
    pub fn spin(&mut self)
        ensures
            final(self)@ == old(self)@.spin(),
    {
        if !self.halted {
            if self.nops > u64::MAX - self.spin {
                self.nops = u64::MAX;
            } else {
                self.nops = self.nops + self.spin;
            }
        }
    }

    /// One turn of the body of thread A: print `A `, spin, yield.
    pub fn th_a_entry(&mut self)
        ensures
            final(self)@ == old(self)@.th_entry(token(ThreadId::A)),
    {
        proof {
            lemma_token_a();
        }
        self.print("A ");
        self.spin();
        self.th_yield();
    }

    /// One turn of the body of thread B: print `B `, spin, yield.
    pub fn th_b_entry(&mut self)
        ensures
            final(self)@ == old(self)@.th_entry(token(ThreadId::B)),
    {
        proof {
            lemma_token_b();
        }
        self.print("B ");
        self.spin();
        self.th_yield();
    }

    /// Runs the code at the program counter up to its next yield.
    pub fn step(&mut self)
        ensures
            final(self)@ == old(self)@.step(),
    {
        if self.halted {
            return ;
        }
        if self.cpu.pc == TH_A_ENTRY as u64 {
            self.th_a_entry();
        } else if self.cpu.pc == TH_B_ENTRY as u64 {
            self.th_b_entry();
        } else {
            self.panic();
        }
    }

    /// Takes `n` steps.
    pub fn run(&mut self, n: u64)
        ensures
            final(self)@ == old(self)@.run(n as nat),
    {
        let mut i: u64 = 0;
        while i < n
            invariant
                i <= n,
                self@.run((n - i) as nat) == old(self)@.run(n as nat),
            decreases n - i,
        {
            self.step();
            i += 1;
        }
    }

    /// Enters the kernel: prints the greeting, prepares both threads to
    /// start at their bodies, and yields for the first time.
    pub fn kernel_main(&mut self)
        ensures
            final(self)@ == old(self)@.kernel_main(),
    {
        if self.halted {
            return ;
        }
        proof {
            lemma_greeting();
        }
        self.print("Hello, world!\n");
        self.th_a.init(TH_A_ENTRY);
        self.th_b.init(TH_B_ENTRY);
        self.th_yield();
    }
}

/// The string that thread A prints is its token.
proof fn lemma_token_a()
    ensures
        "A ".spec_bytes() == token(ThreadId::A),
{
    reveal_strlit("A ");
    is_ascii_spec_bytes("A ");
    assert("A ".spec_bytes() =~= token(ThreadId::A));
}

/// The string that thread B prints is its token.
proof fn lemma_token_b()
    ensures
        "B ".spec_bytes() == token(ThreadId::B),
{
    reveal_strlit("B ");
    is_ascii_spec_bytes("B ");
    assert("B ".spec_bytes() =~= token(ThreadId::B));
}

/// The string that the kernel prints on entry is its greeting.
proof fn lemma_greeting()
    ensures
        "Hello, world!\n".spec_bytes() == greeting(),
{
    reveal_strlit("Hello, world!\n");
    is_ascii_spec_bytes("Hello, world!\n");
    assert("Hello, world!\n".spec_bytes() =~= greeting());
}

} // verus!
