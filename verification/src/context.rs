//! Thread control blocks, the processor's registers, and the switch between
//! two threads.
//!
//! A thread that is not running keeps its execution state as a saved register
//! image inside its own stack; its control block remembers only where that
//! image begins. Switching pushes the running thread's image, records where it
//! lies, and pops the image of the thread that runs next.

use vstd::prelude::*;
use crate::frame::{
    image, initial_image, lemma_store_no_words, lemma_store_words_push, load_words, read_word,
    store_words, write_word,
};
use crate::layout::{FRAME_SIZE, FRAME_WORDS, SAVED_REGS, STACK_SIZE, WORD_SIZE};

verus! {

/// What a thread control block holds, as mathematical values.
pub struct ThView {
    /// Where the saved register image begins, as an offset into `stack`.
    pub sp: u64,
    /// The bytes of the thread's private stack, lowest address first.
    pub stack: Seq<u8>,
}

/// What the processor's registers hold, as mathematical values.
pub struct CpuView {
    /// The address of the next instruction.
    pub pc: u64,
    /// The stack pointer, an offset into the running thread's stack.
    pub sp: u64,
    /// The callee-preserved registers, in the order in which they are saved.
    pub regs: Seq<u64>,
}

impl CpuView {
    /// The register file has one value for each callee-preserved register.
    pub open spec fn wf(self) -> bool {
        self.regs.len() == SAVED_REGS
    }

    /// The running thread's stack has room below the stack pointer for one
    /// saved register image, and the stack pointer lies within the stack.
    pub open spec fn can_suspend(self) -> bool {
        FRAME_SIZE <= self.sp <= STACK_SIZE
    }

    /// Why the running thread cannot be suspended, where it cannot.
    pub open spec fn fault(self) -> Option<SwitchError> {
        if self.sp < FRAME_SIZE {
            Some(SwitchError::StackOverflow)
        } else if self.sp > STACK_SIZE {
            Some(SwitchError::StackUnderflow)
        } else {
            None
        }
    }
}

impl ThView {
    /// The stack has its fixed size, and the saved stack pointer leaves room
    /// above it for a whole saved register image inside the stack.
    pub open spec fn wf(self) -> bool {
        &&& self.stack.len() == STACK_SIZE
        &&& self.sp + FRAME_SIZE <= STACK_SIZE
    }

    /// The words of the saved register image.
    pub open spec fn saved(self) -> Seq<u64> {
        load_words(self.stack, self.sp as int, FRAME_WORDS as nat)
    }

    /// The control block once the image that starts a thread at `entry` lies
    /// at the top of its stack.
    pub open spec fn init(self, entry: u64) -> ThView {
        ThView {
            sp: (STACK_SIZE - FRAME_SIZE) as u64,
            stack: store_words(self.stack, STACK_SIZE - FRAME_SIZE, initial_image(entry)),
        }
    }

    /// The control block of the running thread once the registers in `cpu`
    /// have been pushed on its stack.
    pub open spec fn suspend(self, cpu: CpuView) -> ThView {
        ThView {
            sp: (cpu.sp - FRAME_SIZE) as u64,
            stack: store_words(self.stack, cpu.sp - FRAME_SIZE, image(cpu.pc, cpu.regs)),
        }
    }

    /// The registers once the saved register image has been popped: control
    /// is at the saved resume address and the stack pointer is just above
    /// the image.
    pub open spec fn resume(self) -> CpuView {
        CpuView {
            pc: self.saved()[0],
            sp: (self.sp + FRAME_SIZE) as u64,
            regs: self.saved().subrange(1, FRAME_WORDS as int),
        }
    }
}

/// Where a saved register image begins: an offset into a stack that leaves
/// room above it for the whole image.
#[derive(Debug, Clone, Copy)]
struct ImageAddr {
    addr: u64,
}

/// A thread control block: the saved stack pointer and the thread's stack.
#[derive(Debug, Clone, Copy)]
pub struct Th {
    sp: ImageAddr,
    stack: [u8; STACK_SIZE],
}

/// The processor's register file, as far as a switch touches it.
#[derive(Debug, Clone, Copy)]
pub struct Cpu {
    /// The address of the next instruction.
    pub pc: u64,
    /// The stack pointer, an offset into the running thread's stack.
    pub sp: u64,
    /// The callee-preserved registers.
    pub regs: [u64; SAVED_REGS],
}

/// Why a switch was refused.
#[derive(Debug, Clone, Copy, PartialEq, Eq, Structural)]
pub enum SwitchError {
    /// The running thread's stack has no room left for its register image.
    StackOverflow,
    /// The stack pointer lies above the top of the running thread's stack.
    StackUnderflow,
}

impl View for Th {
    type V = ThView;

    closed spec fn view(&self) -> ThView {
        ThView { sp: self.sp.addr, stack: self.stack@ }
    }
}

impl View for Cpu {
    type V = CpuView;

    open spec fn view(&self) -> CpuView {
        CpuView { pc: self.pc, sp: self.sp, regs: self.regs@ }
    }
}

/// Writes a saved register image into `stack` from offset `off` up.
fn write_image(stack: &mut [u8; STACK_SIZE], off: usize, resume: u64, regs: &[u64; SAVED_REGS])
    requires
        off + FRAME_SIZE <= STACK_SIZE,
    ensures
        final(stack)@ == store_words(old(stack)@, off as int, image(resume, regs@)),
{
    write_word(stack, off, resume);
    proof {
        lemma_store_no_words(old(stack)@, off as int);
        lemma_store_words_push(old(stack)@, off as int, Seq::<u64>::empty(), resume);
        assert(Seq::<u64>::empty().push(resume) =~= image(resume, regs@).take(1));
    }
    let mut k: usize = 0;
    while k < SAVED_REGS
        invariant
            k <= SAVED_REGS,
            off + FRAME_SIZE <= STACK_SIZE,
            stack@ == store_words(old(stack)@, off as int, image(resume, regs@).take(k + 1)),
        decreases SAVED_REGS - k,
    {
        let ghost done = image(resume, regs@).take(k + 1);
        write_word(stack, off + WORD_SIZE * (k + 1), regs[k]);
        proof {
            lemma_store_words_push(old(stack)@, off as int, done, regs[k as int]);
            assert(done.push(regs[k as int]) =~= image(resume, regs@).take(k + 2));
        }
        k += 1;
    }
    assert(image(resume, regs@).take(SAVED_REGS + 1) =~= image(resume, regs@));
}

/// Reads the saved register image that begins at offset `off` of `stack`.
fn read_image(stack: &[u8; STACK_SIZE], off: usize) -> (r: (u64, [u64; SAVED_REGS]))
    requires
        off + FRAME_SIZE <= STACK_SIZE,
    ensures
        r.0 == load_words(stack@, off as int, FRAME_WORDS as nat)[0],
        r.1@ == load_words(stack@, off as int, FRAME_WORDS as nat).subrange(1, FRAME_WORDS as int),
{
    let ghost words = load_words(stack@, off as int, FRAME_WORDS as nat);
    let resume = read_word(stack, off);
    let mut regs: [u64; SAVED_REGS] = [0u64;SAVED_REGS];
    let mut k: usize = 0;
    while k < SAVED_REGS
        invariant
            k <= SAVED_REGS,
            off + FRAME_SIZE <= STACK_SIZE,
            words == load_words(stack@, off as int, FRAME_WORDS as nat),
            forall|i: int| 0 <= i < k ==> regs@[i] == words[i + 1],
        decreases SAVED_REGS - k,
    {
        regs[k] = read_word(stack, off + WORD_SIZE * (k + 1));
        k += 1;
    }
    assert(regs@ =~= words.subrange(1, FRAME_WORDS as int));
    (resume, regs)
}

impl ImageAddr {
    /// The whole image lies inside the stack.
    #[verifier::type_invariant]
    spec fn inv(self) -> bool {
        self.addr + FRAME_SIZE <= STACK_SIZE
    }
}

impl Th {
    /// A control block with a zeroed stack, whose saved stack pointer is at
    /// the bottom of it.
    pub fn new() -> (th: Th)
        ensures
            th@.sp == 0,
            th@.stack == Seq::new(STACK_SIZE as nat, |i: int| 0u8),
    {
        let th = Th { sp: ImageAddr { addr: 0 }, stack: [0u8;STACK_SIZE] };
        assert(th.stack@ =~= Seq::new(STACK_SIZE as nat, |i: int| 0u8));
        th
    }

    /// Prepares the thread to start at `entry` when it is first switched to.
    ///
    /// The image that a first switch pops is written at the high end of the
    /// stack: the resume address is `entry` and every register slot is zero.
    /// The saved stack pointer is set to where that image begins. A second
    /// call replaces the first. A thread that has started must not be
    /// initialised again: its saved state would be lost.
    pub fn init(&mut self, entry: usize)
        ensures
            final(self)@ == old(self)@.init(entry as u64),
    {
        let top: usize = STACK_SIZE;
        let regs: [u64; SAVED_REGS] = [0u64;SAVED_REGS];
        assert(regs@ =~= Seq::new(SAVED_REGS as nat, |k: int| 0u64));
        write_image(&mut self.stack, top - FRAME_SIZE, entry as u64, &regs);
        self.sp = ImageAddr { addr: (top - FRAME_SIZE) as u64 };
    }

    /// The saved stack pointer: where the saved register image begins.
    pub fn sp(&self) -> (sp: u64)
        ensures
            sp == self@.sp,
            self@.wf(),
    {
        proof {
            use_type_invariant(&self.sp);
        }
        self.sp.addr
    }

    /// The bytes of the stack, lowest address first.
    pub fn stack(&self) -> (stack: &[u8; STACK_SIZE])
        ensures
            stack@ == self@.stack,
    {
        &self.stack
    }

    /// The address at which the thread resumes when it is next switched to.
    pub fn resume_address(&self) -> (resume: u64)
        ensures
            resume == self@.saved()[0],
    {
        proof {
            use_type_invariant(&self.sp);
        }
        read_word(&self.stack, self.sp.addr as usize)
    }
}

/// Suspends the running thread into `prev` and resumes the thread of `next`.
///
/// The resume address and the callee-preserved registers are pushed on the
/// running thread's stack, and the resulting stack pointer is recorded in
/// `prev`. Then the image that `next` points to is popped into the registers
/// and control continues at its resume address. The switch is refused, and
/// nothing is changed, where the stack pointer leaves no room below it for
/// the image or lies above the top of the stack.
pub fn switch_context(cpu: &mut Cpu, prev: &mut Th, next: &Th) -> (r: Result<(), SwitchError>)
    ensures
        r == match old(cpu)@.fault() {
            Some(e) => Err::<(), SwitchError>(e),
            None => Ok::<(), SwitchError>(()),
        },
        r is Ok ==> final(prev)@ == old(prev)@.suspend(old(cpu)@) && final(cpu)@
            == next@.resume(),
        r is Err ==> *final(prev) == *old(prev) && *final(cpu) == *old(cpu),
{
    if cpu.sp < FRAME_SIZE as u64 {
        return Err(SwitchError::StackOverflow);
    }
    if cpu.sp > STACK_SIZE as u64 {
        return Err(SwitchError::StackUnderflow);
    }
    proof {
        use_type_invariant(&next.sp);
    }
    let saved_sp: u64 = cpu.sp - FRAME_SIZE as u64;
    write_image(&mut prev.stack, saved_sp as usize, cpu.pc, &cpu.regs);
    prev.sp = ImageAddr { addr: saved_sp };
    let (resume, regs) = read_image(&next.stack, next.sp.addr as usize);
    cpu.pc = resume;
    cpu.regs = regs;
    cpu.sp = next.sp.addr + FRAME_SIZE as u64;
    Ok(())
}

} // verus!
