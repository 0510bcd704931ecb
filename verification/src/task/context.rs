use vstd::prelude::*;

verus! {

/// The registers that a task switch saves and restores: the return
/// address, the kernel stack pointer and the callee-saved registers `s0`..`s11`.
#[derive(Copy, Clone)]
pub struct TaskContext {
    ra: usize,
    sp: usize,
    s: [usize; 12],
}

impl TaskContext {
    /// The return address that the next switch to this context jumps to.
    pub closed spec fn spec_ra(&self) -> usize {
        self.ra
    }

    /// The stack pointer that the next switch to this context installs.
    pub closed spec fn spec_sp(&self) -> usize {
        self.sp
    }

    /// The saved callee-saved registers.
    pub closed spec fn spec_s(&self) -> Seq<usize> {
        self.s@
    }

    /// True of a context whose callee-saved registers are all zero.
    pub closed spec fn s_zeroed(&self) -> bool {
        forall|i: int| 0 <= i < 12 ==> #[trigger] self.s@[i] == 0
    }

    /// A context with every register zero.
    pub fn zero_init() -> (cx: Self)
        ensures
            cx.spec_ra() == 0,
            cx.spec_sp() == 0,
            cx.s_zeroed(),
    {
        Self { ra: 0, sp: 0, s: [0;12] }
    }

    /// A context that, once switched to, returns into `restore_entry` (the
    /// trap-return routine) with `kernel_sp` as its stack pointer.
    pub fn go_restore(restore_entry: usize, kernel_sp: usize) -> (cx: Self)
        ensures
            cx.spec_ra() == restore_entry,
            cx.spec_sp() == kernel_sp,
            cx.s_zeroed(),
    {
        Self { ra: restore_entry, sp: kernel_sp, s: [0;12] }
    }

    /// The return address held by this context.
    pub fn ra(&self) -> (r: usize)
        ensures
            r == self.spec_ra(),
    {
        self.ra
    }

    /// The stack pointer held by this context.
    pub fn sp(&self) -> (r: usize)
        ensures
            r == self.spec_sp(),
    {
        self.sp
    }
}

} // verus!
