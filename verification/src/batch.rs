//! The batch loader: the table of where each application's image lies, which
//! application runs next, and where its first trap context goes.

use vstd::prelude::*;

use crate::config::MAX_APP_NUM;
use crate::trap::context::{user_mode_sstatus, TrapContext, SSTATUS_FIELDS, SSTATUS_SPP};

verus! {

/// Size of the user stack, in bytes.
pub const USER_STACK_SIZE: usize = 4096 * 2;

/// Size of the kernel stack, in bytes.
pub const KERNEL_STACK_SIZE: usize = 4096 * 2;

/// Where an application is copied to and starts running.
pub const APP_BASE_ADDRESS: usize = 0x80400000;

/// How many bytes from `APP_BASE_ADDRESS` are cleared before an application is copied in.
pub const APP_SIZE_LIMIT: usize = 0x20000;

/// Entries of the start-address table: one per application, and one more for
/// the end of the last application.
pub const APP_TABLE_LEN: usize = MAX_APP_NUM + 1;

/// The applications linked into the kernel image and which one runs next.
pub struct AppManager {
    num_app: usize,
    current_app: usize,
    app_start: [usize; APP_TABLE_LEN],
}

/// What loading an application amounts to.
#[derive(Debug, Copy, Clone, PartialEq, Eq, Structural)]
pub enum AppLoad {
    /// Every application has run: the machine is shut down.
    AllCompleted,
    /// Clear `APP_SIZE_LIMIT` bytes at `APP_BASE_ADDRESS`, then copy the `len`
    /// bytes at `src` there.
    Load { app_id: usize, src: usize, len: usize },
}

impl AppManager {
    /// How many applications there are.
    pub closed spec fn spec_num_app(&self) -> nat {
        self.num_app as nat
    }

    /// The application that loads next.
    pub closed spec fn spec_current_app(&self) -> nat {
        self.current_app as nat
    }

    /// Entry `i` of the start-address table: where application `i` begins, and
    /// for `i == num_app` where the last one ends.
    pub closed spec fn spec_app_start(&self, i: int) -> usize {
        self.app_start@[i]
    }

    /// The invariant: at most `MAX_APP_NUM` applications.
    pub closed spec fn wf(&self) -> bool {
        self.num_app <= MAX_APP_NUM
    }

    /// True when application `i` has a well-formed image: it does not end before it starts.
    pub open spec fn image_ok(&self, i: int) -> bool {
        self.spec_app_start(i) <= self.spec_app_start(i + 1)
    }

    /// The manager for `num_app` applications whose start addresses (and the
    /// end of the last one) are `app_start_raw`; the first application loads first.
    pub fn new(num_app: usize, app_start_raw: &[usize]) -> (m: Self)
        requires
            num_app <= MAX_APP_NUM,
            app_start_raw@.len() == num_app + 1,
        ensures
            m.wf(),
            m.spec_num_app() == num_app,
            m.spec_current_app() == 0,
            forall|i: int| 0 <= i <= num_app ==> #[trigger] m.spec_app_start(i) == app_start_raw@[i],
    {
        let mut app_start: [usize; APP_TABLE_LEN] = [0;APP_TABLE_LEN];
        let mut i: usize = 0;
        while i <= num_app
            invariant
                num_app <= MAX_APP_NUM,
                app_start_raw@.len() == num_app + 1,
                i <= num_app + 1,
                forall|k: int| 0 <= k < i ==> #[trigger] app_start@[k] == app_start_raw@[k],
            decreases num_app + 1 - i,
        {
            app_start[i] = app_start_raw[i];
            i = i + 1;
        }
        AppManager { num_app, current_app: 0, app_start }
    }

    /// How many applications there are.
    pub fn num_app(&self) -> (r: usize)
        ensures
            r == self.spec_num_app(),
    {
        self.num_app
    }

    /// The application that loads next.
    pub fn get_current_app(&self) -> (r: usize)
        ensures
            r == self.spec_current_app(),
    {
        self.current_app
    }

    /// Moves on to the next application.
    pub fn move_to_next_app(&mut self)
        requires
            old(self).spec_current_app() < usize::MAX,
        ensures
            final(self).spec_current_app() == old(self).spec_current_app() + 1,
            final(self).spec_num_app() == old(self).spec_num_app(),
            forall|i: int| #[trigger] final(self).spec_app_start(i) == old(self).spec_app_start(i),
            final(self).wf() == old(self).wf(),
    {
        self.current_app = self.current_app + 1;
    }

    /// Where application `app_id` lies: `AllCompleted` once `app_id` is past
    /// the last application, else its start address and length.
    pub fn load_app(&self, app_id: usize) -> (r: AppLoad)
        requires
            self.wf(),
            app_id < self.spec_num_app() ==> self.image_ok(app_id as int),
        ensures
            app_id >= self.spec_num_app() ==> r == AppLoad::AllCompleted,
            app_id < self.spec_num_app() ==> r == (AppLoad::Load {
                app_id,
                src: self.spec_app_start(app_id as int),
                len: (self.spec_app_start(app_id as int + 1) - self.spec_app_start(
                    app_id as int,
                )) as usize,
            }),
    {
        if app_id >= self.num_app {
            return AppLoad::AllCompleted;
        }
        let src = self.app_start[app_id];
        let len = self.app_start[app_id + 1] - self.app_start[app_id];
        AppLoad::Load { app_id, src, len }
    }

    /// Loads the current application and moves on to the next. Once every
    /// application has run, nothing moves and `AllCompleted` comes back.
    pub fn load_next_app(&mut self) -> (r: AppLoad)
        requires
            old(self).wf(),
            old(self).spec_current_app() < old(self).spec_num_app() ==> old(self).image_ok(
                old(self).spec_current_app() as int,
            ),
        ensures
            final(self).wf(),
            final(self).spec_num_app() == old(self).spec_num_app(),
            forall|i: int| #[trigger] final(self).spec_app_start(i) == old(self).spec_app_start(i),
            old(self).spec_current_app() >= old(self).spec_num_app() ==> {
                &&& r == AppLoad::AllCompleted
                &&& final(self).spec_current_app() == old(self).spec_current_app()
            },
            old(self).spec_current_app() < old(self).spec_num_app() ==> {
                &&& r == (AppLoad::Load {
                    app_id: old(self).spec_current_app() as usize,
                    src: old(self).spec_app_start(old(self).spec_current_app() as int),
                    len: (old(self).spec_app_start(old(self).spec_current_app() as int + 1)
                        - old(self).spec_app_start(old(self).spec_current_app() as int)) as usize,
                })
                &&& final(self).spec_current_app() == old(self).spec_current_app() + 1
            },
    {
        let current = self.get_current_app();
        let load = self.load_app(current);
        if let AppLoad::Load { .. } = load {
            self.move_to_next_app();
        }
        load
    }

    /// The start and end address of each application, in order.
    pub fn app_spans(&self) -> (spans: Vec<(usize, usize)>)
        requires
            self.wf(),
        ensures
            spans@.len() == self.spec_num_app(),
            forall|i: int|
                0 <= i < spans@.len() ==> #[trigger] spans@[i] == (
                    self.spec_app_start(i),
                    self.spec_app_start(i + 1),
                ),
    {
        let mut spans: Vec<(usize, usize)> = Vec::new();
        let mut i: usize = 0;
        while i < self.num_app
            invariant
                self.wf(),
                i <= self.num_app,
                spans@.len() == i,
                forall|k: int|
                    0 <= k < i ==> #[trigger] spans@[k] == (
                        self.spec_app_start(k),
                        self.spec_app_start(k + 1),
                    ),
            decreases self.num_app - i,
        {
            spans.push((self.app_start[i], self.app_start[i + 1]));
            i = i + 1;
        }
        spans
    }
}

/// Where application `app_id` is placed when every application has a slot of
/// its own: slots of `APP_SIZE_LIMIT` bytes, one after the other, from
/// `APP_BASE_ADDRESS`.
pub fn app_base_address(app_id: usize) -> (base: usize)
    requires
        app_id < MAX_APP_NUM,
    ensures
        base == APP_BASE_ADDRESS + app_id * APP_SIZE_LIMIT,
{
    APP_BASE_ADDRESS + app_id * APP_SIZE_LIMIT
}

/// The slots of two different applications do not overlap: the slot of the
/// earlier one ends at or before the start of the later one.
pub proof fn lemma_app_slots_disjoint(i: usize, j: usize)
    requires
        i < j < MAX_APP_NUM,
    ensures
        APP_BASE_ADDRESS + i * APP_SIZE_LIMIT + APP_SIZE_LIMIT <= APP_BASE_ADDRESS + j
            * APP_SIZE_LIMIT,
{
}

/// The alignment of both stacks, in bytes: a page.
pub const STACK_ALIGN: usize = 4096;

/// The kernel stack, by the address of its lowest byte.
pub struct KernelStack {
    pub base: usize,
}

/// The user stack, by the address of its lowest byte.
pub struct UserStack {
    pub base: usize,
}

impl UserStack {
    /// A user stack is page-aligned and ends below the top of the address space.
    pub open spec fn wf(&self) -> bool {
        &&& self.base % STACK_ALIGN == 0
        &&& self.base + USER_STACK_SIZE <= usize::MAX
    }

    /// The initial stack pointer: one past the top of the stack, page-aligned.
    pub fn get_sp(&self) -> (sp: usize)
        requires
            self.wf(),
        ensures
            sp == self.base + USER_STACK_SIZE,
            sp % STACK_ALIGN == 0,
    {
        self.base + USER_STACK_SIZE
    }
}

impl KernelStack {
    /// A kernel stack is page-aligned and ends below the top of the address space.
    pub open spec fn wf(&self) -> bool {
        &&& self.base % STACK_ALIGN == 0
        &&& self.base + KERNEL_STACK_SIZE <= usize::MAX
    }

    /// The initial stack pointer: one past the top of the stack, page-aligned.
    pub fn get_sp(&self) -> (sp: usize)
        requires
            self.wf(),
        ensures
            sp == self.base + KERNEL_STACK_SIZE,
            sp % STACK_ALIGN == 0,
    {
        self.base + KERNEL_STACK_SIZE
    }

    /// Where a trap context of `context_size` bytes goes when it is pushed on
    /// the empty kernel stack: right below the top.
    pub fn push_context(&self, context_size: usize) -> (addr: usize)
        requires
            self.wf(),
            context_size <= KERNEL_STACK_SIZE,
        ensures
            addr == self.base + KERNEL_STACK_SIZE - context_size,
            self.base <= addr,
            addr + context_size == self.base + KERNEL_STACK_SIZE,
    {
        self.get_sp() - context_size
    }
}

/// What running the next application amounts to.
pub enum BatchStep {
    /// Every application has run: the machine is shut down.
    AllCompleted,
    /// Load application `app_id` (the `len` bytes at `src`) at
    /// `APP_BASE_ADDRESS`, write `context` at `context_addr` on the kernel
    /// stack, and return from the trap through it.
    Run { app_id: usize, src: usize, len: usize, context: TrapContext, context_addr: usize },
}

/// The next step of the batch system: load the next application and enter it
/// in user mode at `APP_BASE_ADDRESS` with the user stack's top as its stack
/// pointer, its trap context pushed on the kernel stack; or, once every
/// application has run, stop. `sstatus_bits` is the current value of
/// `sstatus` and `context_size` the size of a `TrapContext` in memory.
pub fn run_next_app(
    app_manager: &mut AppManager,
    kernel_stack: &KernelStack,
    user_stack: &UserStack,
    sstatus_bits: usize,
    context_size: usize,
) -> (step: BatchStep)
    requires
        old(app_manager).wf(),
        old(app_manager).spec_current_app() < old(app_manager).spec_num_app() ==> old(
            app_manager,
        ).image_ok(old(app_manager).spec_current_app() as int),
        kernel_stack.wf(),
        user_stack.wf(),
        context_size <= KERNEL_STACK_SIZE,
    ensures
        final(app_manager).wf(),
        final(app_manager).spec_num_app() == old(app_manager).spec_num_app(),
        old(app_manager).spec_current_app() >= old(app_manager).spec_num_app() ==> {
            &&& step is AllCompleted
            &&& final(app_manager).spec_current_app() == old(app_manager).spec_current_app()
        },
        old(app_manager).spec_current_app() < old(app_manager).spec_num_app() ==> {
            let id = old(app_manager).spec_current_app() as int;
            &&& final(app_manager).spec_current_app() == id + 1
            &&& step matches BatchStep::Run { app_id, src, len, context, context_addr } && {
                &&& app_id == id
                &&& src == old(app_manager).spec_app_start(id)
                &&& len == old(app_manager).spec_app_start(id + 1) - old(
                    app_manager,
                ).spec_app_start(id)
                &&& context.sepc == APP_BASE_ADDRESS
                &&& context.x@[2] == user_stack.base + USER_STACK_SIZE
                &&& context.x@[2] % STACK_ALIGN == 0
                &&& forall|i: int| 0 <= i < 32 && i != 2 ==> #[trigger] context.x@[i] == 0
                &&& context.sstatus == user_mode_sstatus(sstatus_bits)
                &&& context.sstatus & SSTATUS_SPP == 0
                &&& context.sstatus & SSTATUS_FIELDS == sstatus_bits & SSTATUS_FIELDS
                &&& context_addr == kernel_stack.base + KERNEL_STACK_SIZE - context_size
            }
        },
{
    match app_manager.load_next_app() {
        AppLoad::AllCompleted => BatchStep::AllCompleted,
        AppLoad::Load { app_id, src, len } => {
            let context = TrapContext::app_init_context(
                APP_BASE_ADDRESS,
                user_stack.get_sp(),
                sstatus_bits,
            );
            let context_addr = kernel_stack.push_context(context_size);
            BatchStep::Run { app_id, src, len, context, context_addr }
        },
    }
}

/// Consecutive applications are laid out back to back: the end of
/// application `i` in the table of spans is the start of application `i + 1`.
pub proof fn lemma_spans_back_to_back(m: AppManager, spans: Seq<(usize, usize)>, i: int)
    requires
        spans.len() == m.spec_num_app(),
        forall|k: int|
            0 <= k < spans.len() ==> #[trigger] spans[k] == (
                m.spec_app_start(k),
                m.spec_app_start(k + 1),
            ),
        0 <= i,
        i + 1 < spans.len(),
    ensures
        spans[i].1 == spans[i + 1].0,
{
    assert(spans[i] == (m.spec_app_start(i), m.spec_app_start(i + 1)));
    assert(spans[i + 1] == (m.spec_app_start(i + 1), m.spec_app_start(i + 2)));
}

} // verus!
