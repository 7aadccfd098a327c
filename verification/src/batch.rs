//! The batch system: the sequencer that keeps the table of application images
//! and loads them one after another, and the two stack regions.

use crate::trap::context::TrapContext;
use vstd::prelude::*;

verus! {

/// Alignment of both stack regions, in bytes.
pub const STACK_ALIGN: usize = 4096;

/// Number of machine words that a trap context takes: the 32 general
/// registers, `sstatus` and `sepc`.
pub const CONTEXT_WORDS: usize = 34;

/// Size of the user stack, in bytes.
pub const USER_STACK_SIZE: usize = 4096 * 2;

/// Size of the kernel stack, in bytes.
pub const KERNEL_STACK_SIZE: usize = 4096 * 2;

/// The largest number of applications that the table can describe.
pub const MAX_APP_NUM: usize = 16;

/// Number of entries that the sequencer keeps: one boundary more than
/// applications.
pub const APP_TABLE_LEN: usize = MAX_APP_NUM + 1;

/// The address at which the execution region starts, and at which every
/// application is entered.
pub const APP_BASE_ADDRESS: usize = 0x80400000;

/// Size of the execution region, and so the largest size of an image.
pub const APP_SIZE_LIMIT: usize = 0x20000;

/// Why a table of applications was refused.
#[derive(Clone, Copy, Debug, PartialEq, Eq, Structural)]
pub enum TableError {
    /// The table ends before the count, or before the last boundary.
    Truncated,
    /// The table counts more applications than `MAX_APP_NUM`.
    TooManyApps,
    /// A boundary is smaller than the one before it.
    Unordered,
    /// An image is larger than the execution region.
    ImageTooLarge,
    /// The last boundary lies beyond the end of the images.
    OutOfBounds,
}

/// What became of a request to load an application.
#[derive(Clone, Copy, Debug, PartialEq, Eq, Structural)]
pub enum LoadOutcome {
    /// The image stands at the start of the execution region; it is this many
    /// bytes long. The instruction cache has to be invalidated before the
    /// application runs.
    Loaded(usize),
    /// There is no such application: every application has completed, and the
    /// machine has to halt.
    AllCompleted,
}

/// What the caller has to do once the sequencer was asked to run an
/// application.
#[derive(Clone, Copy, Debug, PartialEq, Eq, Structural)]
pub enum Launch {
    /// Application `app_id` is loaded and its initial context stands in the
    /// slot of the kernel stack, at the address `cx_addr`: restore it.
    Restore { app_id: usize, cx_addr: usize },
    /// No application is left: halt the machine.
    Shutdown,
}

/// Size of a trap context in bytes.
pub open spec fn context_size() -> int {
    CONTEXT_WORDS * (usize::BITS / 8)
}

/// The kernel stack: a region of `KERNEL_STACK_SIZE` bytes that starts at an
/// aligned address. Its topmost bytes are the slot of the one trap context
/// that is live at a time; the slot is all of the region that is modelled.
pub struct KernelStack {
    base: usize,
    context: TrapContext,
}

/// The user stack: a region of `USER_STACK_SIZE` bytes that starts at an
/// aligned address.
pub struct UserStack {
    base: usize,
}

impl KernelStack {
    /// The lowest address of the region.
    pub closed spec fn base(&self) -> usize {
        self.base
    }

    /// The trap context in the slot.
    pub closed spec fn context(&self) -> TrapContext {
        self.context
    }

    /// The region starts at an aligned address and ends within the address
    /// space.
    pub open spec fn wf(&self) -> bool {
        &&& self.base() % STACK_ALIGN == 0
        &&& self.base() + KERNEL_STACK_SIZE <= usize::MAX
    }

    /// The address just above the region, from which the stack grows down.
    pub open spec fn top(&self) -> int {
        self.base() + KERNEL_STACK_SIZE
    }

    /// The kernel stack that starts at `base`, with a slot of zeros; `None`
    /// where `base` is not aligned or the region would end beyond the address
    /// space.
    pub fn new(base: usize) -> (r: Option<Self>)
        ensures
            r is Some <==> base % STACK_ALIGN == 0 && base + KERNEL_STACK_SIZE <= usize::MAX,
            r matches Some(stack) ==> {
                &&& stack.wf()
                &&& stack.base() == base
                &&& stack.context().x@ == Seq::new(32, |i: int| 0usize)
                &&& stack.context().sstatus == 0
                &&& stack.context().sepc == 0
            },
    {
        if base % STACK_ALIGN != 0 || base > usize::MAX - KERNEL_STACK_SIZE {
            return None;
        }
        let context = TrapContext { x: [0; 32], sstatus: 0, sepc: 0 };
        proof {
            assert(context.x@ =~= Seq::new(32, |i: int| 0usize));
        }
        Some(KernelStack { base, context })
    }

    /// The initial stack pointer: the address just above the region.
    pub fn get_sp(&self) -> (sp: usize)
        requires
            self.wf(),
        ensures
            sp == self.top(),
    {
        self.base + KERNEL_STACK_SIZE
    }

    /// The address of the slot: a trap context below the top of the region.
    pub fn context_addr(&self) -> (addr: usize)
        requires
            self.wf(),
        ensures
            addr == self.top() - context_size(),
    {
        let word: usize = (usize::BITS / 8) as usize;
        self.get_sp() - CONTEXT_WORDS * word
    }

    /// Puts `cx` into the slot and hands the slot out, so that the context
    /// can be changed in place.
    pub fn push_context(&mut self, cx: TrapContext) -> (slot: &mut TrapContext)
        ensures
            *slot == cx,
            final(self).context() == *final(slot),
            final(self).base() == old(self).base(),
    {
        self.context = cx;
        &mut self.context
    }

    /// Hands the slot out, so that the context in it can be changed in
    /// place.
    pub fn context_mut(&mut self) -> (slot: &mut TrapContext)
        ensures
            *slot == old(self).context(),
            final(self).context() == *final(slot),
            final(self).base() == old(self).base(),
    {
        &mut self.context
    }

    /// The trap context in the slot.
    pub fn current_context(&self) -> (cx: &TrapContext)
        ensures
            *cx == self.context(),
    {
        &self.context
    }

    /// This region and `user` have no byte in common.
    pub open spec fn disjoint(&self, user: &UserStack) -> bool {
        self.top() <= user.base() || user.top() <= self.base()
    }

    /// Whether this region and `user` have no byte in common.
    pub fn is_disjoint(&self, user: &UserStack) -> (b: bool)
        requires
            self.wf(),
            user.wf(),
        ensures
            b == self.disjoint(user),
    {
        self.base + KERNEL_STACK_SIZE <= user.base || user.base + USER_STACK_SIZE <= self.base
    }
}

impl UserStack {
    /// The lowest address of the region.
    pub closed spec fn base(&self) -> usize {
        self.base
    }

    /// The region starts at an aligned address and ends within the address
    /// space.
    pub open spec fn wf(&self) -> bool {
        &&& self.base() % STACK_ALIGN == 0
        &&& self.base() + USER_STACK_SIZE <= usize::MAX
    }

    /// The address just above the region, from which the stack grows down.
    pub open spec fn top(&self) -> int {
        self.base() + USER_STACK_SIZE
    }

    /// The user stack that starts at `base`; `None` where `base` is not
    /// aligned or the region would end beyond the address space.
    pub fn new(base: usize) -> (r: Option<Self>)
        ensures
            r is Some <==> base % STACK_ALIGN == 0 && base + USER_STACK_SIZE <= usize::MAX,
            r matches Some(stack) ==> stack.wf() && stack.base() == base,
    {
        if base % STACK_ALIGN != 0 || base > usize::MAX - USER_STACK_SIZE {
            return None;
        }
        Some(UserStack { base })
    }

    /// The initial stack pointer of an application: the address just above
    /// the region.
    pub fn get_sp(&self) -> (sp: usize)
        requires
            self.wf(),
        ensures
            sp == self.top(),
    {
        self.base + USER_STACK_SIZE
    }
}

/// The number of applications that `table` announces: its first entry.
pub open spec fn table_count(table: Seq<usize>) -> int {
    table[0] as int
}

/// The boundaries that `table` holds after its count: one more than
/// applications.
pub open spec fn table_boundaries(table: Seq<usize>) -> Seq<usize> {
    table.subrange(1, table_count(table) + 2)
}

/// The length of the image between boundary `i` and the next one; negative
/// where the next boundary is the smaller one.
pub open spec fn image_len(boundaries: Seq<usize>, i: int) -> int {
    boundaries[i + 1] - boundaries[i]
}

/// Boundaries never decrease.
pub open spec fn ordered(boundaries: Seq<usize>) -> bool {
    forall|i: int| 0 <= i < boundaries.len() - 1 ==> #[trigger] image_len(boundaries, i) >= 0
}

/// No image is larger than the execution region.
pub open spec fn images_fit(boundaries: Seq<usize>) -> bool {
    forall|i: int|
        0 <= i < boundaries.len() - 1 ==> #[trigger] image_len(boundaries, i) <= APP_SIZE_LIMIT
}

/// The fault of `table`, if it has one, as a description of images that are
/// `images_len` bytes long together.
pub open spec fn table_error(table: Seq<usize>, images_len: nat) -> Option<TableError> {
    if table.len() == 0 {
        Some(TableError::Truncated)
    } else if table_count(table) > MAX_APP_NUM {
        Some(TableError::TooManyApps)
    } else if table.len() < table_count(table) + 2 {
        Some(TableError::Truncated)
    } else if !ordered(table_boundaries(table)) {
        Some(TableError::Unordered)
    } else if !images_fit(table_boundaries(table)) {
        Some(TableError::ImageTooLarge)
    } else if table_boundaries(table).last() > images_len {
        Some(TableError::OutOfBounds)
    } else {
        None
    }
}

/// What the execution region holds once `image` is loaded: the image at its
/// start, and zero in every byte after it.
pub open spec fn loaded_region(image: Seq<u8>) -> Seq<u8> {
    Seq::new(APP_SIZE_LIMIT as nat, |i: int| if i < image.len() { image[i] } else { 0u8 })
}

/// The sequencer: how many applications there are, which one is current, and
/// where each image lies among the images.
pub struct AppManager<'a> {
    num_app: usize,
    current_app: usize,
    app_start: [usize; APP_TABLE_LEN],
    images: &'a [u8],
}

impl<'a> AppManager<'a> {
    /// The number of applications.
    pub closed spec fn app_count(&self) -> nat {
        self.num_app as nat
    }

    /// The index of the current application; equal to the number of
    /// applications once all have run.
    pub closed spec fn current(&self) -> nat {
        self.current_app as nat
    }

    /// The boundaries of the images: application `i` lies between boundary `i`
    /// and boundary `i + 1`.
    pub closed spec fn boundaries(&self) -> Seq<usize> {
        self.app_start@.subrange(0, self.num_app + 1)
    }

    /// The bytes of all images, one after another.
    pub closed spec fn images(&self) -> Seq<u8> {
        self.images@
    }

    /// The invariant of the sequencer.
    pub open spec fn wf(&self) -> bool {
        &&& self.app_count() <= MAX_APP_NUM
        &&& self.current() <= self.app_count()
        &&& self.boundaries().len() == self.app_count() + 1
        &&& ordered(self.boundaries())
        &&& images_fit(self.boundaries())
        &&& self.boundaries().last() <= self.images().len()
    }

    /// This sequencer describes the same applications as `before`: as many,
    /// with the same boundaries, in the same images.
    pub open spec fn same_table_as(&self, before: &Self) -> bool {
        &&& self.app_count() == before.app_count()
        &&& self.boundaries() == before.boundaries()
        &&& self.images() == before.images()
    }

    /// This sequencer is `before` one step later: the application after the
    /// current one of `before` is current, and nothing else has changed.
    pub open spec fn is_next_of(&self, before: &Self) -> bool {
        &&& self.current() == before.current() + 1
        &&& self.same_table_as(before)
    }

    /// The image of application `id`.
    pub open spec fn image(&self, id: int) -> Seq<u8> {
        self.images().subrange(self.boundaries()[id] as int, self.boundaries()[id + 1] as int)
    }

    /// Reads the table of applications: the count, then one boundary more
    /// than the count. The boundaries are offsets into `images`.
    pub fn new(table: &[usize], images: &'a [u8]) -> (r: Result<Self, TableError>)
        ensures
            match r {
                Ok(manager) => {
                    &&& table_error(table@, images@.len()) is None
                    &&& manager.wf()
                    &&& manager.app_count() == table_count(table@)
                    &&& manager.current() == 0
                    &&& manager.boundaries() == table_boundaries(table@)
                    &&& manager.images() == images@
                },
                Err(e) => table_error(table@, images@.len()) == Some(e),
            },
    {
        if table.len() == 0 {
            return Err(TableError::Truncated);
        }
        let num_app: usize = table[0];
        if num_app > MAX_APP_NUM {
            return Err(TableError::TooManyApps);
        }
        if table.len() < num_app + 2 {
            return Err(TableError::Truncated);
        }
        let ghost bounds = table_boundaries(table@);
        let mut app_start: [usize; APP_TABLE_LEN] = [0; APP_TABLE_LEN];
        let mut is_ordered: bool = true;
        let mut fits: bool = true;
        app_start[0] = table[1];
        let mut i: usize = 0;
        while i < num_app
            invariant
                i <= num_app <= MAX_APP_NUM,
                table@.len() >= num_app + 2,
                bounds == table_boundaries(table@),
                num_app == table_count(table@),
                forall|j: int| 0 <= j <= i ==> app_start@[j] == bounds[j],
                is_ordered <==> forall|j: int| 0 <= j < i ==> #[trigger] image_len(bounds, j) >= 0,
                fits <==> forall|j: int|
                    0 <= j < i ==> #[trigger] image_len(bounds, j) <= APP_SIZE_LIMIT,
            decreases num_app - i,
        {
            let start: usize = table[i + 1];
            let end: usize = table[i + 2];
            assert(image_len(bounds, i as int) == end - start);
            app_start[i + 1] = end;
            if start > end {
                is_ordered = false;
            } else if end - start > APP_SIZE_LIMIT {
                fits = false;
            }
            i += 1;
        }
        if !is_ordered {
            return Err(TableError::Unordered);
        }
        if !fits {
            return Err(TableError::ImageTooLarge);
        }
        if app_start[num_app] > images.len() {
            return Err(TableError::OutOfBounds);
        }
        let manager = AppManager { num_app, current_app: 0, app_start, images };
        proof {
            assert(manager.boundaries() =~= bounds);
        }
        Ok(manager)
    }

    /// Loads application `app_id` into the execution region `region`: clears
    /// the whole region, then copies the image to its start.
    ///
    /// Where there is no application `app_id`, nothing is touched and the
    /// outcome says that the machine has to halt.
    pub fn load_app(&self, app_id: usize, region: &mut [u8]) -> (outcome: LoadOutcome)
        requires
            self.wf(),
            old(region)@.len() == APP_SIZE_LIMIT,
        ensures
            app_id < self.app_count() ==> {
                &&& outcome == LoadOutcome::Loaded(self.image(app_id as int).len() as usize)
                &&& final(region)@ == loaded_region(self.image(app_id as int))
            },
            app_id >= self.app_count() ==> {
                &&& outcome == LoadOutcome::AllCompleted
                &&& final(region)@ == old(region)@
            },
    {
        if app_id >= self.num_app {
            return LoadOutcome::AllCompleted;
        }
        let start: usize = self.app_start[app_id];
        let end: usize = self.app_start[app_id + 1];
        proof {
            assert(self.boundaries()[app_id as int] == start);
            assert(self.boundaries()[app_id + 1] == end);
            assert(image_len(self.boundaries(), app_id as int) == end - start);
            self.lemma_boundary_in_images(app_id + 1);
        }
        let len: usize = end - start;
        let ghost image = self.image(app_id as int);
        let mut i: usize = 0;
        while i < APP_SIZE_LIMIT
            invariant
                i <= APP_SIZE_LIMIT,
                region@.len() == APP_SIZE_LIMIT,
                forall|j: int| 0 <= j < i ==> region@[j] == 0,
            decreases APP_SIZE_LIMIT - i,
        {
            region[i] = 0;
            i += 1;
        }
        let mut k: usize = 0;
        while k < len
            invariant
                k <= len <= APP_SIZE_LIMIT,
                len == end - start,
                start <= end <= self.images@.len(),
                region@.len() == APP_SIZE_LIMIT,
                image == self.images@.subrange(start as int, end as int),
                forall|j: int| 0 <= j < k ==> region@[j] == image[j],
                forall|j: int| k <= j < APP_SIZE_LIMIT ==> region@[j] == 0,
            decreases len - k,
        {
            region[k] = self.images[start + k];
            k += 1;
        }
        proof {
            assert(region@ =~= loaded_region(image));
        }
        LoadOutcome::Loaded(len)
    }

    /// Loading application `id` copies exactly the bytes between its two
    /// boundaries to the start of the execution region, and leaves zero in
    /// every byte of the region behind them.
    pub proof fn lemma_loaded_image(&self, id: int)
        requires
            self.wf(),
            0 <= id < self.app_count(),
        ensures
            self.image(id).len() == image_len(self.boundaries(), id),
            0 <= image_len(self.boundaries(), id) <= APP_SIZE_LIMIT,
            loaded_region(self.image(id)).len() == APP_SIZE_LIMIT,
            forall|i: int|
                0 <= i < image_len(self.boundaries(), id) ==> #[trigger] loaded_region(
                    self.image(id),
                )[i] == self.images()[self.boundaries()[id] + i],
            forall|i: int|
                image_len(self.boundaries(), id) <= i < APP_SIZE_LIMIT ==> #[trigger] loaded_region(
                    self.image(id),
                )[i] == 0,
    {
        self.lemma_boundary_in_images(id + 1);
        assert(image_len(self.boundaries(), id) >= 0);
        assert(image_len(self.boundaries(), id) <= APP_SIZE_LIMIT);
    }

    /// Every boundary lies within the images.
    proof fn lemma_boundary_in_images(&self, i: int)
        requires
            self.wf(),
            0 <= i <= self.app_count(),
        ensures
            self.boundaries()[i] <= self.images().len(),
        decreases self.app_count() - i,
    {
        if i < self.app_count() {
            self.lemma_boundary_in_images(i + 1);
            assert(image_len(self.boundaries(), i) >= 0);
        }
    }

    /// The index of the current application.
    pub fn get_current_app(&self) -> (id: usize)
        ensures
            id == self.current(),
    {
        self.current_app
    }

    /// The number of applications.
    pub fn num_app(&self) -> (n: usize)
        ensures
            n == self.app_count(),
    {
        self.num_app
    }

    /// Makes the next application the current one.
    pub fn move_to_next_app(&mut self)
        requires
            old(self).wf(),
            old(self).current() < old(self).app_count(),
        ensures
            final(self).wf(),
            final(self).is_next_of(old(self)),
    {
        self.current_app += 1;
    }

    /// A step from an application to the next one keeps the invariant: the
    /// current index grows by exactly one and never passes the number of
    /// applications, and the images of all applications are what they were.
    pub proof fn lemma_step_keeps_invariant(&self, before: &Self)
        requires
            before.wf(),
            before.current() < before.app_count(),
            self.is_next_of(before),
        ensures
            self.wf(),
            self.current() == before.current() + 1,
            self.current() <= self.app_count(),
            forall|id: int| 0 <= id < self.app_count() ==> self.image(id) == before.image(id),
    {
    }

    /// Reports where each application lies: for application `i`, the offset
    /// at which its image starts and the offset at which it ends. The number
    /// of applications is the length of the report.
    pub fn print_app_info(&self) -> (ranges: Vec<(usize, usize)>)
        requires
            self.wf(),
        ensures
            ranges@.len() == self.app_count(),
            forall|i: int|
                0 <= i < self.app_count() ==> #[trigger] ranges@[i] == (
                    self.boundaries()[i],
                    self.boundaries()[i + 1],
                ),
    {
        let mut ranges: Vec<(usize, usize)> = Vec::new();
        let mut i: usize = 0;
        while i < self.num_app
            invariant
                self.wf(),
                i <= self.num_app,
                ranges@.len() == i,
                forall|j: int|
                    0 <= j < i ==> #[trigger] ranges@[j] == (
                        self.boundaries()[j],
                        self.boundaries()[j + 1],
                    ),
            decreases self.num_app - i,
        {
            ranges.push((self.app_start[i], self.app_start[i + 1]));
            i += 1;
        }
        ranges
    }
}

/// What running application `id` of `manager` leads to: the state of the
/// kernel stack and of the execution region before and after, and what the
/// caller is told to do.
///
/// Where there is such an application, its image is loaded, the slot holds
/// its initial context (entered at `APP_BASE_ADDRESS`, with the stack pointer
/// at the top of the user stack), and the caller restores from the slot.
/// Where there is none, nothing has changed and the caller halts the machine.
pub open spec fn launch_result(
    manager: &AppManager,
    id: nat,
    user_stack: &UserStack,
    sstatus: usize,
    stack_before: KernelStack,
    stack_after: KernelStack,
    region_before: Seq<u8>,
    region_after: Seq<u8>,
    launch: Launch,
) -> bool {
    if id < manager.app_count() {
        &&& region_after == loaded_region(manager.image(id as int))
        &&& stack_after.base() == stack_before.base()
        &&& stack_after.context().is_initial(APP_BASE_ADDRESS, user_stack.top() as usize, sstatus)
        &&& launch == (Launch::Restore {
            app_id: id as usize,
            cx_addr: (stack_before.top() - context_size()) as usize,
        })
    } else {
        &&& region_after == region_before
        &&& stack_after.base() == stack_before.base()
        &&& stack_after.context() == stack_before.context()
        &&& launch == Launch::Shutdown
    }
}

/// Runs the current application: loads its image into `region` and puts its
/// initial context into the slot of the kernel stack. `sstatus` is the
/// current value of the status register.
///
/// Where every application has completed, nothing is touched and the caller
/// is told to halt the machine.
pub fn run_current_app(
    manager: &AppManager,
    kernel_stack: &mut KernelStack,
    user_stack: &UserStack,
    region: &mut [u8],
    sstatus: usize,
) -> (launch: Launch)
    requires
        manager.wf(),
        old(kernel_stack).wf(),
        user_stack.wf(),
        old(region)@.len() == APP_SIZE_LIMIT,
    ensures
        final(kernel_stack).wf(),
        launch_result(
            manager,
            manager.current(),
            user_stack,
            sstatus,
            *old(kernel_stack),
            *final(kernel_stack),
            old(region)@,
            final(region)@,
            launch,
        ),
{
    let app_id = manager.get_current_app();
    match manager.load_app(app_id, region) {
        LoadOutcome::AllCompleted => Launch::Shutdown,
        LoadOutcome::Loaded(_) => {
            let cx = TrapContext::app_init_context(APP_BASE_ADDRESS, user_stack.get_sp(), sstatus);
            kernel_stack.push_context(cx);
            Launch::Restore { app_id, cx_addr: kernel_stack.context_addr() }
        },
    }
}

/// Leaves the current application and runs the next one: makes it the
/// current application, then does as `run_current_app` does.
pub fn run_next_app(
    manager: &mut AppManager,
    kernel_stack: &mut KernelStack,
    user_stack: &UserStack,
    region: &mut [u8],
    sstatus: usize,
) -> (launch: Launch)
    requires
        old(manager).wf(),
        old(manager).current() < old(manager).app_count(),
        old(kernel_stack).wf(),
        user_stack.wf(),
        old(region)@.len() == APP_SIZE_LIMIT,
    ensures
        final(manager).wf(),
        final(manager).is_next_of(old(manager)),
        final(kernel_stack).wf(),
        launch_result(
            final(manager),
            final(manager).current(),
            user_stack,
            sstatus,
            *old(kernel_stack),
            *final(kernel_stack),
            old(region)@,
            final(region)@,
            launch,
        ),
{
    manager.move_to_next_app();
    run_current_app(manager, kernel_stack, user_stack, region, sstatus)
}

/// Reports where each application lies, as `AppManager::print_app_info`
/// does.
pub fn print_app_info(manager: &AppManager) -> (ranges: Vec<(usize, usize)>)
    requires
        manager.wf(),
    ensures
        ranges@.len() == manager.app_count(),
        forall|i: int|
            0 <= i < manager.app_count() ==> #[trigger] ranges@[i] == (
                manager.boundaries()[i],
                manager.boundaries()[i + 1],
            ),
{
    manager.print_app_info()
}

/// Sets the batch system up: reports where each application lies.
pub fn init(manager: &AppManager) -> (ranges: Vec<(usize, usize)>)
    requires
        manager.wf(),
    ensures
        ranges@.len() == manager.app_count(),
        forall|i: int|
            0 <= i < manager.app_count() ==> #[trigger] ranges@[i] == (
                manager.boundaries()[i],
                manager.boundaries()[i + 1],
            ),
{
    self::print_app_info(manager)
}

} // verus!
