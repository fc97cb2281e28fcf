//! Startup model for the STM32F429ZI: the interrupt vector table and the
//! reset-time memory initialization.
//!
//! The vector table is a fixed-size, statically ordered sequence of
//! optional handler slots.  Position 0 of the hardware table is the
//! initial stack pointer and is supplied by the link step; the slots here
//! stand for positions 1 and up: the core Cortex-M exceptions first, then
//! the device's peripheral interrupts in the vendor-defined order.  A slot
//! left unassigned resolves to the default trap, which halts forever
//! rather than silently returning: an unhandled interrupt must stay
//! visible.
//!
//! The reset sequence has exactly three steps, in order: copy the
//! initialized-data image word by word from its source to its destination
//! range, zero the uninitialized-data range word by word, and only then
//! transfer control to the application entry point.  The two memory
//! phases are modelled here over an explicit word arena; the final
//! transfer of control never returns and belongs to the surrounding
//! program.  Global data is valid only after both phases are complete.

use vstd::prelude::*;

verus! {

/// The number of handler slots in the vector table: the 15 core exception
/// positions and 91 peripheral interrupt positions.
pub const VECTOR_ENTRY_COUNT: usize = 106;

/// The number of peripheral interrupt slots in the vector table.
pub const VECTOR_IRQ_COUNT: u32 = 91;

/// The slot index of the first peripheral interrupt: IRQ `n` sits at slot
/// `VECTOR_IRQ_FIRST + n`.
pub const VECTOR_IRQ_FIRST: usize = 15;

/// What a vector table slot dispatches to.
#[derive(Copy, Clone, Debug, PartialEq, Eq, Structural)]
pub enum Handler {
    /// The reset handler: runs the startup sequence.
    Reset,
    /// Non-maskable interrupt.
    Nmi,
    /// Hard fault: halts forever.
    HardFault,
    /// Memory management fault.
    MemManage,
    /// Bus fault.
    BusFault,
    /// Usage fault.
    UsageFault,
    /// Supervisor call.
    SvCall,
    /// Debug monitor.
    DebugMon,
    /// Pendable service request.
    PendSv,
    /// System tick.
    SysTick,
    /// The peripheral interrupt with the given IRQ number.
    Irq(u32),
    /// The default trap for unassigned slots: halts forever.
    DefaultTrap,
}

/// The interrupt vector table: one optional handler per slot; an
/// unassigned slot resolves to [`Handler::DefaultTrap`].  The table is
/// meant to be built once, before interrupts matter, and read afterwards.
pub struct VectorTable {
    slots: Vec<Option<Handler>>,
}

impl VectorTable {
    /// The slots as a sequence.
    pub closed spec fn spec_slots(&self) -> Seq<Option<Handler>> {
        self.slots@
    }

    /// A table has exactly [`VECTOR_ENTRY_COUNT`] slots.
    pub closed spec fn wf(&self) -> bool {
        self.slots@.len() == VECTOR_ENTRY_COUNT
    }

    /// A fresh table with every slot unassigned.
    pub fn new() -> (t: Self)
        ensures
            t.wf(),
            forall|i: int| 0 <= i < VECTOR_ENTRY_COUNT ==> t.spec_slots()[i] is None,
    {
        let mut slots: Vec<Option<Handler>> = Vec::new();
        let mut i: usize = 0;
        while i < VECTOR_ENTRY_COUNT
            invariant
                i == slots@.len(),
                i <= VECTOR_ENTRY_COUNT,
                forall|j: int| 0 <= j < i ==> slots@[j] is None,
            decreases VECTOR_ENTRY_COUNT - i,
        {
            slots.push(None);
            i = i + 1;
        }
        VectorTable { slots }
    }

    /// Assign `handler` to slot `index`; every other slot keeps its value.
    pub fn set_handler(&mut self, index: usize, handler: Handler)
        requires
            old(self).wf(),
            index < VECTOR_ENTRY_COUNT,
        ensures
            final(self).wf(),
            final(self).spec_slots() == old(self).spec_slots().update(
                index as int,
                Some(handler),
            ),
    {
        self.slots.set(index, Some(handler));
    }

    /// The handler that slot `index` dispatches to: the assigned handler,
    /// or the default trap for a slot never assigned one.
    pub fn resolve(&self, index: usize) -> (h: Handler)
        requires
            self.wf(),
            index < VECTOR_ENTRY_COUNT,
        ensures
            h == (match self.spec_slots()[index as int] {
                Some(handler) => handler,
                None => Handler::DefaultTrap,
            }),
    {
        match self.slots[index] {
            Some(handler) => handler,
            None => Handler::DefaultTrap,
        }
    }
}

/// The handler assignment of the STM32F429ZI table: slot by slot, the
/// core exceptions at positions 1..=15 of the hardware table (slots
/// 0..=14 here, with the architecturally reserved positions unassigned)
/// and the 91 peripheral interrupts after them.
pub open spec fn spec_stm32f429zi_slot(i: int) -> Option<Handler> {
    if i == 0 {
        Some(Handler::Reset)
    } else if i == 1 {
        Some(Handler::Nmi)
    } else if i == 2 {
        Some(Handler::HardFault)
    } else if i == 3 {
        Some(Handler::MemManage)
    } else if i == 4 {
        Some(Handler::BusFault)
    } else if i == 5 {
        Some(Handler::UsageFault)
    } else if 6 <= i < 10 {
        None
    } else if i == 10 {
        Some(Handler::SvCall)
    } else if i == 11 {
        Some(Handler::DebugMon)
    } else if i == 12 {
        None
    } else if i == 13 {
        Some(Handler::PendSv)
    } else if i == 14 {
        Some(Handler::SysTick)
    } else if 15 <= i < 106 {
        Some(Handler::Irq((i - 15) as u32))
    } else {
        None
    }
}

/// Build the STM32F429ZI vector table: every slot holds exactly what
/// [`spec_stm32f429zi_slot`] assigns it — the reset handler first, the
/// other core exceptions in their architectural positions, the reserved
/// positions unassigned, and each peripheral interrupt at slot 15 plus
/// its IRQ number.
pub fn stm32f429zi_vector_table() -> (t: VectorTable)
    ensures
        t.wf(),
        forall|i: int|
            0 <= i < VECTOR_ENTRY_COUNT ==> #[trigger] t.spec_slots()[i]
                == spec_stm32f429zi_slot(i),
{
    let mut t = VectorTable::new();
    t.set_handler(0, Handler::Reset);
    t.set_handler(1, Handler::Nmi);
    t.set_handler(2, Handler::HardFault);
    t.set_handler(3, Handler::MemManage);
    t.set_handler(4, Handler::BusFault);
    t.set_handler(5, Handler::UsageFault);
    t.set_handler(10, Handler::SvCall);
    t.set_handler(11, Handler::DebugMon);
    t.set_handler(13, Handler::PendSv);
    t.set_handler(14, Handler::SysTick);
    let mut n: u32 = 0;
    while n < VECTOR_IRQ_COUNT
        invariant
            t.wf(),
            n <= VECTOR_IRQ_COUNT,
            forall|i: int| 0 <= i < 15 ==> t.spec_slots()[i] == spec_stm32f429zi_slot(i),
            forall|i: int| 15 <= i < 15 + n ==> t.spec_slots()[i] == spec_stm32f429zi_slot(i),
            forall|i: int| 15 + n <= i < VECTOR_ENTRY_COUNT ==> t.spec_slots()[i] is None,
        decreases VECTOR_IRQ_COUNT - n,
    {
        t.set_handler(VECTOR_IRQ_FIRST + (n as usize), Handler::Irq(n));
        n = n + 1;
    }
    t
}

/// The copy phase of the reset sequence: copy `len` words from the
/// initialized-data source image at `src_start` to the destination range
/// at `dst_start`, advancing both positions in lockstep.  The destination
/// ends up word-for-word identical to the source image and no word
/// outside the destination range is touched.
pub fn startup_copy_data(arena: &mut Vec<u32>, src_start: usize, dst_start: usize, len: usize)
    requires
        src_start + len <= old(arena)@.len(),
        dst_start + len <= old(arena)@.len(),
        src_start + len <= dst_start || dst_start + len <= src_start,
    ensures
        final(arena)@.len() == old(arena)@.len(),
        forall|i: int|
            0 <= i < len ==> #[trigger] final(arena)@[dst_start + i] == old(arena)@[src_start
                + i],
        forall|j: int|
            0 <= j < old(arena)@.len() && !(dst_start <= j < dst_start + len) ==> final(arena)@[j] == old(arena)@[j],
{
    let arena_len: usize = arena.len();
    let mut src: usize = src_start;
    let mut dest: usize = dst_start;
    let data_end: usize = dst_start + len;

    while dest < data_end
        invariant
            arena@.len() == old(arena)@.len(),
            arena@.len() == arena_len,
            dst_start <= dest <= data_end,
            data_end == dst_start + len,
            src == src_start + (dest - dst_start),
            src_start + len <= arena@.len(),
            dst_start + len <= arena@.len(),
            src_start + len <= dst_start || dst_start + len <= src_start,
            forall|i: int|
                0 <= i < dest - dst_start ==> #[trigger] arena@[dst_start + i] == old(
                arena)@[src_start + i],
            forall|j: int|
                0 <= j < arena@.len() && !(dst_start <= j < dest) ==> arena@[j] == old(arena)@[j],
        decreases data_end - dest,
    {
        let word = arena[src];
        arena.set(dest, word);
        dest = dest + 1;
        src = src + 1;
    }
}

/// The zero phase of the reset sequence: store zero across the `len`
/// words of the uninitialized-data range at `dst_start`.  Every word of
/// the range ends up zero and no word outside it is touched.
pub fn startup_zero_bss(arena: &mut Vec<u32>, dst_start: usize, len: usize)
    requires
        dst_start + len <= old(arena)@.len(),
    ensures
        final(arena)@.len() == old(arena)@.len(),
        forall|i: int| 0 <= i < len ==> #[trigger] final(arena)@[dst_start + i] == 0,
        forall|j: int|
            0 <= j < old(arena)@.len() && !(dst_start <= j < dst_start + len) ==> final(arena)@[j] == old(arena)@[j],
{
    let arena_len: usize = arena.len();
    let mut bss: usize = dst_start;
    let bss_end: usize = dst_start + len;

    while bss < bss_end
        invariant
            arena@.len() == old(arena)@.len(),
            arena@.len() == arena_len,
            dst_start <= bss <= bss_end,
            bss_end == dst_start + len,
            bss_end <= arena@.len(),
            forall|i: int| dst_start <= i < bss ==> arena@[i] == 0,
            forall|j: int|
                0 <= j < arena@.len() && !(dst_start <= j < bss) ==> arena@[j] == old(arena)@[j],
        decreases bss_end - bss,
    {
        arena.set(bss, 0);
        bss = bss + 1;
    }
}

/// The memory phases of the reset handler, in their mandatory order:
/// first the copy phase fills the initialized-data destination from its
/// source image, then the zero phase clears the uninitialized-data range.
/// Afterwards the destination holds the source image word for word, the
/// zero range is all zeros, and every other word of the arena is
/// untouched.  Only after both phases may the application entry point run
/// and global data be read or written; that final, non-returning transfer
/// of control belongs to the surrounding program.
pub fn run_startup(
    arena: &mut Vec<u32>,
    data_src: usize,
    data_dst: usize,
    data_len: usize,
    bss_start: usize,
    bss_len: usize,
)
    requires
        data_src + data_len <= old(arena)@.len(),
        data_dst + data_len <= old(arena)@.len(),
        bss_start + bss_len <= old(arena)@.len(),
        data_src + data_len <= data_dst || data_dst + data_len <= data_src,
        bss_start + bss_len <= data_dst || data_dst + data_len <= bss_start,
    ensures
        final(arena)@.len() == old(arena)@.len(),
        forall|i: int|
            0 <= i < data_len ==> #[trigger] final(arena)@[data_dst + i] == old(
                arena)@[data_src + i],
        forall|i: int| 0 <= i < bss_len ==> #[trigger] final(arena)@[bss_start + i] == 0,
        forall|j: int|
            0 <= j < old(arena)@.len() && !(data_dst <= j < data_dst + data_len) && !(bss_start
                <= j < bss_start + bss_len) ==> final(arena)@[j] == old(arena)@[j],
{
    // Copy the initialized-data image from its source to its live range.
    startup_copy_data(arena, data_src, data_dst, data_len);

    // Zero the uninitialized-data range.
    startup_zero_bss(arena, bss_start, bss_len);
}

} // verus!
