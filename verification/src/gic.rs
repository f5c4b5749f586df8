use vstd::prelude::*;
use vstd::pervasive::VecAdditionalExecFns;

verus! {

/// Interrupt line id of the virtual timer (a private peripheral interrupt).
pub const INTR_CNTV: u32 = 27;

/// Low bits of the "current interrupt" register that carry the pending
/// line id.
pub const IAR_LINE_MASK: u32 = 0x3FF;

/// One bit per line in the line-indexed distributor registers for lines
/// 27 through 31: the contiguous block of private peripheral interrupt
/// lines configured at startup, which contains the virtual-timer line.
pub const PPI_BLOCK_MASK: u32 = (1u32 << 27) | (1u32 << 28) | (1u32 << 29) | (1u32 << 30) | (1u32
    << 31);

/// Index of the priority word holding lines 24 through 27; the byte for
/// line 27, the virtual-timer line, is its most significant one.
pub const PRIO_WORD_LINES_24_27: usize = 6;

/// Index of the priority word holding lines 28 through 31.
pub const PRIO_WORD_LINES_28_31: usize = 7;

/// The priority bytes of lines 24 through 26 inside their word: lines
/// outside the configured block, whose priorities must never be disturbed.
pub const PRIO_LINES_24_26_MASK: u32 = 0x00FF_FFFF;

/// Group-0 and group-1 delivery enable bits of the two control registers.
pub const CTLR_BOTH_GROUPS: u32 = 3;

/// Priority-mask value that admits interrupts of every priority.
pub const PMR_ADMIT_ALL: u32 = 0xFF;

/// Register state of the interrupt controller.
///
/// Distributor side: `igroupr0` assigns each of lines 0 through 31 to a
/// delivery group (one bit per line); `ipriorityr` holds the eight priority
/// words for those lines (four priority bytes per word, 0 is the highest
/// priority); `isenabler0` records which of the lines are enabled — the
/// hardware register is write-one-to-enable, so a store to it turns bits on
/// and never off; `dist_ctlr` is the distributor control register.
///
/// Processor-interface side: `pmr` is the priority-admission threshold and
/// `cpu_ctlr` the interface control register.
///
/// `eoir_writes` models the write-only end-of-interrupt register as the
/// stream of values written to it, oldest first.
pub struct Gic {
    pub igroupr0: u32,
    pub ipriorityr: Vec<u32>,
    pub isenabler0: u32,
    pub dist_ctlr: u32,
    pub pmr: u32,
    pub cpu_ctlr: u32,
    pub eoir_writes: Vec<u32>,
}

/// The controller models the full priority bank for lines 0 through 31:
/// eight words of four priority bytes each.
pub open spec fn gic_wf(g: Gic) -> bool {
    g.ipriorityr@.len() == 8
}

/// The controller state established by `gic_init`: the private peripheral
/// block is group-assigned, at highest priority (its priority bytes all
/// zero) and enabled, both delivery groups are on at the distributor and
/// the processor interface, and the admission threshold admits every
/// priority. Lines outside the block are not constrained.
pub open spec fn gic_configured(g: Gic) -> bool {
    &&& g.igroupr0 & PPI_BLOCK_MASK == PPI_BLOCK_MASK
    &&& g.ipriorityr@.len() == 8
    &&& g.ipriorityr@[PRIO_WORD_LINES_24_27 as int] & !PRIO_LINES_24_26_MASK == 0
    &&& g.ipriorityr@[PRIO_WORD_LINES_28_31 as int] == 0
    &&& g.isenabler0 & PPI_BLOCK_MASK == PPI_BLOCK_MASK
    &&& g.dist_ctlr == CTLR_BOTH_GROUPS
    &&& g.pmr == PMR_ADMIT_ALL
    &&& g.cpu_ctlr == CTLR_BOTH_GROUPS
}

/// The two states hold the same configuration registers; only the
/// end-of-interrupt stream may differ.
pub open spec fn gic_config_eq(a: Gic, b: Gic) -> bool {
    &&& a.igroupr0 == b.igroupr0
    &&& a.ipriorityr@ == b.ipriorityr@
    &&& a.isenabler0 == b.isenabler0
    &&& a.dist_ctlr == b.dist_ctlr
    &&& a.pmr == b.pmr
    &&& a.cpu_ctlr == b.cpu_ctlr
}

/// Configure the interrupt controller so that the private peripheral block
/// holding the virtual-timer line becomes deliverable: assign the block to
/// its delivery group with an or-only read-modify-write that leaves every
/// other line's assignment untouched, set the block's priority bytes to the
/// highest priority (numerically lowest) while preserving the priority of
/// every line outside the block, enable the block's lines, open the
/// admission threshold, and enable both delivery groups on the distributor
/// and the processor interface. Configuring one line never disturbs
/// another: every update is a read-modify-write, never a blind overwrite.
/// No end-of-interrupt write is made.
pub fn gic_init(g: &mut Gic)
    requires
        gic_wf(*old(g)),
    ensures
        final(g).igroupr0 == old(g).igroupr0 | PPI_BLOCK_MASK,
        final(g).igroupr0 & !PPI_BLOCK_MASK == old(g).igroupr0 & !PPI_BLOCK_MASK,
        final(g).ipriorityr@.len() == 8,
        forall|i: int|
            0 <= i < PRIO_WORD_LINES_24_27 ==> final(g).ipriorityr@[i] == old(g).ipriorityr@[i],
        final(g).ipriorityr@[PRIO_WORD_LINES_24_27 as int] == old(g).ipriorityr@[
            PRIO_WORD_LINES_24_27 as int
        ] & PRIO_LINES_24_26_MASK,
        final(g).ipriorityr@[PRIO_WORD_LINES_28_31 as int] == 0,
        final(g).isenabler0 == old(g).isenabler0 | PPI_BLOCK_MASK,
        final(g).isenabler0 & !PPI_BLOCK_MASK == old(g).isenabler0 & !PPI_BLOCK_MASK,
        final(g).dist_ctlr == CTLR_BOTH_GROUPS,
        final(g).pmr == PMR_ADMIT_ALL,
        final(g).cpu_ctlr == CTLR_BOTH_GROUPS,
        final(g).eoir_writes@ == old(g).eoir_writes@,
        gic_configured(*final(g)),
{
    g.igroupr0 = g.igroupr0 | PPI_BLOCK_MASK;
    let w: u32 = g.ipriorityr[PRIO_WORD_LINES_24_27];
    g.ipriorityr.set(PRIO_WORD_LINES_24_27, w & PRIO_LINES_24_26_MASK);
    g.ipriorityr.set(PRIO_WORD_LINES_28_31, 0);
    g.isenabler0 = g.isenabler0 | PPI_BLOCK_MASK;
    g.dist_ctlr = CTLR_BOTH_GROUPS;
    g.pmr = PMR_ADMIT_ALL;
    g.cpu_ctlr = CTLR_BOTH_GROUPS;
    proof {
        let x = old(g).igroupr0;
        let y = old(g).isenabler0;
        assert((x | PPI_BLOCK_MASK) & PPI_BLOCK_MASK == PPI_BLOCK_MASK) by (bit_vector);
        assert((x | PPI_BLOCK_MASK) & !PPI_BLOCK_MASK == x & !PPI_BLOCK_MASK) by (bit_vector);
        assert((y | PPI_BLOCK_MASK) & PPI_BLOCK_MASK == PPI_BLOCK_MASK) by (bit_vector);
        assert((y | PPI_BLOCK_MASK) & !PPI_BLOCK_MASK == y & !PPI_BLOCK_MASK) by (bit_vector);
        assert((w & PRIO_LINES_24_26_MASK) & !PRIO_LINES_24_26_MASK == 0) by (bit_vector);
    }
}

} // verus!
