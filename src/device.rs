//! Bringing a cell's memory up: zero its uninitialized data and copy its
//! initialized data from the load image to where it runs.

use vstd::prelude::*;

verus! {

/// The boundaries the linker gives a cell's image: `.bss` is
/// `[sbss, ebss)`, `.data` runs at `[sdata, edata)` and is loaded at `sidata`.
#[derive(Clone, Copy, Debug)]
pub struct MemorySections {
    pub sbss: usize,
    pub ebss: usize,
    pub sdata: usize,
    pub edata: usize,
    pub sidata: usize,
}

/// What bring-up does: zero `zero_len` bytes at `zero_start`, then copy
/// `copy_len` bytes from `copy_src` to `copy_dst`.
#[derive(Clone, Copy, Debug, PartialEq, Eq, Structural)]
pub struct InitPlan {
    pub zero_start: usize,
    pub zero_len: usize,
    pub copy_src: usize,
    pub copy_dst: usize,
    pub copy_len: usize,
}

impl MemorySections {
    /// The plan for these sections, or `None` where a section ends before it
    /// starts or the load image would run past the address space.
    pub fn plan(&self) -> (r: Option<InitPlan>)
        ensures
            r is Some <==> self.sbss <= self.ebss && self.sdata <= self.edata && self.sidata + (
            self.edata - self.sdata) <= usize::MAX,
            r is Some ==> r->Some_0 == (InitPlan {
                zero_start: self.sbss,
                zero_len: (self.ebss - self.sbss) as usize,
                copy_src: self.sidata,
                copy_dst: self.sdata,
                copy_len: (self.edata - self.sdata) as usize,
            }),
    {
        if self.ebss < self.sbss || self.edata < self.sdata {
            return None;
        }
        let copy_len = self.edata - self.sdata;
        if copy_len > usize::MAX - self.sidata {
            return None;
        }
        Some(
            InitPlan {
                zero_start: self.sbss,
                zero_len: self.ebss - self.sbss,
                copy_src: self.sidata,
                copy_dst: self.sdata,
                copy_len,
            },
        )
    }
}

/// The byte at offset `k` of memory starting at `base` after `plan` ran over
/// `before`, with `image` the bytes found at the plan's source.
pub open spec fn after_init(before: Seq<u8>, base: int, plan: InitPlan, image: Seq<u8>, k: int) -> u8 {
    let a = base + k;
    if plan.copy_dst <= a < plan.copy_dst + plan.copy_len {
        image[a - plan.copy_dst]
    } else if plan.zero_start <= a < plan.zero_start + plan.zero_len {
        0
    } else {
        before[k]
    }
}

/// Runs `plan` over `ram`, the memory from address `base` on: zeroes the
/// uninitialized section, then copies `image`, the initialized section's
/// load image, to where it runs.
pub fn init_memory_in(ram: &mut [u8], base: usize, plan: &InitPlan, image: &[u8])
    requires
        base <= plan.zero_start,
        plan.zero_start - base + plan.zero_len <= old(ram)@.len(),
        base <= plan.copy_dst,
        plan.copy_dst - base + plan.copy_len <= old(ram)@.len(),
        image@.len() == plan.copy_len,
    ensures
        final(ram)@.len() == old(ram)@.len(),
        forall|k: int|
            0 <= k < old(ram)@.len() ==> #[trigger] final(ram)@[k] == after_init(
                old(ram)@,
                base as int,
                *plan,
                image@,
                k,
            ),
{
    let ghost before = ram@;
    let n = ram.len();
    let zero_off = plan.zero_start - base;
    let mut i: usize = 0;
    while i < plan.zero_len
        invariant
            i <= plan.zero_len,
            zero_off == plan.zero_start - base,
            zero_off + plan.zero_len <= before.len(),
            ram@.len() == before.len(),
            forall|k: int|
                0 <= k < before.len() ==> #[trigger] ram@[k] == if zero_off <= k < zero_off + i {
                    0u8
                } else {
                    before[k]
                },
        decreases plan.zero_len - i,
    {
        ram[zero_off + i] = 0;
        i = i + 1;
    }
    let ghost zeroed = ram@;
    let copy_off = plan.copy_dst - base;
    let mut j: usize = 0;
    while j < plan.copy_len
        invariant
            j <= plan.copy_len,
            copy_off == plan.copy_dst - base,
            copy_off + plan.copy_len <= before.len(),
            image@.len() == plan.copy_len,
            n == before.len(),
            ram@.len() == before.len(),
            zeroed.len() == before.len(),
            forall|k: int|
                0 <= k < before.len() ==> #[trigger] ram@[k] == if copy_off <= k < copy_off + j {
                    image@[k - copy_off]
                } else {
                    zeroed[k]
                },
        decreases plan.copy_len - j,
    {
        ram[copy_off + j] = image[j];
        j = j + 1;
    }
}

} // verus!
