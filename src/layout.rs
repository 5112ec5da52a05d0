//! The placement each cell's build hands to the linker.
//!
//! For the current cell the placement holds its flash body, its own header
//! slot and its RAM window; for every other cell of the registry, a
//! placeholder at that cell's header slot, under a symbol derived from the
//! cell's name. Every cell's placement comes from the same registry, so the
//! slot one cell fills is the slot every other cell's placeholder names.

use vstd::prelude::*;

use crate::meta::{CellDefMeta, CellDefsMeta, ConfigError, DeviceConfigMeta};
use crate::partition::PartitionedFlashRegion;

verus! {

/// A memory segment `[origin, origin + length)`.
#[derive(Clone, Copy, Debug, PartialEq, Eq, Structural)]
pub struct MemoryRegion {
    pub origin: usize,
    pub length: usize,
}

/// Another cell's header slot, as the current cell's build declares it.
#[derive(Clone, Copy, Debug)]
pub struct HeaderPlaceholder {
    pub cell_name: &'static str,
    pub region: MemoryRegion,
}

/// The segments of one cell of the registry: its body, header slot and RAM
/// window.
#[derive(Clone, Copy, Debug)]
pub struct CellSegments {
    pub cell_name: &'static str,
    pub flash: MemoryRegion,
    pub header: MemoryRegion,
    pub ram: MemoryRegion,
}

/// The placement of one cell's build.
#[derive(Debug)]
pub struct Placement {
    /// The current cell's body.
    pub flash: MemoryRegion,
    /// The current cell's own header slot.
    pub cur_header: MemoryRegion,
    /// The current cell's RAM window.
    pub ram: MemoryRegion,
    /// The initial stack pointer of the device.
    pub stack_start: usize,
    /// One placeholder per other cell, in registry order.
    pub others: Vec<HeaderPlaceholder>,
    /// Every cell's segments, in registry order, for scripts that name them.
    pub cells: Vec<CellSegments>,
}

/// Cell `i`'s header slot: the last `header_size` bytes of its flash window.
pub open spec fn spec_header_region<const N: usize>(
    reg: &CellDefsMeta<N>,
    i: int,
    header_size: int,
) -> MemoryRegion {
    let d = reg.device_configuration;
    MemoryRegion {
        origin: (reg.cell_defs[i].flash_end_spec(&d) - header_size) as usize,
        length: header_size as usize,
    }
}

/// Cell `i`'s body: its flash window without the header slot.
pub open spec fn spec_body_region<const N: usize>(
    reg: &CellDefsMeta<N>,
    i: int,
    header_size: int,
) -> MemoryRegion {
    let d = reg.device_configuration;
    let c = reg.cell_defs[i];
    MemoryRegion {
        origin: c.flash_start_spec(&d) as usize,
        length: (c.flash_end_spec(&d) - header_size - c.flash_start_spec(&d)) as usize,
    }
}

/// Cell `i`'s RAM window.
pub open spec fn spec_ram_region<const N: usize>(reg: &CellDefsMeta<N>, i: int) -> MemoryRegion {
    let d = reg.device_configuration;
    let c = reg.cell_defs[i];
    MemoryRegion {
        origin: c.ram_start_spec(&d) as usize,
        length: (c.ram_end_spec(&d) - c.ram_start_spec(&d)) as usize,
    }
}

/// Cell `i`'s segments.
pub open spec fn spec_cell_segments<const N: usize>(
    reg: &CellDefsMeta<N>,
    i: int,
    header_size: int,
) -> CellSegments {
    CellSegments {
        cell_name: reg.cell_defs[i].name,
        flash: spec_body_region(reg, i, header_size),
        header: spec_header_region(reg, i, header_size),
        ram: spec_ram_region(reg, i),
    }
}

/// The segments of the first `k` cells of the registry.
pub open spec fn spec_all_segments<const N: usize>(
    reg: &CellDefsMeta<N>,
    header_size: int,
    k: int,
) -> Seq<CellSegments>
    decreases k,
{
    if k <= 0 {
        Seq::empty()
    } else {
        spec_all_segments(reg, header_size, k - 1).push(spec_cell_segments(reg, k - 1, header_size))
    }
}

/// Placeholders for the first `k` cells of the registry, leaving out cell `cur`.
pub open spec fn spec_others<const N: usize>(
    reg: &CellDefsMeta<N>,
    cur: int,
    header_size: int,
    k: int,
) -> Seq<HeaderPlaceholder>
    decreases k,
{
    if k <= 0 {
        Seq::empty()
    } else if k - 1 == cur {
        spec_others(reg, cur, header_size, k - 1)
    } else {
        spec_others(reg, cur, header_size, k - 1).push(
            HeaderPlaceholder {
                cell_name: reg.cell_defs[k - 1].name,
                region: spec_header_region(reg, k - 1, header_size),
            },
        )
    }
}

/// `p` is the placement of cell `cur` of `reg` with header slots of `header_size`.
pub open spec fn is_placement_of<const N: usize>(
    p: &Placement,
    reg: &CellDefsMeta<N>,
    cur: int,
    header_size: int,
) -> bool {
    &&& p.flash == spec_body_region(reg, cur, header_size)
    &&& p.cur_header == spec_header_region(reg, cur, header_size)
    &&& p.ram == spec_ram_region(reg, cur)
    &&& p.stack_start == reg.device_configuration.initial_stack_ptr
    &&& p.others@ == spec_others(reg, cur, header_size, N as int)
    &&& p.cells@ == spec_all_segments(reg, header_size, N as int)
}

fn header_placeholder<const N: usize>(reg: &CellDefsMeta<N>, j: usize, header_size: usize) -> (r:
    HeaderPlaceholder)
    requires
        j < N,
        reg.valid(header_size as int),
    ensures
        r == (HeaderPlaceholder {
            cell_name: reg.cell_defs[j as int].name,
            region: spec_header_region(reg, j as int, header_size as int),
        }),
{
    let c = &reg.cell_defs[j];
    let d = &reg.device_configuration;
    assert(reg.region_valid(j as int));
    assert(reg.header_fits(j as int, header_size as int));
    let part = PartitionedFlashRegion::partition(
        c.absolute_flash_start(d),
        c.absolute_flash_end(d),
        header_size,
    );
    HeaderPlaceholder {
        cell_name: c.name,
        region: MemoryRegion { origin: part.start_header, length: header_size },
    }
}

fn cell_segments<const N: usize>(reg: &CellDefsMeta<N>, j: usize, header_size: usize) -> (r:
    CellSegments)
    requires
        j < N,
        reg.valid(header_size as int),
    ensures
        r == spec_cell_segments(reg, j as int, header_size as int),
{
    let c = &reg.cell_defs[j];
    let d = &reg.device_configuration;
    assert(reg.region_valid(j as int));
    assert(reg.header_fits(j as int, header_size as int));
    let part = PartitionedFlashRegion::partition(
        c.absolute_flash_start(d),
        c.absolute_flash_end(d),
        header_size,
    );
    let ram_start = c.absolute_ram_start(d);
    let ram_end = c.absolute_ram_end(d);
    CellSegments {
        cell_name: c.name,
        flash: MemoryRegion { origin: part.start_flash, length: part.end_flash - part.start_flash },
        header: MemoryRegion { origin: part.start_header, length: header_size },
        ram: MemoryRegion { origin: ram_start, length: ram_end - ram_start },
    }
}

/// The placement of the build of the cell named `cur_name`, with header
/// slots of `header_size` bytes. A registry that fails its checks gives the
/// first failed check's error; one that lists no cell of that name gives
/// `NotFound`.
pub fn placement<const N: usize>(
    registry: &CellDefsMeta<N>,
    cur_name: &str,
    header_size: usize,
) -> (r: Result<Placement, ConfigError>)
    ensures
        registry.validation(header_size as int) is Err ==> r is Err && r->Err_0
            == registry.validation(header_size as int)->Err_0,
        r == Err::<Placement, ConfigError>(ConfigError::NotFound) <==> registry.valid(
            header_size as int,
        ) && forall|i: int| 0 <= i < N ==> #[trigger] registry.cell_defs[i].name@ != cur_name@,
        r is Ok <==> registry.valid(header_size as int) && exists|i: int|
            0 <= i < N && #[trigger] registry.cell_defs[i].name@ == cur_name@,
        r is Ok ==> exists|i: int|
            0 <= i < N && registry.cell_defs[i].name@ == cur_name@ && #[trigger] is_placement_of(
                &r->Ok_0,
                registry,
                i,
                header_size as int,
            ),
{
    match registry.validate(header_size) {
        Err(e) => {
            return Err(e);
        },
        Ok(()) => {},
    }
    let cur = match registry.index_of(cur_name) {
        None => {
            return Err(ConfigError::NotFound);
        },
        Some(i) => i,
    };
    let c = &registry.cell_defs[cur];
    let d = &registry.device_configuration;
    assert(registry.region_valid(cur as int));
    assert(registry.header_fits(cur as int, header_size as int));
    let part = PartitionedFlashRegion::partition(
        c.absolute_flash_start(d),
        c.absolute_flash_end(d),
        header_size,
    );
    let ram_start = c.absolute_ram_start(d);
    let ram_end = c.absolute_ram_end(d);
    let mut others: Vec<HeaderPlaceholder> = Vec::new();
    let mut j: usize = 0;
    while j < N
        invariant
            j <= N,
            cur < N,
            registry.valid(header_size as int),
            others@ == spec_others(registry, cur as int, header_size as int, j as int),
        decreases N - j,
    {
        if j != cur {
            let ph = header_placeholder(registry, j, header_size);
            others.push(ph);
        }
        j = j + 1;
    }
    let mut cells: Vec<CellSegments> = Vec::new();
    let mut k: usize = 0;
    while k < N
        invariant
            k <= N,
            registry.valid(header_size as int),
            cells@ == spec_all_segments(registry, header_size as int, k as int),
        decreases N - k,
    {
        let seg = cell_segments(registry, k, header_size);
        cells.push(seg);
        k = k + 1;
    }
    let p = Placement {
        flash: MemoryRegion { origin: part.start_flash, length: part.end_flash - part.start_flash },
        cur_header: MemoryRegion { origin: part.start_header, length: header_size },
        ram: MemoryRegion { origin: ram_start, length: ram_end - ram_start },
        stack_start: d.initial_stack_ptr,
        others,
        cells,
    };
    let r: Result<Placement, ConfigError> = Ok(p);
    assert(is_placement_of(&r->Ok_0, registry, cur as int, header_size as int));
    r
}

/// Placeholders for the first `k` cells hold one for every cell below `k`
/// other than `cur`.
proof fn lemma_others_holds<const N: usize>(
    reg: &CellDefsMeta<N>,
    cur: int,
    header_size: int,
    k: int,
    b: int,
)
    requires
        0 <= b < k,
        b != cur,
    ensures
        exists|m: int|
            0 <= m < spec_others(reg, cur, header_size, k).len() && #[trigger] spec_others(
                reg,
                cur,
                header_size,
                k,
            )[m] == (HeaderPlaceholder {
                cell_name: reg.cell_defs[b].name,
                region: spec_header_region(reg, b, header_size),
            }),
    decreases k,
{
    let prev = spec_others(reg, cur, header_size, k - 1);
    if b == k - 1 {
        assert(spec_others(reg, cur, header_size, k)[prev.len() as int] == (HeaderPlaceholder {
            cell_name: reg.cell_defs[b].name,
            region: spec_header_region(reg, b, header_size),
        }));
    } else {
        lemma_others_holds(reg, cur, header_size, k - 1, b);
        let m = choose|m: int|
            0 <= m < prev.len() && #[trigger] prev[m] == (HeaderPlaceholder {
                cell_name: reg.cell_defs[b].name,
                region: spec_header_region(reg, b, header_size),
            });
        assert(spec_others(reg, cur, header_size, k)[m] == prev[m]);
    }
}

/// Two cells' placements from one registry agree: the placement of cell `a`
/// holds a placeholder for cell `b` at exactly the header slot that `b`'s own
/// placement fills, under `b`'s name.
pub proof fn lemma_placements_agree<const N: usize>(
    reg: &CellDefsMeta<N>,
    header_size: int,
    a: int,
    b: int,
    pa: &Placement,
    pb: &Placement,
)
    requires
        0 <= a < N,
        0 <= b < N,
        a != b,
        is_placement_of(pa, reg, a, header_size),
        is_placement_of(pb, reg, b, header_size),
    ensures
        exists|m: int|
            0 <= m < pa.others@.len() && (#[trigger] pa.others@[m]).cell_name == reg.cell_defs[b].name
                && pa.others@[m].region == pb.cur_header,
{
    lemma_others_holds(reg, a, header_size, N as int, b);
    let m = choose|m: int|
        0 <= m < spec_others(reg, a, header_size, N as int).len() && #[trigger] spec_others(
            reg,
            a,
            header_size,
            N as int,
        )[m] == (HeaderPlaceholder {
            cell_name: reg.cell_defs[b].name,
            region: spec_header_region(reg, b, header_size),
        });
    assert(pa.others@[m].region == pb.cur_header);
}

/// The character of digit `d` (below 16), upper-case past 9.
pub open spec fn digit_char(d: nat) -> char {
    if d == 0 {
        '0'
    } else if d == 1 {
        '1'
    } else if d == 2 {
        '2'
    } else if d == 3 {
        '3'
    } else if d == 4 {
        '4'
    } else if d == 5 {
        '5'
    } else if d == 6 {
        '6'
    } else if d == 7 {
        '7'
    } else if d == 8 {
        '8'
    } else if d == 9 {
        '9'
    } else if d == 10 {
        'A'
    } else if d == 11 {
        'B'
    } else if d == 12 {
        'C'
    } else if d == 13 {
        'D'
    } else if d == 14 {
        'E'
    } else {
        'F'
    }
}

/// `x` in upper-case hexadecimal digits, without prefix or leading zeros.
pub open spec fn hex_text(x: nat) -> Seq<char>
    decreases x,
{
    if x < 16 {
        seq![digit_char(x)]
    } else {
        hex_text(x / 16).push(digit_char(x % 16))
    }
}

/// `x` in decimal digits, without leading zeros.
pub open spec fn dec_text(x: nat) -> Seq<char>
    decreases x,
{
    if x < 10 {
        seq![digit_char(x)]
    } else {
        dec_text(x / 10).push(digit_char(x % 10))
    }
}

/// The one-character text of digit `d` (below 16).
fn digit_str(d: usize) -> (r: &'static str)
    requires
        d < 16,
    ensures
        r@ =~= seq![digit_char(d as nat)],
{
    if d == 0 {
        proof {
            reveal_strlit("0");
        }
        "0"
    } else if d == 1 {
        proof {
            reveal_strlit("1");
        }
        "1"
    } else if d == 2 {
        proof {
            reveal_strlit("2");
        }
        "2"
    } else if d == 3 {
        proof {
            reveal_strlit("3");
        }
        "3"
    } else if d == 4 {
        proof {
            reveal_strlit("4");
        }
        "4"
    } else if d == 5 {
        proof {
            reveal_strlit("5");
        }
        "5"
    } else if d == 6 {
        proof {
            reveal_strlit("6");
        }
        "6"
    } else if d == 7 {
        proof {
            reveal_strlit("7");
        }
        "7"
    } else if d == 8 {
        proof {
            reveal_strlit("8");
        }
        "8"
    } else if d == 9 {
        proof {
            reveal_strlit("9");
        }
        "9"
    } else if d == 10 {
        proof {
            reveal_strlit("A");
        }
        "A"
    } else if d == 11 {
        proof {
            reveal_strlit("B");
        }
        "B"
    } else if d == 12 {
        proof {
            reveal_strlit("C");
        }
        "C"
    } else if d == 13 {
        proof {
            reveal_strlit("D");
        }
        "D"
    } else if d == 14 {
        proof {
            reveal_strlit("E");
        }
        "E"
    } else {
        proof {
            reveal_strlit("F");
        }
        "F"
    }
}

/// Appends `x` in the digits of `base` (10 or 16): `hex_text` or `dec_text`.
fn append_digits(s: &mut String, x: usize, base: usize)
    requires
        base == 10 || base == 16,
    ensures
        base == 16 ==> final(s)@ == old(s)@ + hex_text(x as nat),
        base == 10 ==> final(s)@ == old(s)@ + dec_text(x as nat),
    decreases x,
{
    let ghost start = s@;
    if x >= base {
        append_digits(s, x / base, base);
    }
    s.append(digit_str(x % base));
    assert(base == 16 ==> s@ =~= start + hex_text(x as nat));
    assert(base == 10 ==> s@ =~= start + dec_text(x as nat));
}

/// The line declaring segment `name` at `region`.
pub open spec fn segment_line(name: Seq<char>, region: MemoryRegion) -> Seq<char> {
    "  "@ + name + " : ORIGIN = 0x"@ + hex_text(region.origin as nat) + ", LENGTH = "@ + dec_text(
        region.length as nat,
    ) + "\n"@
}

/// The lines declaring a cell's segments under its name.
pub open spec fn cell_lines(c: CellSegments) -> Seq<char> {
    segment_line(c.cell_name@ + "_FLASH"@, c.flash) + segment_line(c.cell_name@ + "_HEADER"@, c.header)
        + segment_line(c.cell_name@ + "_RAM"@, c.ram)
}

/// The section binding the symbol through which the current cell reads
/// another cell's header.
pub open spec fn placeholder_section(ph: HeaderPlaceholder) -> Seq<char> {
    "    ."@ + ph.cell_name@ + "_HEADER ORIGIN("@ + ph.cell_name@ + "_HEADER) : {\n        _emcell_"@
        + ph.cell_name@ + "_internal = .;\n    } > "@ + ph.cell_name@ + "_HEADER\n"@
}

pub open spec fn all_cell_lines(cells: Seq<CellSegments>) -> Seq<char>
    decreases cells.len(),
{
    if cells.len() == 0 {
        Seq::empty()
    } else {
        all_cell_lines(cells.drop_last()) + cell_lines(cells.last())
    }
}

pub open spec fn placeholder_sections(others: Seq<HeaderPlaceholder>) -> Seq<char>
    decreases others.len(),
{
    if others.len() == 0 {
        Seq::empty()
    } else {
        placeholder_sections(others.drop_last()) + placeholder_section(others.last())
    }
}

/// The section that keeps the current cell's header in its own slot.
pub open spec fn cur_header_section() -> Seq<char> {
    "    .CUR_HEADER ORIGIN(CUR_HEADER) : {\n        . = ALIGN(4);\n        KEEP(*(.emcell.cur_header))\n        . = ALIGN(4);\n    } > CUR_HEADER\n"@
}

/// The linker script of a placement.
pub open spec fn script_text(p: &Placement) -> Seq<char> {
    "MEMORY {\n"@ + segment_line("FLASH"@, p.flash) + segment_line("CUR_HEADER"@, p.cur_header)
        + segment_line("RAM"@, p.ram) + all_cell_lines(p.cells@) + "}\n\n_stack_start = 0x"@
        + hex_text(p.stack_start as nat) + ";\n\nSECTIONS {\n"@ + cur_header_section()
        + placeholder_sections(p.others@) + "}\n"@
}

fn append_segment(s: &mut String, name: &str, region: MemoryRegion)
    ensures
        final(s)@ == old(s)@ + segment_line(name@, region),
{
    let ghost start = s@;
    s.append("  ");
    s.append(name);
    s.append(" : ORIGIN = 0x");
    append_digits(s, region.origin, 16);
    s.append(", LENGTH = ");
    append_digits(s, region.length, 10);
    s.append("\n");
    assert(s@ =~= start + segment_line(name@, region));
}

fn append_named_segment(s: &mut String, name: &str, suffix: &str, region: MemoryRegion)
    ensures
        final(s)@ == old(s)@ + segment_line(name@ + suffix@, region),
{
    let ghost start = s@;
    s.append("  ");
    s.append(name);
    s.append(suffix);
    s.append(" : ORIGIN = 0x");
    append_digits(s, region.origin, 16);
    s.append(", LENGTH = ");
    append_digits(s, region.length, 10);
    s.append("\n");
    assert(s@ =~= start + segment_line(name@ + suffix@, region));
}

fn append_cell_lines(s: &mut String, c: &CellSegments)
    ensures
        final(s)@ == old(s)@ + cell_lines(*c),
{
    let ghost start = s@;
    append_named_segment(s, c.cell_name, "_FLASH", c.flash);
    append_named_segment(s, c.cell_name, "_HEADER", c.header);
    append_named_segment(s, c.cell_name, "_RAM", c.ram);
    assert(s@ =~= start + cell_lines(*c));
}

fn append_placeholder_section(s: &mut String, ph: &HeaderPlaceholder)
    ensures
        final(s)@ == old(s)@ + placeholder_section(*ph),
{
    let ghost start = s@;
    s.append("    .");
    s.append(ph.cell_name);
    s.append("_HEADER ORIGIN(");
    s.append(ph.cell_name);
    s.append("_HEADER) : {\n        _emcell_");
    s.append(ph.cell_name);
    s.append("_internal = .;\n    } > ");
    s.append(ph.cell_name);
    s.append("_HEADER\n");
    assert(s@ =~= start + placeholder_section(*ph));
}

impl Placement {
    /// The linker script that realizes this placement: the current cell's
    /// segments and every cell's under its name, the initial stack pointer, and the sections that pin the current
    /// cell's header into its slot and bind a symbol at every other cell's.
    pub fn render(&self) -> (r: String)
        ensures
            r@ == script_text(self),
    {
        let mut s = String::new();
        s.append("MEMORY {\n");
        append_segment(&mut s, "FLASH", self.flash);
        append_segment(&mut s, "CUR_HEADER", self.cur_header);
        append_segment(&mut s, "RAM", self.ram);
        let ghost head = s@;
        let mut i: usize = 0;
        while i < self.cells.len()
            invariant
                i <= self.cells@.len(),
                s@ == head + all_cell_lines(self.cells@.take(i as int)),
            decreases self.cells@.len() - i,
        {
            append_cell_lines(&mut s, &self.cells[i]);
            assert(self.cells@.take(i + 1).drop_last() =~= self.cells@.take(i as int));
            assert(s@ =~= head + all_cell_lines(self.cells@.take(i + 1)));
            i = i + 1;
        }
        assert(self.cells@.take(i as int) =~= self.cells@);
        s.append("}\n\n_stack_start = 0x");
        append_digits(&mut s, self.stack_start, 16);
        s.append(";\n\nSECTIONS {\n");
        s.append("    .CUR_HEADER ORIGIN(CUR_HEADER) : {\n        . = ALIGN(4);\n        KEEP(*(.emcell.cur_header))\n        . = ALIGN(4);\n    } > CUR_HEADER\n");
        let ghost mid = s@;
        let mut j: usize = 0;
        while j < self.others.len()
            invariant
                j <= self.others@.len(),
                s@ == mid + placeholder_sections(self.others@.take(j as int)),
            decreases self.others@.len() - j,
        {
            append_placeholder_section(&mut s, &self.others[j]);
            assert(self.others@.take(j + 1).drop_last() =~= self.others@.take(j as int));
            assert(s@ =~= mid + placeholder_sections(self.others@.take(j + 1)));
            j = j + 1;
        }
        assert(self.others@.take(j as int) =~= self.others@);
        s.append("}\n");
        assert(s@ =~= script_text(self));
        s
    }
}

} // verus!
