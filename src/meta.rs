//! Device configuration and the registry of cells.

use vstd::prelude::*;
use vstd::utf8::encode_utf8;

use crate::hash::{layout_text, sha256_of, structural_hash, HeaderField};

verus! {

/// The role a cell plays in its constellation.
#[derive(Clone, Copy, Debug, PartialEq, Eq, Structural)]
pub enum CellType {
    /// The cell that owns the reset vector; exactly one per constellation.
    Primary,
    NonPrimary,
}

/// Device-wide constants shared by every cell of a constellation.
#[derive(Clone, Copy, Debug)]
pub struct DeviceConfigMeta {
    pub initial_stack_ptr: usize,
    pub ram_range_start: usize,
    pub ram_range_end: usize,
    pub flash_range_start: usize,
    pub flash_range_end: usize,
}

/// One cell: its name, role, windows (as offsets into the device's ranges)
/// and the structural hash of its header.
#[derive(Clone, Copy, Debug)]
pub struct CellDefMeta {
    pub name: &'static str,
    pub cell_type: CellType,
    pub ram_range_start_offs: usize,
    pub ram_range_end_offs: usize,
    pub flash_range_start_offs: usize,
    pub flash_range_end_offs: usize,
    pub struct_sha256: [u8; 32],
}

/// The registry: every cell of the constellation, in a fixed order, and the
/// device configuration.
#[derive(Clone, Copy, Debug)]
pub struct CellDefsMeta<const N: usize> {
    pub device_configuration: DeviceConfigMeta,
    pub cell_defs: [CellDefMeta; N],
}

impl CellDefMeta {
    /// Describes a cell from its configuration: its name and role, its
    /// windows as offsets into the device's ranges, and its header's declared
    /// fields, whose structural hash the description carries.
    pub fn new(
        name: &'static str,
        cell_type: CellType,
        ram_region: (usize, usize),
        flash_region: (usize, usize),
        header_fields: &[HeaderField],
    ) -> (r: Self)
        ensures
            r.name == name,
            r.cell_type == cell_type,
            r.ram_range_start_offs == ram_region.0,
            r.ram_range_end_offs == ram_region.1,
            r.flash_range_start_offs == flash_region.0,
            r.flash_range_end_offs == flash_region.1,
            r.struct_sha256@ == sha256_of(encode_utf8(layout_text(header_fields@))),
    {
        CellDefMeta {
            name,
            cell_type,
            ram_range_start_offs: ram_region.0,
            ram_range_end_offs: ram_region.1,
            flash_range_start_offs: flash_region.0,
            flash_range_end_offs: flash_region.1,
            struct_sha256: structural_hash(header_fields),
        }
    }

    pub open spec fn ram_start_spec(&self, d: &DeviceConfigMeta) -> int {
        d.ram_range_start + self.ram_range_start_offs
    }

    pub open spec fn ram_end_spec(&self, d: &DeviceConfigMeta) -> int {
        d.ram_range_start + self.ram_range_end_offs
    }

    pub open spec fn flash_start_spec(&self, d: &DeviceConfigMeta) -> int {
        d.flash_range_start + self.flash_range_start_offs
    }

    pub open spec fn flash_end_spec(&self, d: &DeviceConfigMeta) -> int {
        d.flash_range_start + self.flash_range_end_offs
    }

    pub fn absolute_ram_start(&self, device_config_meta: &DeviceConfigMeta) -> (r: usize)
        requires
            self.ram_start_spec(device_config_meta) <= usize::MAX,
        ensures
            r == self.ram_start_spec(device_config_meta),
    {
        device_config_meta.ram_range_start + self.ram_range_start_offs
    }

    pub fn absolute_ram_end(&self, device_config_meta: &DeviceConfigMeta) -> (r: usize)
        requires
            self.ram_end_spec(device_config_meta) <= usize::MAX,
        ensures
            r == self.ram_end_spec(device_config_meta),
    {
        device_config_meta.ram_range_start + self.ram_range_end_offs
    }

    pub fn absolute_flash_start(&self, device_config_meta: &DeviceConfigMeta) -> (r: usize)
        requires
            self.flash_start_spec(device_config_meta) <= usize::MAX,
        ensures
            r == self.flash_start_spec(device_config_meta),
    {
        device_config_meta.flash_range_start + self.flash_range_start_offs
    }

    pub fn absolute_flash_end(&self, device_config_meta: &DeviceConfigMeta) -> (r: usize)
        requires
            self.flash_end_spec(device_config_meta) <= usize::MAX,
        ensures
            r == self.flash_end_spec(device_config_meta),
    {
        device_config_meta.flash_range_start + self.flash_range_end_offs
    }
}

/// A registry that cannot stand as a constellation's configuration.
#[derive(Clone, Copy, Debug, PartialEq, Eq, Structural)]
pub enum ConfigError {
    /// No cell of the registry bears the requested name.
    NotFound,
    /// A window ends before it starts, or reaches past the device's range.
    InvalidRegion,
    /// A flash window has no room for a body beside its header slot.
    HeaderTooLarge,
    /// No cell has the primary role.
    NoPrimary,
    /// More than one cell has the primary role.
    MultiplePrimary,
    /// Two cells bear the same name.
    DuplicateName,
    /// Two cells' flash windows overlap.
    FlashOverlap,
    /// Two cells' RAM windows overlap.
    RamOverlap,
}

/// Half-open intervals `[s1, e1)` and `[s2, e2)` share no address.
pub open spec fn ranges_disjoint(s1: int, e1: int, s2: int, e2: int) -> bool {
    e1 <= s2 || e2 <= s1
}

/// Number of primary cells in `s`.
pub open spec fn primary_count(s: Seq<CellDefMeta>) -> nat
    decreases s.len(),
{
    if s.len() == 0 {
        0
    } else {
        primary_count(s.drop_last()) + if s.last().cell_type == CellType::Primary {
            1nat
        } else {
            0nat
        }
    }
}

/// A sequence with one primary cell has an index holding it, and every other
/// index holds a non-primary cell.
pub proof fn lemma_single_primary(s: Seq<CellDefMeta>)
    requires
        primary_count(s) == 1,
    ensures
        exists|p: int|
            0 <= p < s.len() && s[p].cell_type == CellType::Primary && forall|q: int|
                0 <= q < s.len() && q != p ==> #[trigger] s[q].cell_type == CellType::NonPrimary,
    decreases s.len(),
{
    let t = s.drop_last();
    if s.last().cell_type == CellType::Primary {
        lemma_no_primary(t);
        let p = s.len() - 1;
        assert forall|q: int| 0 <= q < s.len() && q != p implies #[trigger] s[q].cell_type
            == CellType::NonPrimary by {
            assert(t[q] == s[q]);
        }
    } else {
        lemma_single_primary(t);
        let p = choose|p: int|
            0 <= p < t.len() && t[p].cell_type == CellType::Primary && forall|q: int|
                0 <= q < t.len() && q != p ==> #[trigger] t[q].cell_type == CellType::NonPrimary;
        assert(s[p] == t[p]);
        assert forall|q: int| 0 <= q < s.len() && q != p implies #[trigger] s[q].cell_type
            == CellType::NonPrimary by {
            if q < t.len() {
                assert(t[q] == s[q]);
            }
        }
    }
}

/// A sequence with no primary cell holds only non-primary cells.
pub proof fn lemma_no_primary(s: Seq<CellDefMeta>)
    requires
        primary_count(s) == 0,
    ensures
        forall|q: int| 0 <= q < s.len() ==> #[trigger] s[q].cell_type == CellType::NonPrimary,
    decreases s.len(),
{
    if s.len() > 0 {
        let t = s.drop_last();
        lemma_no_primary(t);
        assert forall|q: int| 0 <= q < s.len() implies #[trigger] s[q].cell_type
            == CellType::NonPrimary by {
            if q < t.len() {
                assert(t[q] == s[q]);
            }
        }
    }
}

/// Whether two strings hold the same characters.
pub fn str_eq(a: &str, b: &str) -> (r: bool)
    ensures
        r == (a@ == b@),
{
    let n = a.unicode_len();
    if n != b.unicode_len() {
        return false;
    }
    let mut i: usize = 0;
    while i < n
        invariant
            n == a@.len(),
            n == b@.len(),
            i <= n,
            forall|j: int| 0 <= j < i ==> a@[j] == b@[j],
        decreases n - i,
    {
        if a.get_char(i) != b.get_char(i) {
            return false;
        }
        i = i + 1;
    }
    assert(a@ =~= b@);
    true
}

impl<const N: usize> CellDefsMeta<N> {
    /// Both windows of cell `i` are ordered and lie inside the device's ranges.
    pub open spec fn region_valid(&self, i: int) -> bool {
        let c = self.cell_defs[i];
        let d = self.device_configuration;
        &&& c.ram_range_start_offs <= c.ram_range_end_offs
        &&& c.flash_range_start_offs <= c.flash_range_end_offs
        &&& d.ram_range_start + c.ram_range_end_offs <= d.ram_range_end
        &&& d.flash_range_start + c.flash_range_end_offs <= d.flash_range_end
    }

    /// Cell `i`'s flash window is longer than a header slot of `header_size`.
    pub open spec fn header_fits(&self, i: int, header_size: int) -> bool {
        let c = self.cell_defs[i];
        header_size < c.flash_range_end_offs - c.flash_range_start_offs
    }

    pub open spec fn flash_disjoint(&self, i: int, j: int) -> bool {
        let d = self.device_configuration;
        ranges_disjoint(
            self.cell_defs[i].flash_start_spec(&d),
            self.cell_defs[i].flash_end_spec(&d),
            self.cell_defs[j].flash_start_spec(&d),
            self.cell_defs[j].flash_end_spec(&d),
        )
    }

    pub open spec fn ram_disjoint(&self, i: int, j: int) -> bool {
        let d = self.device_configuration;
        ranges_disjoint(
            self.cell_defs[i].ram_start_spec(&d),
            self.cell_defs[i].ram_end_spec(&d),
            self.cell_defs[j].ram_start_spec(&d),
            self.cell_defs[j].ram_end_spec(&d),
        )
    }

    pub open spec fn all_regions_valid(&self) -> bool {
        forall|i: int| 0 <= i < N ==> #[trigger] self.region_valid(i)
    }

    pub open spec fn all_headers_fit(&self, header_size: int) -> bool {
        forall|i: int| 0 <= i < N ==> #[trigger] self.header_fits(i, header_size)
    }

    pub open spec fn names_unique(&self) -> bool {
        forall|i: int, j: int|
            0 <= i < N && 0 <= j < N && i != j ==> #[trigger] self.cell_defs[i].name@
                != #[trigger] self.cell_defs[j].name@
    }

    pub open spec fn all_flash_disjoint(&self) -> bool {
        forall|i: int, j: int| 0 <= i < N && 0 <= j < N && i != j ==> #[trigger] self.flash_disjoint(i, j)
    }

    pub open spec fn all_ram_disjoint(&self) -> bool {
        forall|i: int, j: int| 0 <= i < N && 0 <= j < N && i != j ==> #[trigger] self.ram_disjoint(i, j)
    }

    /// What checking the registry yields: the first failed check, in this order.
    pub open spec fn validation(&self, header_size: int) -> Result<(), ConfigError> {
        if !self.all_regions_valid() {
            Err(ConfigError::InvalidRegion)
        } else if !self.all_headers_fit(header_size) {
            Err(ConfigError::HeaderTooLarge)
        } else if primary_count(self.cell_defs@) == 0 {
            Err(ConfigError::NoPrimary)
        } else if primary_count(self.cell_defs@) > 1 {
            Err(ConfigError::MultiplePrimary)
        } else if !self.names_unique() {
            Err(ConfigError::DuplicateName)
        } else if !self.all_flash_disjoint() {
            Err(ConfigError::FlashOverlap)
        } else if !self.all_ram_disjoint() {
            Err(ConfigError::RamOverlap)
        } else {
            Ok(())
        }
    }

    /// The registry passes every check with header slots of `header_size`.
    pub open spec fn valid(&self, header_size: int) -> bool {
        self.validation(header_size) is Ok
    }

    fn check_regions(&self) -> (r: bool)
        ensures
            r == self.all_regions_valid(),
    {
        let d = &self.device_configuration;
        let mut i: usize = 0;
        while i < N
            invariant
                i <= N,
                d == &self.device_configuration,
                forall|j: int| 0 <= j < i ==> #[trigger] self.region_valid(j),
            decreases N - i,
        {
            let c = &self.cell_defs[i];
            if c.ram_range_start_offs > c.ram_range_end_offs
                || c.flash_range_start_offs > c.flash_range_end_offs
                || d.ram_range_start > d.ram_range_end
                || c.ram_range_end_offs > d.ram_range_end - d.ram_range_start
                || d.flash_range_start > d.flash_range_end
                || c.flash_range_end_offs > d.flash_range_end - d.flash_range_start
            {
                assert(!self.region_valid(i as int));
                return false;
            }
            i = i + 1;
        }
        true
    }

    fn check_headers(&self, header_size: usize) -> (r: bool)
        requires
            self.all_regions_valid(),
        ensures
            r == self.all_headers_fit(header_size as int),
    {
        let mut i: usize = 0;
        while i < N
            invariant
                i <= N,
                self.all_regions_valid(),
                forall|j: int| 0 <= j < i ==> #[trigger] self.header_fits(j, header_size as int),
            decreases N - i,
        {
            let c = &self.cell_defs[i];
            assert(self.region_valid(i as int));
            if header_size >= c.flash_range_end_offs - c.flash_range_start_offs {
                assert(!self.header_fits(i as int, header_size as int));
                return false;
            }
            i = i + 1;
        }
        true
    }

    fn count_primaries(&self) -> (r: usize)
        ensures
            r == primary_count(self.cell_defs@),
    {
        let mut count: usize = 0;
        let mut i: usize = 0;
        while i < N
            invariant
                i <= N,
                count <= i,
                count == primary_count(self.cell_defs@.take(i as int)),
            decreases N - i,
        {
            assert(self.cell_defs@.take(i + 1).drop_last() =~= self.cell_defs@.take(i as int));
            if self.cell_defs[i].cell_type == CellType::Primary {
                count = count + 1;
            }
            i = i + 1;
        }
        assert(self.cell_defs@.take(N as int) =~= self.cell_defs@);
        count
    }

    fn check_names_unique(&self) -> (r: bool)
        ensures
            r == self.names_unique(),
    {
        let mut i: usize = 0;
        while i < N
            invariant
                i <= N,
                forall|a: int, b: int|
                    0 <= a < i && 0 <= b < N && a != b ==> #[trigger] self.cell_defs[a].name@
                        != #[trigger] self.cell_defs[b].name@,
            decreases N - i,
        {
            let mut j: usize = 0;
            while j < N
                invariant
                    i < N,
                    j <= N,
                    forall|a: int, b: int|
                        0 <= a < i && 0 <= b < N && a != b ==> #[trigger] self.cell_defs[a].name@
                            != #[trigger] self.cell_defs[b].name@,
                    forall|b: int|
                        0 <= b < j && b != i ==> self.cell_defs[i as int].name@
                            != #[trigger] self.cell_defs[b].name@,
                decreases N - j,
            {
                if j != i && str_eq(self.cell_defs[i].name, self.cell_defs[j].name) {
                    return false;
                }
                j = j + 1;
            }
            i = i + 1;
        }
        true
    }

    fn check_flash_disjoint(&self) -> (r: bool)
        requires
            self.all_regions_valid(),
        ensures
            r == self.all_flash_disjoint(),
    {
        let mut i: usize = 0;
        while i < N
            invariant
                i <= N,
                self.all_regions_valid(),
                forall|a: int, b: int|
                    0 <= a < i && 0 <= b < N && a != b ==> #[trigger] self.flash_disjoint(a, b),
            decreases N - i,
        {
            let mut j: usize = 0;
            while j < N
                invariant
                    i < N,
                    j <= N,
                    self.all_regions_valid(),
                    forall|a: int, b: int|
                        0 <= a < i && 0 <= b < N && a != b ==> #[trigger] self.flash_disjoint(a, b),
                    forall|b: int| 0 <= b < j && b != i ==> #[trigger] self.flash_disjoint(i as int, b),
                decreases N - j,
            {
                let a = &self.cell_defs[i];
                let b = &self.cell_defs[j];
                if j != i && !(a.flash_range_end_offs <= b.flash_range_start_offs
                    || b.flash_range_end_offs <= a.flash_range_start_offs) {
                    assert(!self.flash_disjoint(i as int, j as int));
                    return false;
                }
                j = j + 1;
            }
            i = i + 1;
        }
        true
    }

    fn check_ram_disjoint(&self) -> (r: bool)
        requires
            self.all_regions_valid(),
        ensures
            r == self.all_ram_disjoint(),
    {
        let mut i: usize = 0;
        while i < N
            invariant
                i <= N,
                self.all_regions_valid(),
                forall|a: int, b: int|
                    0 <= a < i && 0 <= b < N && a != b ==> #[trigger] self.ram_disjoint(a, b),
            decreases N - i,
        {
            let mut j: usize = 0;
            while j < N
                invariant
                    i < N,
                    j <= N,
                    self.all_regions_valid(),
                    forall|a: int, b: int|
                        0 <= a < i && 0 <= b < N && a != b ==> #[trigger] self.ram_disjoint(a, b),
                    forall|b: int| 0 <= b < j && b != i ==> #[trigger] self.ram_disjoint(i as int, b),
                decreases N - j,
            {
                let a = &self.cell_defs[i];
                let b = &self.cell_defs[j];
                if j != i && !(a.ram_range_end_offs <= b.ram_range_start_offs
                    || b.ram_range_end_offs <= a.ram_range_start_offs) {
                    assert(!self.ram_disjoint(i as int, j as int));
                    return false;
                }
                j = j + 1;
            }
            i = i + 1;
        }
        true
    }

    /// Checks the registry as a constellation's configuration, with header
    /// slots of `header_size` bytes. A valid registry has exactly one primary
    /// cell, and any two of its cells have disjoint flash windows and
    /// disjoint RAM windows.
    pub fn validate(&self, header_size: usize) -> (r: Result<(), ConfigError>)
        ensures
            r == self.validation(header_size as int),
            r is Ok ==> exists|p: int|
                0 <= p < N && self.cell_defs[p].cell_type == CellType::Primary && forall|q: int|
                    0 <= q < N && q != p ==> #[trigger] self.cell_defs[q].cell_type
                        == CellType::NonPrimary,
            r is Ok ==> forall|i: int, j: int|
                0 <= i < N && 0 <= j < N && i != j ==> #[trigger] self.flash_disjoint(i, j),
            r is Ok ==> forall|i: int, j: int|
                0 <= i < N && 0 <= j < N && i != j ==> #[trigger] self.ram_disjoint(i, j),
    {
        if !self.check_regions() {
            return Err(ConfigError::InvalidRegion);
        }
        if !self.check_headers(header_size) {
            return Err(ConfigError::HeaderTooLarge);
        }
        let primaries = self.count_primaries();
        if primaries == 0 {
            return Err(ConfigError::NoPrimary);
        }
        if primaries > 1 {
            return Err(ConfigError::MultiplePrimary);
        }
        if !self.check_names_unique() {
            return Err(ConfigError::DuplicateName);
        }
        if !self.check_flash_disjoint() {
            return Err(ConfigError::FlashOverlap);
        }
        if !self.check_ram_disjoint() {
            return Err(ConfigError::RamOverlap);
        }
        proof {
            lemma_single_primary(self.cell_defs@);
            assert forall|i: int, j: int| 0 <= i < N && 0 <= j < N && i != j implies
                self.flash_disjoint(i, j) && self.ram_disjoint(i, j) by {}
        }
        Ok(())
    }

    /// Index of the first cell named `cell_name`, or `None` where the registry
    /// lists no such cell.
    pub fn index_of(&self, cell_name: &str) -> (r: Option<usize>)
        ensures
            match r {
                Some(i) => i < N && self.cell_defs[i as int].name@ == cell_name@ && forall|j: int|
                    0 <= j < i ==> #[trigger] self.cell_defs[j].name@ != cell_name@,
                None => forall|i: int| 0 <= i < N ==> #[trigger] self.cell_defs[i].name@ != cell_name@,
            },
    {
        let mut i: usize = 0;
        while i < N
            invariant
                i <= N,
                forall|j: int| 0 <= j < i ==> #[trigger] self.cell_defs[j].name@ != cell_name@,
            decreases N - i,
        {
            if str_eq(self.cell_defs[i].name, cell_name) {
                return Some(i);
            }
            i = i + 1;
        }
        None
    }

    /// Looks a cell up by name: the first cell with that name, or `None`
    /// where the registry lists no such cell.
    pub fn for_cell(&self, cell_name: &str) -> (r: Option<&CellDefMeta>)
        ensures
            match r {
                Some(c) => exists|i: int|
                    0 <= i < N && self.cell_defs[i] == *c && c.name@ == cell_name@ && forall|j: int|
                        0 <= j < i ==> #[trigger] self.cell_defs[j].name@ != cell_name@,
                None => forall|i: int| 0 <= i < N ==> #[trigger] self.cell_defs[i].name@ != cell_name@,
            },
    {
        match self.index_of(cell_name) {
            Some(i) => Some(&self.cell_defs[i]),
            None => None,
        }
    }
}

} // verus!
