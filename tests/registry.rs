use emcell::hash::{layout_description, structural_hash, HeaderField};
use emcell::meta::{CellDefMeta, CellDefsMeta, CellType, ConfigError, DeviceConfigMeta};
use emcell::partition::{PartitionedFlashRegion, HEADER_SIZE};

fn device() -> DeviceConfigMeta {
    DeviceConfigMeta {
        initial_stack_ptr: 0x800,
        ram_range_start: 0,
        ram_range_end: 0x800,
        flash_range_start: 0,
        flash_range_end: 0x2000,
    }
}

fn cell(name: &'static str, role: CellType, ram: (usize, usize), flash: (usize, usize)) -> CellDefMeta {
    CellDefMeta::new(name, role, ram, flash, &[HeaderField { name: "a", ty: "u32" }])
}

fn two_cells() -> CellDefsMeta<2> {
    CellDefsMeta {
        device_configuration: device(),
        cell_defs: [
            cell("A", CellType::Primary, (0, 0x400), (0, 0x1000)),
            cell("B", CellType::NonPrimary, (0x400, 0x800), (0x1000, 0x2000)),
        ],
    }
}

#[test]
fn absolute_addresses_add_device_bases() {
    let d = DeviceConfigMeta {
        initial_stack_ptr: 0x2000_6000,
        ram_range_start: 0x2000_0000,
        ram_range_end: 0x2003_8000,
        flash_range_start: 0x0800_0000,
        flash_range_end: 0x0810_0000,
    };
    let c = cell("Cell2", CellType::NonPrimary, (0x6400, 0x2_8000), (0x1000, 0x9_0000));
    assert_eq!(c.absolute_ram_start(&d), 0x2000_6400);
    assert_eq!(c.absolute_ram_end(&d), 0x2002_8000);
    assert_eq!(c.absolute_flash_start(&d), 0x0800_1000);
    assert_eq!(c.absolute_flash_end(&d), 0x0809_0000);
}

#[test]
fn lookup_by_name() {
    let reg = two_cells();
    let b = reg.for_cell("B").unwrap();
    assert_eq!(b.name, "B");
    assert_eq!(b.flash_range_start_offs, 0x1000);
    assert!(reg.for_cell("C").is_none());
    assert_eq!(reg.index_of("A"), Some(0));
    assert_eq!(reg.index_of("B"), Some(1));
    assert_eq!(reg.index_of(""), None);
}

#[test]
fn valid_registry_passes() {
    let reg = two_cells();
    assert_eq!(reg.validate(0x100), Ok(()));
    let primaries = reg.cell_defs.iter().filter(|c| c.cell_type == CellType::Primary).count();
    assert_eq!(primaries, 1);
}

#[test]
fn registry_without_primary_is_rejected() {
    let mut reg = two_cells();
    reg.cell_defs[0].cell_type = CellType::NonPrimary;
    assert_eq!(reg.validate(0x100), Err(ConfigError::NoPrimary));
}

#[test]
fn registry_with_two_primaries_is_rejected() {
    let mut reg = two_cells();
    reg.cell_defs[1].cell_type = CellType::Primary;
    assert_eq!(reg.validate(0x100), Err(ConfigError::MultiplePrimary));
}

#[test]
fn overlapping_flash_windows_are_rejected() {
    let mut reg = two_cells();
    reg.cell_defs[1].flash_range_start_offs = 0xFFF;
    assert_eq!(reg.validate(0x100), Err(ConfigError::FlashOverlap));
}

#[test]
fn overlapping_ram_windows_are_rejected() {
    let mut reg = two_cells();
    reg.cell_defs[0].ram_range_end_offs = 0x401;
    assert_eq!(reg.validate(0x100), Err(ConfigError::RamOverlap));
}

#[test]
fn adjacent_windows_do_not_overlap() {
    let reg = two_cells();
    let d = reg.device_configuration;
    let a = &reg.cell_defs[0];
    let b = &reg.cell_defs[1];
    assert_eq!(a.absolute_flash_end(&d), b.absolute_flash_start(&d));
    assert_eq!(a.absolute_ram_end(&d), b.absolute_ram_start(&d));
    assert_eq!(reg.validate(0x100), Ok(()));
}

#[test]
fn duplicate_names_are_rejected() {
    let mut reg = two_cells();
    reg.cell_defs[1].name = "A";
    assert_eq!(reg.validate(0x100), Err(ConfigError::DuplicateName));
}

#[test]
fn header_as_large_as_window_is_rejected() {
    let reg = two_cells();
    assert_eq!(reg.validate(0x1000), Err(ConfigError::HeaderTooLarge));
    assert_eq!(reg.validate(0xFFF), Ok(()));
}

#[test]
fn window_outside_device_is_rejected() {
    let mut reg = two_cells();
    reg.cell_defs[1].flash_range_end_offs = 0x2001;
    assert_eq!(reg.validate(0x100), Err(ConfigError::InvalidRegion));
    let mut reg = two_cells();
    reg.cell_defs[0].ram_range_start_offs = 0x500;
    assert_eq!(reg.validate(0x100), Err(ConfigError::InvalidRegion));
}

#[test]
fn empty_registry_has_no_primary() {
    let reg: CellDefsMeta<0> = CellDefsMeta { device_configuration: device(), cell_defs: [] };
    assert_eq!(reg.validate(0x100), Err(ConfigError::NoPrimary));
}

#[test]
fn structural_hash_is_sha256_of_layout_text() {
    let fields = [
        HeaderField { name: "a", ty: "u32" },
        HeaderField { name: "print_some_value", ty: "fn(u32)" },
    ];
    assert_eq!(layout_description(&fields), "a:u32;print_some_value:fn(u32);");
    let expected: [u8; 32] = [
        14, 134, 54, 189, 111, 49, 105, 126, 233, 144, 92, 38, 193, 181, 92, 60, 200, 255, 100,
        191, 219, 233, 98, 202, 19, 4, 175, 142, 252, 153, 132, 78,
    ];
    assert_eq!(structural_hash(&fields), expected);
    let c = CellDefMeta::new("Cell1", CellType::Primary, (0, 1), (0, 0x1000), &fields);
    assert_eq!(c.struct_sha256, expected);
}

#[test]
fn structural_hash_of_no_fields() {
    let expected: [u8; 32] = [
        227, 176, 196, 66, 152, 252, 28, 20, 154, 251, 244, 200, 153, 111, 185, 36, 39, 174, 65,
        228, 100, 155, 147, 76, 164, 149, 153, 27, 120, 82, 184, 85,
    ];
    assert_eq!(structural_hash(&[]), expected);
}

#[test]
fn structural_hash_tells_layouts_apart() {
    let one = [HeaderField { name: "a", ty: "u32" }];
    let other = [HeaderField { name: "a", ty: "u16" }];
    assert_ne!(structural_hash(&one), structural_hash(&other));
}

#[test]
fn partition_puts_header_at_window_end() {
    let p = PartitionedFlashRegion::partition(0x1000, 0x2000, 0x100);
    assert_eq!(p.start_flash, 0x1000);
    assert_eq!(p.end_flash, 0x1F00);
    assert_eq!(p.start_header, 0x1F00);
    assert_eq!(p.end_header, 0x2000);
    let q = PartitionedFlashRegion::partition(0, 1, 0);
    assert_eq!((q.start_flash, q.end_flash, q.start_header, q.end_header), (0, 1, 1, 1));
}

#[test]
fn partition_from_cell_uses_header_size() {
    let d = DeviceConfigMeta {
        initial_stack_ptr: 0,
        ram_range_start: 0x2000_0000,
        ram_range_end: 0x2003_8000,
        flash_range_start: 0x0800_0000,
        flash_range_end: 0x0810_0000,
    };
    let c = cell("Cell1", CellType::Primary, (0x6000, 0x6400), (0x0, 0x1000));
    let p = PartitionedFlashRegion::from(&c, &d);
    assert_eq!(HEADER_SIZE, 1024);
    assert_eq!(p.start_flash, 0x0800_0000);
    assert_eq!(p.end_flash, 0x0800_1000 - 1024);
    assert_eq!(p.start_header, 0x0800_0C00);
    assert_eq!(p.end_header, 0x0800_1000);
}
