use emcell::critical_section::CriticalSectionState;
use emcell::device::{init_memory_in, InitPlan, MemorySections};

#[test]
fn plan_from_sections() {
    let s = MemorySections { sbss: 0x100, ebss: 0x140, sdata: 0x80, edata: 0x90, sidata: 0x4000 };
    assert_eq!(s.plan(), Some(InitPlan {
        zero_start: 0x100,
        zero_len: 0x40,
        copy_src: 0x4000,
        copy_dst: 0x80,
        copy_len: 0x10,
    }));
}

#[test]
fn plan_rejects_reversed_sections() {
    let s = MemorySections { sbss: 0x140, ebss: 0x100, sdata: 0x80, edata: 0x90, sidata: 0x4000 };
    assert_eq!(s.plan(), None);
    let s = MemorySections { sbss: 0x100, ebss: 0x100, sdata: 0x90, edata: 0x80, sidata: 0x4000 };
    assert_eq!(s.plan(), None);
    let s = MemorySections { sbss: 0, ebss: 0, sdata: 0, edata: 2, sidata: usize::MAX - 1 };
    assert_eq!(s.plan(), None);
}

#[test]
fn empty_sections_change_nothing() {
    let s = MemorySections { sbss: 8, ebss: 8, sdata: 4, edata: 4, sidata: 0 };
    let plan = s.plan().unwrap();
    let mut ram = vec![9u8; 16];
    init_memory_in(&mut ram, 0, &plan, &[]);
    assert_eq!(ram, vec![9u8; 16]);
}

#[test]
fn bring_up_zeroes_bss_and_copies_data() {
    let s = MemorySections { sbss: 0x1008, ebss: 0x100C, sdata: 0x1002, edata: 0x1005, sidata: 0x8000 };
    let plan = s.plan().unwrap();
    let mut ram = vec![0xAAu8; 16];
    init_memory_in(&mut ram, 0x1000, &plan, &[1, 2, 3]);
    assert_eq!(ram, vec![
        0xAA, 0xAA, 1, 2, 3, 0xAA, 0xAA, 0xAA, 0, 0, 0, 0, 0xAA, 0xAA, 0xAA, 0xAA,
    ]);
}

#[test]
fn nested_critical_sections_restore_previous_state() {
    let mut cs = CriticalSectionState::new();
    assert!(cs.interrupts_enabled);
    let outer = cs.acquire();
    assert!(outer);
    assert!(!cs.interrupts_enabled);
    let inner = cs.acquire();
    assert!(!inner);
    assert_eq!(cs.depth, 2);
    assert!(!cs.release(inner));
    assert!(!cs.interrupts_enabled);
    assert!(cs.release(outer));
    assert!(cs.interrupts_enabled);
    assert_eq!(cs, CriticalSectionState::new());
}

#[test]
fn section_entered_with_interrupts_masked_keeps_them_masked() {
    let mut cs = CriticalSectionState { interrupts_enabled: false, depth: 0 };
    let r = cs.acquire();
    assert!(!r);
    assert!(!cs.release(r));
    assert!(!cs.interrupts_enabled);
    assert_eq!(cs.depth, 0);
}
