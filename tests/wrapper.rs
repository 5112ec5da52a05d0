use emcell::hash::HeaderField;
use emcell::meta::{CellDefMeta, CellType};
use emcell::wrapper::{
    valid_signature, Backward, Cell, CellWrapper, Forward, InitAction, InitOutcome, InitRoutine,
    NON_PRIMARY_SIGNATURE, PRIMARY_SIGNATURE,
};

/// A header as a cell would place it: its init routine runs the cell's own
/// decision and counts what it did.
struct TestHeader {
    signature: u32,
    routine: InitRoutine,
    payload: u32,
    init_calls: std::cell::Cell<u32>,
    bring_ups: std::cell::Cell<u32>,
}

impl TestHeader {
    fn for_cell(cell: &CellDefMeta, payload: u32) -> TestHeader {
        TestHeader {
            signature: valid_signature(cell.cell_type),
            routine: InitRoutine::for_cell(cell),
            payload,
            init_calls: std::cell::Cell::new(0),
            bring_ups: std::cell::Cell::new(0),
        }
    }
}

impl Cell for TestHeader {
    fn signature(&self) -> u32 {
        self.signature
    }

    fn init(&self, known_hash: [u8; 32], init_memory: bool) -> bool {
        self.init_calls.set(self.init_calls.get() + 1);
        let out = self.routine.run(&known_hash, init_memory);
        if out.bring_up {
            self.bring_ups.set(self.bring_ups.get() + 1);
        }
        out.accepted
    }
}

fn cell_a() -> CellDefMeta {
    CellDefMeta::new("A", CellType::Primary, (0, 0x400), (0, 0x1000), &[HeaderField { name: "a", ty: "u32" }])
}

fn cell_b() -> CellDefMeta {
    CellDefMeta::new(
        "B",
        CellType::NonPrimary,
        (0x400, 0x800),
        (0x1000, 0x2000),
        &[HeaderField { name: "b", ty: "u32" }, HeaderField { name: "run_some_code", ty: "fn()" }],
    )
}

#[test]
fn signatures_by_role() {
    assert_eq!(valid_signature(CellType::Primary), 0xbeef_dead);
    assert_eq!(valid_signature(CellType::NonPrimary), 0xdead_beef);
    assert_eq!(PRIMARY_SIGNATURE, 0xbeef_dead);
    assert_eq!(NON_PRIMARY_SIGNATURE, 0xdead_beef);
}

#[test]
fn forward_wrapper_brings_up_once() {
    let b = cell_b();
    let h = TestHeader::for_cell(&b, 23);
    let mut w: CellWrapper<TestHeader, Forward> = CellWrapper::new_uninit(&h, &b);
    assert!(!w.is_ready());
    assert_eq!(w.ensure_init(), Some(()));
    assert_eq!(w.ensure_init(), Some(()));
    assert_eq!(h.init_calls.get(), 1);
    assert_eq!(h.bring_ups.get(), 1);
    assert_eq!(w.bring_up_requests(), 1);
    assert!(w.is_ready());
    assert!(!w.is_dummy());
    assert_eq!(w.header().payload, 23);
}

#[test]
fn backward_wrapper_never_brings_up() {
    let b = cell_b();
    let h = TestHeader::for_cell(&b, 23);
    let mut w: CellWrapper<TestHeader, Backward> = CellWrapper::new_uninit(&h, &b);
    assert_eq!(w.ensure_init(), Some(()));
    assert_eq!(h.init_calls.get(), 1);
    assert_eq!(h.bring_ups.get(), 0);
    assert_eq!(w.bring_up_requests(), 0);
    assert!(w.is_ready());
}

#[test]
fn primary_cell_ignores_bring_up_request() {
    let a = cell_a();
    let h = TestHeader::for_cell(&a, 15);
    let w = CellWrapper::<TestHeader, Forward>::new_init(&h, &a).unwrap();
    assert!(w.is_ready());
    assert_eq!(w.bring_up_requests(), 1);
    assert_eq!(h.init_calls.get(), 1);
    assert_eq!(h.bring_ups.get(), 0);
}

#[test]
fn wrong_signature_fails_without_side_effects() {
    let b = cell_b();
    let mut h = TestHeader::for_cell(&b, 23);
    h.signature = 0;
    let mut w: CellWrapper<TestHeader, Forward> = CellWrapper::new_uninit(&h, &b);
    assert!(matches!(w.init_action(0), InitAction::Reject));
    assert_eq!(w.ensure_init(), None);
    assert!(!w.is_ready());
    assert_eq!(w.bring_up_requests(), 0);
    assert!(CellWrapper::<TestHeader, Forward>::new_init(&h, &b).is_none());
    assert_eq!(h.init_calls.get(), 0);
    assert_eq!(h.bring_ups.get(), 0);
}

#[test]
fn role_mismatch_fails() {
    let b = cell_b();
    let h = TestHeader::for_cell(&b, 23);
    let mut pretending = b;
    pretending.cell_type = CellType::Primary;
    let mut w: CellWrapper<TestHeader, Forward> = CellWrapper::new_uninit(&h, &pretending);
    assert_eq!(w.ensure_init(), None);
    assert_eq!(h.init_calls.get(), 0);
}

#[test]
fn hash_mismatch_fails_on_every_retry() {
    let b = cell_b();
    let mut h = TestHeader::for_cell(&b, 23);
    h.routine.own_hash[0] ^= 1;
    let mut w: CellWrapper<TestHeader, Forward> = CellWrapper::new_uninit(&h, &b);
    assert_eq!(w.ensure_init(), None);
    assert!(!w.is_ready());
    assert_eq!(w.ensure_init(), None);
    assert!(!w.is_ready());
    assert_eq!(w.bring_up_requests(), 0);
    assert_eq!(h.init_calls.get(), 2);
    assert_eq!(h.bring_ups.get(), 0);
}

#[test]
fn init_action_asks_for_expected_hash() {
    let b = cell_b();
    let h = TestHeader::for_cell(&b, 23);
    let w: CellWrapper<TestHeader, Forward> = CellWrapper::new_uninit(&h, &b);
    match w.init_action(NON_PRIMARY_SIGNATURE) {
        InitAction::Call(req) => {
            assert_eq!(req.known_hash, b.struct_sha256);
            assert!(req.init_memory);
        }
        _ => panic!("a matching signature asks for the call"),
    }
    let v: CellWrapper<TestHeader, Backward> = CellWrapper::new_uninit(&h, &b);
    match v.init_action(NON_PRIMARY_SIGNATURE) {
        InitAction::Call(req) => assert!(!req.init_memory),
        _ => panic!("a matching signature asks for the call"),
    }
    assert!(matches!(v.init_action(PRIMARY_SIGNATURE), InitAction::Reject));
}

#[test]
fn record_init_keeps_refusals_and_memoizes_success() {
    let b = cell_b();
    let h = TestHeader::for_cell(&b, 23);
    let mut w: CellWrapper<TestHeader, Forward> = CellWrapper::new_uninit(&h, &b);
    assert_eq!(w.record_init(false), None);
    assert!(!w.is_ready());
    assert_eq!(w.bring_up_requests(), 0);
    assert_eq!(w.record_init(true), Some(()));
    assert!(w.is_ready());
    assert_eq!(w.bring_up_requests(), 1);
    assert!(matches!(w.init_action(NON_PRIMARY_SIGNATURE), InitAction::Done));
    assert_eq!(h.init_calls.get(), 0);
}

#[test]
fn dummy_wrapper_is_always_ready() {
    let b = cell_b();
    let mut h = TestHeader::for_cell(&b, 7);
    h.signature = 0;
    let mut w: CellWrapper<TestHeader, Forward> = CellWrapper::new_dummy(&h, &b);
    assert!(w.is_dummy());
    assert!(w.is_ready());
    assert!(matches!(w.init_action(0), InitAction::Done));
    assert_eq!(w.ensure_init(), Some(()));
    assert_eq!(w.bring_up_requests(), 0);
    assert_eq!(w.header().payload, 7);
    assert_eq!(h.init_calls.get(), 0);
    assert_eq!(h.bring_ups.get(), 0);
}

#[test]
fn init_routine_decides_on_hash() {
    let b = cell_b();
    let r = InitRoutine::for_cell(&b);
    assert_eq!(r.run(&b.struct_sha256, true), InitOutcome { accepted: true, bring_up: true });
    assert_eq!(r.run(&b.struct_sha256, false), InitOutcome { accepted: true, bring_up: false });
    let a = cell_a();
    assert_eq!(r.run(&a.struct_sha256, true), InitOutcome { accepted: false, bring_up: false });
    let p = InitRoutine::for_cell(&a);
    assert_eq!(p.run(&a.struct_sha256, true), InitOutcome { accepted: true, bring_up: false });
}

#[test]
fn primary_reaches_second_cell_end_to_end() {
    let a = cell_a();
    let b = cell_b();
    assert_eq!(a.cell_type, CellType::Primary);
    let good = TestHeader::for_cell(&b, 23);
    let mut w: CellWrapper<TestHeader, Forward> = CellWrapper::new_uninit(&good, &b);
    assert_eq!(w.ensure_init(), Some(()));
    assert_eq!(w.ensure_init(), Some(()));
    assert_eq!(good.bring_ups.get(), 1);
    let mut bad = TestHeader::for_cell(&b, 23);
    bad.signature = 0;
    let mut v: CellWrapper<TestHeader, Forward> = CellWrapper::new_uninit(&bad, &b);
    assert_eq!(v.ensure_init(), None);
    assert_eq!(bad.init_calls.get(), 0);
    assert_eq!(bad.bring_ups.get(), 0);
    assert!(!v.is_ready());
}
