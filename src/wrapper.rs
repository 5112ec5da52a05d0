//! Cell headers and the wrapper through which one cell reaches another's.
//!
//! A cell places a header at its header slot: its role signature, the init
//! routine it binds, and its exported payload. Another cell holds that header
//! only through a [`CellWrapper`]. Before anything of the header is used, the
//! wrapper checks the signature against the expected role and then calls the
//! header's init routine with the structural hash it expects; the routine,
//! running in the other cell's image, compares that hash with its own and
//! answers. A [`Forward`] wrapper also asks the routine to bring the other
//! cell's memory up. Success is recorded, so the routine is called at most
//! once with success.
//!
//! The wrapper's decisions are verified functions of what the header shows:
//! [`CellWrapper::init_action`] says whether to call the routine and with
//! what, [`CellWrapper::record_init`] takes its answer. The header type itself
//! implements [`Cell`], through which [`CellWrapper::ensure_init`] reads the
//! signature and makes the call.
//!
//! A wrapper changes state only through `&mut self`, so checking the header
//! and recording success are one step that nothing can interleave with; a
//! wrapper shared with interrupt handlers is kept behind a lock that masks
//! interrupts while it is held.

use core::marker::PhantomData;

use vstd::prelude::*;

use crate::meta::{CellDefMeta, CellType};

verus! {

/// Signature that a booted primary cell's header carries.
pub const PRIMARY_SIGNATURE: u32 = 0xbeef_dead;

/// Signature that a booted non-primary cell's header carries.
pub const NON_PRIMARY_SIGNATURE: u32 = 0xdead_beef;

pub open spec fn spec_valid_signature(role: CellType) -> u32 {
    match role {
        CellType::Primary => PRIMARY_SIGNATURE,
        CellType::NonPrimary => NON_PRIMARY_SIGNATURE,
    }
}

/// The signature a header of a cell with `role` must carry.
pub fn valid_signature(role: CellType) -> (r: u32)
    ensures
        r == spec_valid_signature(role),
{
    match role {
        CellType::Primary => PRIMARY_SIGNATURE,
        CellType::NonPrimary => NON_PRIMARY_SIGNATURE,
    }
}

/// What the init routine a cell binds into its header decides: it holds the
/// structural hash the cell was compiled with, and the cell's role (a primary
/// cell owns the reset path and never brings its memory up on request). The
/// routine itself runs in the cell's own image, and brings the memory up when
/// the decision says so.
#[derive(Clone, Copy, Debug)]
pub struct InitRoutine {
    pub own_hash: [u8; 32],
    pub role: CellType,
}

/// An init routine's decision: whether the caller's hash is accepted, and
/// whether the cell is to bring its memory up now.
#[derive(Clone, Copy, Debug, PartialEq, Eq, Structural)]
pub struct InitOutcome {
    pub accepted: bool,
    pub bring_up: bool,
}

/// Byte-wise equality of two hashes.
pub fn hash_eq(a: &[u8; 32], b: &[u8; 32]) -> (r: bool)
    ensures
        r == (a@ == b@),
{
    let mut i: usize = 0;
    while i < 32
        invariant
            i <= 32,
            a@.len() == 32,
            b@.len() == 32,
            forall|j: int| 0 <= j < i ==> a@[j] == b@[j],
        decreases 32 - i,
    {
        if a[i] != b[i] {
            return false;
        }
        i = i + 1;
    }
    assert(a@ =~= b@);
    true
}

impl InitRoutine {
    /// The routine bound into `cell`'s own header: it accepts exactly the
    /// structural hash the registry lists for the cell.
    pub fn for_cell(cell: &CellDefMeta) -> (r: Self)
        ensures
            r.own_hash@ == cell.struct_sha256@,
            r.role == cell.cell_type,
    {
        InitRoutine { own_hash: cell.struct_sha256, role: cell.cell_type }
    }

    pub open spec fn spec_run(&self, known_hash: Seq<u8>, init_memory: bool) -> InitOutcome {
        let accepted = known_hash == self.own_hash@;
        InitOutcome {
            accepted,
            bring_up: accepted && init_memory && self.role == CellType::NonPrimary,
        }
    }

    /// Compares the caller's view of this cell's header shape with the cell's
    /// own; on a match, and where asked to, a non-primary cell is to bring its
    /// memory up.
    pub fn run(&self, known_hash: &[u8; 32], init_memory: bool) -> (r: InitOutcome)
        ensures
            r == self.spec_run(known_hash@, init_memory),
    {
        if !hash_eq(known_hash, &self.own_hash) {
            return InitOutcome { accepted: false, bring_up: false };
        }
        let bring_up = init_memory && self.role == CellType::NonPrimary;
        InitOutcome { accepted: true, bring_up }
    }
}

/// A cell's header as other cells reach it. Each cell's header type
/// implements it: `signature` reads the header's signature field, and `init`
/// calls the init routine the header binds, which answers whether it accepts
/// `known_hash` as its own structural hash (and, asked by `init_memory`,
/// brings its cell's memory up). The routine runs in the other cell's image,
/// so nothing is promised of its answer.
pub trait Cell {
    fn signature(&self) -> u32;

    fn init(&self, known_hash: [u8; 32], init_memory: bool) -> bool;
}

/// Whether a wrapper holds a real foreign header or a test double.
#[derive(Clone, Copy, Debug, PartialEq, Eq, Structural)]
pub enum HeaderType {
    Actual,
    Dummy,
}

/// Where a wrapper stands in its life.
#[derive(Clone, Copy, Debug, PartialEq, Eq, Structural)]
pub enum InitState {
    /// Not validated yet, or every validation so far failed.
    Uninit,
    /// Validated; never reverts.
    Init,
    /// A test double: never validated, always usable.
    Dummy,
}

/// Marks a wrapper that asks the referenced cell to bring its memory up when
/// it first validates it.
pub struct Forward;

/// Marks a wrapper that only checks compatibility, for a cell that brought
/// itself up (such as the cell that called this one).
pub struct Backward;

/// The direction of a wrapper, as a type.
pub trait Direction {
    spec fn spec_brings_up() -> bool;

    fn brings_up() -> (r: bool)
        ensures
            r == Self::spec_brings_up(),
    ;
}

impl Direction for Forward {
    open spec fn spec_brings_up() -> bool {
        true
    }

    fn brings_up() -> (r: bool) {
        true
    }
}

impl Direction for Backward {
    open spec fn spec_brings_up() -> bool {
        false
    }

    fn brings_up() -> (r: bool) {
        false
    }
}

/// The call to make to a header's init routine.
#[derive(Clone, Copy, Debug)]
pub struct InitRequest {
    /// The structural hash the caller expects of the header.
    pub known_hash: [u8; 32],
    /// Whether the routine is to bring its cell's memory up.
    pub init_memory: bool,
}

/// What validating a wrapper's header needs next.
#[derive(Clone, Copy, Debug)]
pub enum InitAction {
    /// Validated already, or a test double: nothing to do.
    Done,
    /// The signature is not the expected role's: validation fails, and the
    /// header's init routine is not to be called.
    Reject,
    /// Call the header's init routine with this request, and record its answer.
    Call(InitRequest),
}

/// What a wrapper is, for contracts.
pub struct WrapperView<H> {
    pub header: H,
    pub expected_role: CellType,
    pub expected_hash: [u8; 32],
    pub state: InitState,
    /// How many accepted calls of the header's init routine asked it to bring
    /// its cell's memory up.
    pub bring_up_requests: nat,
}

impl<H> WrapperView<H> {
    /// Validated, or a test double: the header may be used.
    pub open spec fn is_ready(self) -> bool {
        self.state != InitState::Uninit
    }

    /// What validation needs next, for a header showing `signature`, in a
    /// wrapper that asks for bring-up when `brings_up`.
    pub open spec fn action(self, signature: u32, brings_up: bool) -> InitAction {
        if self.is_ready() {
            InitAction::Done
        } else if signature != spec_valid_signature(self.expected_role) {
            InitAction::Reject
        } else {
            InitAction::Call(InitRequest { known_hash: self.expected_hash, init_memory: brings_up })
        }
    }

    /// The result and the wrapper after the init routine answered `accepted`
    /// to a call that asked for bring-up when `brings_up`.
    pub open spec fn after_answer(self, accepted: bool, brings_up: bool) -> (Option<()>, WrapperView<H>) {
        if !accepted {
            (None, self)
        } else {
            (
                Some(()),
                WrapperView {
                    state: InitState::Init,
                    bring_up_requests: self.bring_up_requests + if brings_up {
                        1nat
                    } else {
                        0nat
                    },
                    ..self
                },
            )
        }
    }

    /// The result of `ensure_init` and the wrapper after it, where the header
    /// shows `signature` and its init routine, if called, answers `accepted`.
    pub open spec fn init_step(self, signature: u32, accepted: bool, brings_up: bool) -> (
        Option<()>,
        WrapperView<H>,
    ) {
        match self.action(signature, brings_up) {
            InitAction::Done => (Some(()), self),
            InitAction::Reject => (None, self),
            InitAction::Call(_) => self.after_answer(accepted, brings_up),
        }
    }
}

/// A cell's own init routine accepts the hash the registry lists for the cell.
pub proof fn lemma_own_routine_accepts(cell: CellDefMeta, routine: InitRoutine, init_memory: bool)
    requires
        routine.own_hash@ == cell.struct_sha256@,
    ensures
        routine.spec_run(cell.struct_sha256@, init_memory).accepted,
{
}

/// A header whose signature is not the expected role's fails validation
/// whatever its init routine would answer, its routine is not called, and the
/// wrapper stays as it was.
pub proof fn lemma_wrong_signature_fails<H>(
    v: WrapperView<H>,
    signature: u32,
    accepted: bool,
    brings_up: bool,
)
    requires
        v.state == InitState::Uninit,
        signature != spec_valid_signature(v.expected_role),
    ensures
        v.action(signature, brings_up) is Reject,
        v.init_step(signature, accepted, brings_up) == (None::<()>, v),
{
}

/// A header with the right signature whose cell's routine holds another
/// structural hash than the expected one fails validation, and so does every
/// retry after it.
pub proof fn lemma_hash_mismatch_fails_again<H>(
    v: WrapperView<H>,
    routine: InitRoutine,
    brings_up: bool,
)
    requires
        v.state == InitState::Uninit,
        routine.own_hash@ != v.expected_hash@,
    ensures
        ({
            let sig = spec_valid_signature(v.expected_role);
            let answer = routine.spec_run(v.expected_hash@, brings_up);
            &&& !answer.accepted
            &&& !answer.bring_up
            &&& v.init_step(sig, answer.accepted, brings_up) == (None::<()>, v)
            &&& v.init_step(sig, answer.accepted, brings_up).1.init_step(
                sig,
                answer.accepted,
                brings_up,
            ) == v.init_step(sig, answer.accepted, brings_up)
        }),
{
}

/// Two calls of `ensure_init` on a forward wrapper, the first of which
/// validates, both succeed; across them the header's init routine is asked to
/// bring its cell's memory up, and accepts, exactly once. The second call
/// does not reach the header at all.
pub proof fn lemma_forward_requests_bring_up_once<H>(
    v: WrapperView<H>,
    signature1: u32,
    signature2: u32,
    accepted2: bool,
)
    requires
        v.state == InitState::Uninit,
        signature1 == spec_valid_signature(v.expected_role),
    ensures
        ({
            let (r1, v1) = v.init_step(signature1, true, Forward::spec_brings_up());
            let (r2, v2) = v1.init_step(signature2, accepted2, Forward::spec_brings_up());
            &&& v.action(signature1, Forward::spec_brings_up()) == InitAction::Call(
                InitRequest { known_hash: v.expected_hash, init_memory: true },
            )
            &&& r1 is Some
            &&& v1.action(signature2, Forward::spec_brings_up()) is Done
            &&& r2 is Some
            &&& v2 == v1
            &&& v2.state == InitState::Init
            &&& v2.bring_up_requests == v.bring_up_requests + 1
        }),
{
}

/// A non-primary cell's init routine, called with its own hash and asked for
/// bring-up, brings its memory up; without the request, or with another
/// hash, it does not. A primary cell's routine never does.
pub proof fn lemma_routine_brings_up_on_request(routine: InitRoutine, known_hash: Seq<u8>, init_memory: bool)
    ensures
        routine.spec_run(known_hash, init_memory).bring_up <==> known_hash == routine.own_hash@
            && init_memory && routine.role == CellType::NonPrimary,
{
}

/// A backward wrapper never asks for bring-up.
pub proof fn lemma_backward_never_requests_bring_up<H>(
    v: WrapperView<H>,
    signature: u32,
    accepted: bool,
)
    ensures
        v.init_step(signature, accepted, Backward::spec_brings_up()).1.bring_up_requests
            == v.bring_up_requests,
{
}

/// A test double is never validated, its header's routine is never called,
/// and it is always ready for use.
pub proof fn lemma_dummy_always_ready<H>(
    v: WrapperView<H>,
    signature: u32,
    accepted: bool,
    brings_up: bool,
)
    requires
        v.state == InitState::Dummy,
    ensures
        v.action(signature, brings_up) is Done,
        v.init_step(signature, accepted, brings_up) == (Some(()), v),
        v.is_ready(),
{
}

/// A handle on another cell's header of type `H`. `K` is [`Forward`] or
/// [`Backward`].
pub struct CellWrapper<'a, H, K> {
    header: &'a H,
    expected_role: CellType,
    expected_hash: [u8; 32],
    header_type: HeaderType,
    is_init: bool,
    bring_up_requests: u32,
    _direction: PhantomData<K>,
}

impl<'a, H, K> View for CellWrapper<'a, H, K> {
    type V = WrapperView<H>;

    closed spec fn view(&self) -> WrapperView<H> {
        WrapperView {
            header: *self.header,
            expected_role: self.expected_role,
            expected_hash: self.expected_hash,
            state: if self.header_type == HeaderType::Dummy {
                InitState::Dummy
            } else if self.is_init {
                InitState::Init
            } else {
                InitState::Uninit
            },
            bring_up_requests: self.bring_up_requests as nat,
        }
    }
}

impl<'a, H, K> CellWrapper<'a, H, K> {
    #[verifier::type_invariant]
    closed spec fn inv(&self) -> bool {
        &&& self.bring_up_requests <= 1
        &&& self.bring_up_requests == 1 ==> self.is_init
        &&& self.header_type == HeaderType::Dummy ==> self.is_init && self.bring_up_requests == 0
    }
}

impl<'a, H, K: Direction> CellWrapper<'a, H, K> {
    /// Wraps `header`, the header slot of `cell`, without checking it yet.
    pub fn new_uninit(header: &'a H, cell: &CellDefMeta) -> (r: Self)
        ensures
            r@ == (WrapperView {
                header: *header,
                expected_role: cell.cell_type,
                expected_hash: cell.struct_sha256,
                state: InitState::Uninit,
                bring_up_requests: 0,
            }),
    {
        CellWrapper {
            header,
            expected_role: cell.cell_type,
            expected_hash: cell.struct_sha256,
            header_type: HeaderType::Actual,
            is_init: false,
            bring_up_requests: 0,
            _direction: PhantomData,
        }
    }

    /// Wraps `dummy_header` as a test double standing in for `cell`: it is
    /// never validated and its init routine is never called.
    pub fn new_dummy(dummy_header: &'a H, cell: &CellDefMeta) -> (r: Self)
        ensures
            r@ == (WrapperView {
                header: *dummy_header,
                expected_role: cell.cell_type,
                expected_hash: cell.struct_sha256,
                state: InitState::Dummy,
                bring_up_requests: 0,
            }),
    {
        CellWrapper {
            header: dummy_header,
            expected_role: cell.cell_type,
            expected_hash: cell.struct_sha256,
            header_type: HeaderType::Dummy,
            is_init: true,
            bring_up_requests: 0,
            _direction: PhantomData,
        }
    }

    /// What validating the header needs next, where it shows `signature`.
    pub fn init_action(&self, signature: u32) -> (r: InitAction)
        ensures
            r == self@.action(signature, K::spec_brings_up()),
    {
        proof {
            use_type_invariant(self);
        }
        if self.is_init {
            return InitAction::Done;
        }
        if signature != valid_signature(self.expected_role) {
            return InitAction::Reject;
        }
        InitAction::Call(InitRequest { known_hash: self.expected_hash, init_memory: K::brings_up() })
    }

    /// Records the answer of the header's init routine to the call that
    /// [`init_action`](Self::init_action) asked for: an accepting answer
    /// validates the wrapper for good, a refusing one leaves it as it was.
    pub fn record_init(&mut self, accepted: bool) -> (r: Option<()>)
        requires
            old(self)@.state == InitState::Uninit,
        ensures
            (r, final(self)@) == old(self)@.after_answer(accepted, K::spec_brings_up()),
    {
        proof {
            use_type_invariant(&*self);
        }
        if !accepted {
            return None;
        }
        self.is_init = true;
        if K::brings_up() {
            self.bring_up_requests = self.bring_up_requests + 1;
        }
        Some(())
    }

    /// Validates the header now if it was not yet: checks its signature and,
    /// where that is the expected role's, calls its init routine and records
    /// the answer. A wrapper that is ready returns at once without reaching
    /// the header. Once validation has succeeded it is never run again; a
    /// failed one leaves the wrapper as it was, so the call may be retried.
    pub fn ensure_init(&mut self) -> (r: Option<()>)
        where
            H: Cell,
        ensures
            exists|signature: u32, accepted: bool|
                (r, final(self)@) == #[trigger] old(self)@.init_step(
                    signature,
                    accepted,
                    K::spec_brings_up(),
                ),
            old(self)@.is_ready() ==> r is Some && final(self)@ == old(self)@,
            r is None ==> final(self)@ == old(self)@,
            r is Some <==> final(self)@.is_ready(),
    {
        if self.is_ready() {
            assert(old(self)@.init_step(0, true, K::spec_brings_up()) == (Some(()), self@));
            return Some(());
        }
        let signature = self.header.signature();
        match self.init_action(signature) {
            InitAction::Done => {
                assert(old(self)@.init_step(signature, true, K::spec_brings_up()) == (
                    Some(()),
                    self@,
                ));
                Some(())
            },
            InitAction::Reject => {
                assert(old(self)@.init_step(signature, true, K::spec_brings_up()) == (
                    None::<()>,
                    self@,
                ));
                None
            },
            InitAction::Call(req) => {
                let accepted = self.header.init(req.known_hash, req.init_memory);
                let r = self.record_init(accepted);
                assert(old(self)@.init_step(signature, accepted, K::spec_brings_up()) == (
                    r,
                    self@,
                ));
                r
            },
        }
    }

    /// Wraps `header`, the header slot of `cell`, validating it at once:
    /// `None` where it does not validate.
    pub fn new_init(header: &'a H, cell: &CellDefMeta) -> (r: Option<Self>)
        where
            H: Cell,
        ensures
            ({
                let v = WrapperView {
                    header: *header,
                    expected_role: cell.cell_type,
                    expected_hash: cell.struct_sha256,
                    state: InitState::Uninit,
                    bring_up_requests: 0,
                };
                match r {
                    Some(w) => exists|signature: u32|
                        #[trigger] v.init_step(signature, true, K::spec_brings_up()) == (
                            Some(()),
                            w@,
                        ),
                    None => exists|signature: u32, accepted: bool|
                        (#[trigger] v.init_step(signature, accepted, K::spec_brings_up())).0 is None,
                }
            }),
    {
        let mut w = Self::new_uninit(header, cell);
        match w.ensure_init() {
            Some(()) => Some(w),
            None => None,
        }
    }

    /// Whether this wrapper is a test double.
    pub fn is_dummy(&self) -> (r: bool)
        ensures
            r == (self@.state == InitState::Dummy),
    {
        self.header_type == HeaderType::Dummy
    }

    /// Whether the header may be used: validated, or a test double.
    pub fn is_ready(&self) -> (r: bool)
        ensures
            r == self@.is_ready(),
    {
        proof {
            use_type_invariant(self);
        }
        self.is_init
    }

    /// How many accepted calls of the header's init routine asked it to bring
    /// its cell's memory up: at most one.
    pub fn bring_up_requests(&self) -> (r: u32)
        ensures
            r == self@.bring_up_requests,
            r <= 1,
    {
        proof {
            use_type_invariant(self);
        }
        self.bring_up_requests
    }

    /// The header, once the wrapper is ready.
    pub fn header(&self) -> (r: &'a H)
        requires
            self@.is_ready(),
        ensures
            *r == self@.header,
    {
        self.header
    }
}

} // verus!
