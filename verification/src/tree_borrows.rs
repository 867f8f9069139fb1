//! Tree Borrows: the policy that decides which permission a retagged pointer
//! receives, and the decisions that the retagging machinery takes around it.
//!
//! What the interpreter knows of types and memory reaches these functions as
//! plain values: whether a type is `Freeze` or `Unpin`, what a memory lookup
//! found, how large an allocation is.
use vstd::prelude::*;

verus! {

/// A pointer tag: the name of one node of a borrow tree.
#[derive(Clone, Copy, PartialEq, Eq, Structural)]
pub struct BorTag {
    pub id: u64,
}

/// The name of an allocation.
#[derive(Clone, Copy, PartialEq, Eq, Structural)]
pub struct AllocId {
    pub id: u64,
}

/// The provenance that a pointer carries, as far as borrow tracking sees it.
#[derive(Clone, Copy, PartialEq, Eq, Structural)]
pub enum ProvenanceExtra {
    Concrete(BorTag),
    Wildcard,
}

/// The provenance of a pointer: an allocation and a tag, or a wildcard.
#[derive(Clone, Copy, PartialEq, Eq, Structural)]
pub enum Provenance {
    Concrete { alloc_id: AllocId, tag: BorTag },
    Wildcard,
}

/// Whether a reference is shared or mutable.
#[derive(Clone, Copy, PartialEq, Eq, Structural)]
pub enum Mutability {
    Mut,
    Not,
}

/// Why a retag happens.
#[derive(Clone, Copy, PartialEq, Eq, Structural)]
pub enum RetagKind {
    FnEntry,
    TwoPhase,
    Raw,
    Default,
}

/// How strongly a tag is protected for the duration of a call.
#[derive(Clone, Copy, PartialEq, Eq, Structural)]
pub enum ProtectorKind {
    WeakProtector,
    StrongProtector,
}

/// Which fields of a value are searched for references to retag.
#[derive(Clone, Copy, PartialEq, Eq, Structural)]
pub enum RetagFields {
    No,
    Yes,
    OnlyScalar,
}

/// What an allocation is.
#[derive(Clone, Copy, PartialEq, Eq, Structural)]
pub enum AllocKind {
    LiveData,
    Function,
    VTable,
    Dead,
}

/// The permission that a new tag starts with.
#[derive(Clone, Copy, PartialEq, Eq, Structural)]
pub enum Permission {
    /// A mutable borrow that has not been written through yet.
    Reserved { ty_is_freeze: bool },
    /// A shared borrow of frozen data.
    Frozen,
}

impl Permission {
    /// The permission of a two-phase mutable borrow.
    pub fn new_unique_2phase(ty_is_freeze: bool) -> (r: Permission)
        ensures
            r == (Permission::Reserved { ty_is_freeze }),
    {
        Permission::Reserved { ty_is_freeze }
    }

    /// The permission of a shared borrow of frozen data.
    pub fn new_frozen() -> (r: Permission)
        ensures
            r == Permission::Frozen,
    {
        Permission::Frozen
    }
}

/// Policy for a new borrow.
#[derive(Clone, Copy, PartialEq, Eq, Structural)]
pub struct NewPermission {
    /// Whether this borrow requires a read access on its parent.
    pub perform_read_access: bool,
    /// Which permission the pointer starts with.
    pub initial_state: Permission,
    /// Whether this pointer is part of the arguments of a function call, and
    /// with which protector.
    pub protector: Option<ProtectorKind>,
}

/// What the policy needs to know of a type.
#[derive(Clone, Copy, PartialEq, Eq, Structural)]
pub struct TypeFacts {
    /// The type holds no interior mutability.
    pub is_freeze: bool,
    /// The type may be moved out of a pinned place.
    pub is_unpin: bool,
}

/// The protector a retag of kind `kind` installs, given the protector that a
/// function-entry retag would use.
pub open spec fn protector_on_entry(kind: RetagKind, p: ProtectorKind) -> Option<ProtectorKind> {
    if kind == RetagKind::FnEntry {
        Some(p)
    } else {
        None
    }
}

/// The policy for a reference to `pointee`: `&mut` to an `Unpin` pointee
/// starts `Reserved`, `&` to a `Freeze` pointee starts `Frozen`; every other
/// reference keeps its parent's tag.
pub open spec fn ref_policy(pointee: TypeFacts, mutability: Mutability, kind: RetagKind) -> Option<
    NewPermission,
> {
    if mutability == Mutability::Mut && pointee.is_unpin {
        Some(
            NewPermission {
                perform_read_access: true,
                initial_state: Permission::Reserved { ty_is_freeze: pointee.is_freeze },
                protector: protector_on_entry(kind, ProtectorKind::StrongProtector),
            },
        )
    } else if mutability == Mutability::Not && pointee.is_freeze {
        Some(
            NewPermission {
                perform_read_access: true,
                initial_state: Permission::Frozen,
                protector: protector_on_entry(kind, ProtectorKind::StrongProtector),
            },
        )
    } else {
        None
    }
}

/// The policy for a box: only a box of an `Unpin` pointee gets a new tag, and
/// its protector is weak, since the box may be deallocated during the call.
pub open spec fn box_policy(box_is_freeze: bool, pointee_is_unpin: bool, kind: RetagKind) -> Option<
    NewPermission,
> {
    if pointee_is_unpin {
        Some(
            NewPermission {
                perform_read_access: true,
                initial_state: Permission::Reserved { ty_is_freeze: box_is_freeze },
                protector: protector_on_entry(kind, ProtectorKind::WeakProtector),
            },
        )
    } else {
        None
    }
}

/// The policy for a box: a box of an `Unpin` pointee is treated as a
/// two-phase `&mut` (a read access, starting `Reserved` with the box type's
/// freezeness), and it is protected exactly when the retag happens on
/// function entry, then only weakly, since the callee may free it; any other
/// retag leaves it unprotected. A box of a pointee that is not `Unpin` keeps
/// its parent's tag.
pub proof fn lemma_box_policy(box_is_freeze: bool, pointee_is_unpin: bool, kind: RetagKind)
    ensures
        box_policy(box_is_freeze, pointee_is_unpin, kind) is Some <==> pointee_is_unpin,
        box_policy(box_is_freeze, pointee_is_unpin, kind) matches Some(p) ==> {
            &&& p.perform_read_access
            &&& p.initial_state == (Permission::Reserved { ty_is_freeze: box_is_freeze })
            &&& (p.protector is Some <==> kind == RetagKind::FnEntry)
            &&& kind == RetagKind::FnEntry ==> p.protector == Some(ProtectorKind::WeakProtector)
            &&& kind != RetagKind::FnEntry ==> p.protector is None
        },
        pointee_is_unpin ==> box_policy(box_is_freeze, pointee_is_unpin, kind).unwrap().initial_state
            == ref_policy(
            TypeFacts { is_freeze: box_is_freeze, is_unpin: true },
            Mutability::Mut,
            kind,
        ).unwrap().initial_state,
{
}

/// The policy for a reference: a `&mut` to an `Unpin` pointee and a `&` to
/// a `Freeze` pointee get a new tag, with a read access, and a strong
/// protector exactly on function entry; other references keep their
/// parent's tag.
pub proof fn lemma_ref_policy(pointee: TypeFacts, mutability: Mutability, kind: RetagKind)
    ensures
        ref_policy(pointee, mutability, kind) is Some <==> (mutability == Mutability::Mut
            && pointee.is_unpin) || (mutability == Mutability::Not && pointee.is_freeze),
        ref_policy(pointee, mutability, kind) matches Some(p) ==> {
            &&& p.perform_read_access
            &&& mutability == Mutability::Mut ==> p.initial_state == (Permission::Reserved {
                ty_is_freeze: pointee.is_freeze,
            })
            &&& mutability == Mutability::Not ==> p.initial_state == Permission::Frozen
            &&& kind == RetagKind::FnEntry ==> p.protector == Some(ProtectorKind::StrongProtector)
            &&& kind != RetagKind::FnEntry ==> p.protector is None
        },
{
}

fn protector_for(kind: RetagKind, p: ProtectorKind) -> (r: Option<ProtectorKind>)
    ensures
        r == protector_on_entry(kind, p),
{
    if kind == RetagKind::FnEntry {
        Some(p)
    } else {
        None
    }
}

impl NewPermission {
    /// Determines the policy of a reference from the type of its pointee.
    pub fn from_ref_ty(pointee: TypeFacts, mutability: Mutability, kind: RetagKind) -> (r: Option<
        NewPermission,
    >)
        ensures
            r == ref_policy(pointee, mutability, kind),
    {
        let initial_state = match mutability {
            Mutability::Mut => {
                if pointee.is_unpin {
                    Permission::new_unique_2phase(pointee.is_freeze)
                } else {
                    return None;
                }
            },
            Mutability::Not => {
                if pointee.is_freeze {
                    Permission::new_frozen()
                } else {
                    return None;
                }
            },
        };
        let perform_read_access = true;
        let protector = protector_for(kind, ProtectorKind::StrongProtector);
        Some(NewPermission { perform_read_access, initial_state, protector })
    }

    /// Determines the policy of a box, from whether the box type is `Freeze`
    /// and whether its pointee is `Unpin`.
    pub fn from_box_ty(box_is_freeze: bool, pointee_is_unpin: bool, kind: RetagKind) -> (r: Option<
        NewPermission,
    >)
        ensures
            r == box_policy(box_is_freeze, pointee_is_unpin, kind),
    {
        if pointee_is_unpin {
            Some(
                NewPermission {
                    perform_read_access: true,
                    initial_state: Permission::new_unique_2phase(box_is_freeze),
                    protector: protector_for(kind, ProtectorKind::WeakProtector),
                },
            )
        } else {
            None
        }
    }

    /// The policy for the return place of a new stack frame: a strongly
    /// protected two-phase borrow of non-frozen data.
    pub fn for_return_place() -> (r: NewPermission)
        ensures
            r == (NewPermission {
                initial_state: Permission::Reserved { ty_is_freeze: false },
                perform_read_access: true,
                protector: Some(ProtectorKind::StrongProtector),
            }),
    {
        NewPermission {
            initial_state: Permission::new_unique_2phase(false),
            perform_read_access: true,
            protector: Some(ProtectorKind::StrongProtector),
        }
    }
}

/// Why the interpreter stops.
pub enum TerminationInfo {
    /// Tree Borrows found undefined behaviour.
    TreeBorrowsUb { msg: String },
}

/// An error of the interpreter.
pub enum InterpError {
    /// The machine stopped the execution.
    MachineStop(TerminationInfo),
}

/// The error that reports undefined behaviour found by Tree Borrows.
pub fn err_tb_ub(msg: String) -> (r: InterpError)
    ensures
        r == InterpError::MachineStop(TerminationInfo::TreeBorrowsUb { msg }),
{
    InterpError::MachineStop(TerminationInfo::TreeBorrowsUb { msg })
}

/// The borrow tree of one allocation.
pub struct Tree {
    root: BorTag,
    size: u64,
}

impl Tree {
    /// The tag of the root of the tree.
    pub closed spec fn root_tag(&self) -> BorTag {
        self.root
    }

    /// The size of the allocation that the tree covers.
    pub closed spec fn alloc_size(&self) -> u64 {
        self.size
    }

    /// A new tree for an allocation of `size` bytes, whose root is `root`.
    pub fn new(root: BorTag, size: u64) -> (r: Tree)
        ensures
            r.root_tag() == root,
            r.alloc_size() == size,
    {
        Tree { root, size }
    }

    /// Marks `tag` as exposed. Exposure is not tracked yet: the tree stays
    /// as it is.
    pub fn expose_tag(&mut self, tag: BorTag)
        ensures
            *final(self) == *old(self),
    {
    }

    /// The tag on whose behalf an access or a deallocation is checked: that
    /// of a concrete provenance; a wildcard pointer is not checked.
    pub fn access_tag(prov: ProvenanceExtra) -> (r: Option<BorTag>)
        ensures
            r == match prov {
                ProvenanceExtra::Concrete(tag) => Some(tag),
                ProvenanceExtra::Wildcard => None,
            },
    {
        match prov {
            ProvenanceExtra::Concrete(tag) => Some(tag),
            ProvenanceExtra::Wildcard => None,
        }
    }
}

/// Whether exposing a tag found in an allocation of kind `kind` touches a
/// borrow tree: only live data has one.
pub fn exposes_in(kind: AllocKind) -> (r: bool)
    ensures
        r == (kind == AllocKind::LiveData),
{
    match kind {
        AllocKind::LiveData => true,
        AllocKind::Function | AllocKind::VTable | AllocKind::Dead => false,
    }
}

/// The tag and allocation that a debug name is given to: those of a concrete
/// provenance; a pointer without one gets no name.
pub fn debug_name_target(prov: Option<Provenance>) -> (r: Option<(BorTag, AllocId)>)
    ensures
        r == match prov {
            Some(Provenance::Concrete { alloc_id, tag }) => Some((tag, alloc_id)),
            _ => None,
        },
{
    match prov {
        Some(Provenance::Concrete { alloc_id, tag }) => Some((tag, alloc_id)),
        _ => None,
    }
}


/// Where a pointer points, as the memory lookup found it.
#[derive(Clone, Copy, PartialEq, Eq, Structural)]
pub struct PointerTarget {
    pub alloc_id: AllocId,
    pub base_offset: u64,
    pub prov: ProvenanceExtra,
}

/// What is known of an allocation.
#[derive(Clone, Copy, PartialEq, Eq, Structural)]
pub struct AllocInfo {
    pub size: u64,
    pub kind: AllocKind,
}

/// Why a reborrow fails.
#[derive(Clone, Copy, PartialEq, Eq, Structural)]
pub enum ReborrowError {
    /// A pointer with a non-zero size has no allocation: the lookup's own
    /// error is passed on.
    NoAllocation,
    /// The reborrowed range does not fit in the allocation.
    /// The offset is given as a signed number of the target's pointer width.
    PointerOutOfBounds { alloc_id: AllocId, alloc_size: u64, ptr_offset: i64, ptr_size: u64 },
}

/// What a reborrow does, in the order in which it is done: log the creation
/// of the new tag (with the location, if there is one), register a
/// protector, count the reborrow as a read access of the parent, record the
/// parent-child pair, and end with an outcome.
pub struct ReborrowPlan {
    /// `None`: the creation is not logged; `Some(loc)`: it is, at `loc`.
    pub log: Option<Option<PointerTarget>>,
    /// The protector to register for the new tag.
    pub protect: Option<ProtectorKind>,
    /// Whether the parent tag performs a read access over the range.
    pub read_access: bool,
    /// The parent tag, the new tag and its permission, to record in the tree.
    pub new_child: Option<(BorTag, BorTag, Permission)>,
    /// The allocation and the tag the pointer ends up with (`None`: it has
    /// no memory to retag in, or stays a wildcard), or the error.
    pub outcome: Result<Option<(AllocId, BorTag)>, ReborrowError>,
}

/// How many distinct values a target pointer of `bits` bits has.
pub open spec fn ptr_range(bits: u32) -> int {
    if bits == 16 {
        0x1_0000
    } else if bits == 32 {
        0x1_0000_0000
    } else {
        0x1_0000_0000_0000_0000
    }
}

/// The target-sized unsigned number `val` read as a signed one of the same
/// width (`bits`): the upper half of the range wraps around to negative
/// numbers.
pub open spec fn usize_as_isize(val: u64, bits: u32) -> int {
    if 2 * val >= ptr_range(bits) {
        val - ptr_range(bits)
    } else {
        val as int
    }
}

/// Reads the target-sized unsigned number `val` as a signed one of the
/// target's pointer width `bits`.
pub fn target_usize_to_isize(val: u64, bits: u32) -> (r: i64)
    requires
        bits == 16 || bits == 32 || bits == 64,
        val < ptr_range(bits),
    ensures
        r == usize_as_isize(val, bits),
{
    if bits == 64 {
        if val > 0x7fff_ffff_ffff_ffff {
            let d: u64 = 0xffff_ffff_ffff_ffff - val;
            -(d as i64) - 1
        } else {
            val as i64
        }
    } else if bits == 32 {
        if val >= 0x8000_0000 {
            val as i64 - 0x1_0000_0000
        } else {
            val as i64
        }
    } else {
        if val >= 0x8000 {
            val as i64 - 0x1_0000
        } else {
            val as i64
        }
    }
}

/// A reborrow that has only a log entry and an outcome.
pub open spec fn plain_plan(
    log: Option<Option<PointerTarget>>,
    outcome: Result<Option<(AllocId, BorTag)>, ReborrowError>,
) -> ReborrowPlan {
    ReborrowPlan { log, protect: None, read_access: false, new_child: None, outcome }
}

/// What a reborrow of `ptr_size` bytes does, on a target whose pointers have
/// `pointer_bits` bits, given what the lookup of the pointer found (`None`:
/// no allocation), what is known of that allocation, the policy for the new
/// pointer and the fresh tag it may get.
pub open spec fn reborrow_spec(
    ptr_size: u64,
    pointer_bits: u32,
    lookup: Option<PointerTarget>,
    info: AllocInfo,
    new_perm: Option<NewPermission>,
    new_tag: BorTag,
) -> ReborrowPlan {
    match lookup {
        None => if ptr_size > 0 {
            plain_plan(None, Err(ReborrowError::NoAllocation))
        } else {
            plain_plan(Some(None), Ok(None))
        },
        Some(t) => match t.prov {
            ProvenanceExtra::Wildcard => plain_plan(None, Ok(None)),
            ProvenanceExtra::Concrete(orig) => if ptr_size == 0 && info.kind != AllocKind::LiveData {
                plain_plan(None, Ok(Some((t.alloc_id, orig))))
            } else if t.base_offset + ptr_size > info.size {
                plain_plan(
                    Some(Some(t)),
                    Err(
                        ReborrowError::PointerOutOfBounds {
                            alloc_id: t.alloc_id,
                            alloc_size: info.size,
                            ptr_offset: usize_as_isize(t.base_offset, pointer_bits) as i64,
                            ptr_size,
                        },
                    ),
                )
            } else {
                match new_perm {
                    None => plain_plan(Some(Some(t)), Ok(Some((t.alloc_id, orig)))),
                    Some(p) => ReborrowPlan {
                        log: Some(Some(t)),
                        protect: p.protector,
                        read_access: p.perform_read_access,
                        new_child: Some((orig, new_tag, p.initial_state)),
                        outcome: Ok(Some((t.alloc_id, new_tag))),
                    },
                }
            },
        },
    }
}

/// Decides what a reborrow of `ptr_size` bytes does on a target whose
/// pointers have `pointer_bits` bits. `info` describes the allocation that
/// `lookup` found; it is consulted only for a concrete provenance.
pub fn plan_reborrow(
    ptr_size: u64,
    pointer_bits: u32,
    lookup: Option<PointerTarget>,
    info: AllocInfo,
    new_perm: Option<NewPermission>,
    new_tag: BorTag,
) -> (r: ReborrowPlan)
    requires
        pointer_bits == 16 || pointer_bits == 32 || pointer_bits == 64,
        lookup matches Some(t) ==> t.base_offset + ptr_size <= u64::MAX && t.base_offset < ptr_range(
            pointer_bits,
        ),
    ensures
        r == reborrow_spec(ptr_size, pointer_bits, lookup, info, new_perm, new_tag),
{
    let t = match lookup {
        None => {
            if ptr_size > 0 {
                return ReborrowPlan {
                    log: None,
                    protect: None,
                    read_access: false,
                    new_child: None,
                    outcome: Err(ReborrowError::NoAllocation),
                };
            } else {
                return ReborrowPlan {
                    log: Some(None),
                    protect: None,
                    read_access: false,
                    new_child: None,
                    outcome: Ok(None),
                };
            }
        },
        Some(t) => t,
    };
    let orig_tag = match t.prov {
        ProvenanceExtra::Wildcard => {
            return ReborrowPlan {
                log: None,
                protect: None,
                read_access: false,
                new_child: None,
                outcome: Ok(None),
            };
        },
        ProvenanceExtra::Concrete(tag) => tag,
    };
    if ptr_size == 0 && info.kind != AllocKind::LiveData {
        return ReborrowPlan {
            log: None,
            protect: None,
            read_access: false,
            new_child: None,
            outcome: Ok(Some((t.alloc_id, orig_tag))),
        };
    }
    if t.base_offset + ptr_size > info.size {
        return ReborrowPlan {
            log: Some(Some(t)),
            protect: None,
            read_access: false,
            new_child: None,
            outcome: Err(
                ReborrowError::PointerOutOfBounds {
                    alloc_id: t.alloc_id,
                    alloc_size: info.size,
                    ptr_offset: target_usize_to_isize(t.base_offset, pointer_bits),
                    ptr_size,
                },
            ),
        };
    }
    match new_perm {
        None => ReborrowPlan {
            log: Some(Some(t)),
            protect: None,
            read_access: false,
            new_child: None,
            outcome: Ok(Some((t.alloc_id, orig_tag))),
        },
        Some(p) => ReborrowPlan {
            log: Some(Some(t)),
            protect: p.protector,
            read_access: p.perform_read_access,
            new_child: Some((orig_tag, new_tag, p.initial_state)),
            outcome: Ok(Some((t.alloc_id, new_tag))),
        },
    }
}

/// A reborrowed pointer keeps its parent's tag or gets the fresh one, and it
/// gets the fresh one exactly when the tree records it as a new child; a new
/// child is always logged at its location, and is read through its parent
/// exactly when its policy asks for it.
pub proof fn lemma_reborrow_tags(
    ptr_size: u64,
    pointer_bits: u32,
    lookup: Option<PointerTarget>,
    info: AllocInfo,
    new_perm: Option<NewPermission>,
    new_tag: BorTag,
)
    ensures
        ({
            let r = reborrow_spec(ptr_size, pointer_bits, lookup, info, new_perm, new_tag);
            &&& r.outcome matches Ok(Some((a, tag))) ==> lookup matches Some(t) && a == t.alloc_id
                && (t.prov == ProvenanceExtra::Concrete(tag) || (new_perm is Some && tag
                == new_tag))
            &&& r.new_child matches Some((parent, child, perm)) ==> new_perm matches Some(p)
                && perm == p.initial_state && r.read_access == p.perform_read_access && r.protect
                == p.protector && child == new_tag
            &&& r.new_child matches Some((parent, child, perm)) ==> lookup matches Some(t)
                && t.prov == ProvenanceExtra::Concrete(parent) && r.log == Some(Some(t))
                && r.outcome == Ok::<Option<(AllocId, BorTag)>, ReborrowError>(
                Some((t.alloc_id, new_tag)),
            )
            &&& r.new_child is None ==> !r.read_access && r.protect is None
        }),
{
}

/// The provenance of a retagged pointer: the allocation and tag that the
/// reborrow settled on, or a wildcard that stays one.
pub open spec fn retagged_provenance_spec(
    prov: Option<Provenance>,
    reborrowed: Option<(AllocId, BorTag)>,
) -> Option<Provenance> {
    match prov {
        None => None,
        Some(_) => match reborrowed {
            Some((alloc_id, tag)) => Some(Provenance::Concrete { alloc_id, tag }),
            None => Some(Provenance::Wildcard),
        },
    }
}

/// Adjusts the provenance of a retagged pointer. A pointer that the
/// reborrow left without an allocation must have been a wildcard.
pub fn retagged_provenance(prov: Option<Provenance>, reborrowed: Option<(AllocId, BorTag)>) -> (r:
    Option<Provenance>)
    requires
        reborrowed is None ==> (prov is None || prov == Some(Provenance::Wildcard)),
    ensures
        r == retagged_provenance_spec(prov, reborrowed),
{
    match prov {
        None => None,
        Some(_) => match reborrowed {
            Some((alloc_id, tag)) => Some(Provenance::Concrete { alloc_id, tag }),
            None => Some(Provenance::Wildcard),
        },
    }
}

/// The size over which a reference is retagged: the dynamic size of its
/// place where it is known, else the size of its layout.
pub fn retag_size(dynamic_size: Option<u64>, layout_size: u64) -> (r: u64)
    ensures
        r == match dynamic_size {
            Some(s) => s,
            None => layout_size,
        },
{
    match dynamic_size {
        Some(s) => s,
        None => layout_size,
    }
}

/// The type of a value that the retag visitor meets.
#[derive(Clone, Copy, PartialEq, Eq, Structural)]
pub enum ValueKind {
    /// A reference to `pointee`.
    Ref { pointee: TypeFacts, mutability: Mutability },
    /// A raw pointer.
    RawPtr,
    /// A box.
    Box,
    /// Anything else; `scalar_abi` says whether its ABI is `Scalar` or
    /// `ScalarPair`.
    Other { scalar_abi: bool },
}

/// What the retag visitor does with a value.
#[derive(Clone, Copy, PartialEq, Eq, Structural)]
pub enum VisitAction {
    /// Nothing.
    Skip,
    /// Retag the pointer stored there, with this policy.
    Retag(Option<NewPermission>),
    /// Visit the fields.
    Walk,
}

/// Whether the visitor descends into a value that is neither a reference,
/// a raw pointer nor a box.
pub open spec fn recurses_into(fields: RetagFields, scalar_abi: bool) -> bool {
    match fields {
        RetagFields::No => false,
        RetagFields::Yes => true,
        RetagFields::OnlyScalar => scalar_abi,
    }
}

/// What the retag visitor does with a value: a sized value smaller than a
/// pointer holds no pointer; a reference is retagged by its policy; a raw
/// pointer is left alone; a box is walked (to reach its pointer); anything
/// else is walked if the configuration asks for it.
pub open spec fn visit_spec(
    is_sized: bool,
    size: u64,
    pointer_size: u64,
    kind: ValueKind,
    retag: RetagKind,
    fields: RetagFields,
) -> VisitAction {
    if is_sized && size < pointer_size {
        VisitAction::Skip
    } else {
        match kind {
            ValueKind::Ref { pointee, mutability } => VisitAction::Retag(
                ref_policy(pointee, mutability, retag),
            ),
            ValueKind::RawPtr => VisitAction::Skip,
            ValueKind::Box => VisitAction::Walk,
            ValueKind::Other { scalar_abi } => if recurses_into(fields, scalar_abi) {
                VisitAction::Walk
            } else {
                VisitAction::Skip
            },
        }
    }
}

/// Decides what the retag visitor does with a value.
pub fn visit_action(
    is_sized: bool,
    size: u64,
    pointer_size: u64,
    kind: ValueKind,
    retag: RetagKind,
    fields: RetagFields,
) -> (r: VisitAction)
    ensures
        r == visit_spec(is_sized, size, pointer_size, kind, retag, fields),
{
    if is_sized && size < pointer_size {
        return VisitAction::Skip;
    }
    match kind {
        ValueKind::Ref { pointee, mutability } => VisitAction::Retag(
            NewPermission::from_ref_ty(pointee, mutability, retag),
        ),
        ValueKind::RawPtr => VisitAction::Skip,
        ValueKind::Box => VisitAction::Walk,
        ValueKind::Other { scalar_abi } => {
            let recurse = match fields {
                RetagFields::No => false,
                RetagFields::Yes => true,
                RetagFields::OnlyScalar => scalar_abi,
            };
            if recurse {
                VisitAction::Walk
            } else {
                VisitAction::Skip
            }
        },
    }
}

/// The policy for retagging a pointer value: references go by their
/// pointee, every other pointer keeps its parent's tag.
pub fn ptr_value_permission(kind: ValueKind, retag: RetagKind) -> (r: Option<NewPermission>)
    ensures
        r == match kind {
            ValueKind::Ref { pointee, mutability } => ref_policy(pointee, mutability, retag),
            _ => None,
        },
{
    match kind {
        ValueKind::Ref { pointee, mutability } => NewPermission::from_ref_ty(
            pointee,
            mutability,
            retag,
        ),
        _ => None,
    }
}


/// A value that the retag visitor meets, in the pre-order walk of a place.
pub enum RetagNode {
    /// A value, with whether its type is sized, its size, its kind, and
    /// the number of nodes of its subtree (itself included).
    Value { is_sized: bool, size: u64, kind: ValueKind, subtree: usize },
    /// The pointer inside a box, which is retagged by the box policy: the
    /// box type is `Freeze` or not, its pointee `Unpin` or not.
    BoxPointer { box_is_freeze: bool, pointee_is_unpin: bool },
}

/// The place of the node after `nodes[i]`'s subtree.
pub open spec fn after_subtree(nodes: Seq<RetagNode>, i: int) -> int {
    match nodes[i] {
        RetagNode::Value { subtree, .. } => i + if subtree > 1 {
            subtree as int
        } else {
            1
        },
        RetagNode::BoxPointer { .. } => i + 1,
    }
}

/// The retags that the walk of `nodes[i..]` performs, in order: the place
/// of each pointer and its policy. A node that is walked leads to its
/// children; a retagged or skipped node's subtree is passed over.
pub open spec fn retag_walk(
    nodes: Seq<RetagNode>,
    i: int,
    pointer_size: u64,
    retag: RetagKind,
    fields: RetagFields,
) -> Seq<(int, Option<NewPermission>)>
    decreases nodes.len() - i,
{
    if i < 0 || i >= nodes.len() {
        Seq::empty()
    } else {
        match nodes[i] {
            RetagNode::BoxPointer { box_is_freeze, pointee_is_unpin } => seq![
                (i, box_policy(box_is_freeze, pointee_is_unpin, retag)),
            ] + retag_walk(nodes, i + 1, pointer_size, retag, fields),
            RetagNode::Value { is_sized, size, kind, subtree } => {
                let next = after_subtree(nodes, i);
                match visit_spec(is_sized, size, pointer_size, kind, retag, fields) {
                    VisitAction::Walk => retag_walk(nodes, i + 1, pointer_size, retag, fields),
                    VisitAction::Retag(p) => seq![(i, p)] + if next >= nodes.len() {
                        Seq::empty()
                    } else {
                        retag_walk(nodes, next, pointer_size, retag, fields)
                    },
                    VisitAction::Skip => if next >= nodes.len() {
                        Seq::empty()
                    } else {
                        retag_walk(nodes, next, pointer_size, retag, fields)
                    },
                }
            },
        }
    }
}

/// The retags of all the pointers stored in a place, whose values are
/// `nodes` in pre-order, for a retag of kind `retag` with the field
/// configuration `fields`.
pub fn retag_place_contents(
    nodes: &Vec<RetagNode>,
    pointer_size: u64,
    retag: RetagKind,
    fields: RetagFields,
) -> (r: Vec<(usize, Option<NewPermission>)>)
    ensures
        r@.map_values(|p: (usize, Option<NewPermission>)| (p.0 as int, p.1)) == retag_walk(
            nodes@,
            0,
            pointer_size,
            retag,
            fields,
        ),
{
    let mut out: Vec<(usize, Option<NewPermission>)> = Vec::new();
    let mut i: usize = 0;
    let ghost full = retag_walk(nodes@, 0, pointer_size, retag, fields);
    assert(out@.map_values(|p: (usize, Option<NewPermission>)| (p.0 as int, p.1)) =~= Seq::<
        (int, Option<NewPermission>),
    >::empty());
    while i < nodes.len()
        invariant
            full == retag_walk(nodes@, 0, pointer_size, retag, fields),
            full == out@.map_values(|p: (usize, Option<NewPermission>)| (p.0 as int, p.1))
                + retag_walk(nodes@, i as int, pointer_size, retag, fields),
        decreases nodes.len() - i,
    {
        let ghost before = out@.map_values(|p: (usize, Option<NewPermission>)| (p.0 as int, p.1));
        let mut next: usize = i + 1;
        match &nodes[i] {
            RetagNode::BoxPointer { box_is_freeze, pointee_is_unpin } => {
                out.push((i, NewPermission::from_box_ty(*box_is_freeze, *pointee_is_unpin, retag)));
            },
            RetagNode::Value { is_sized, size, kind, subtree } => {
                let step: usize = if *subtree > 1 {
                    *subtree
                } else {
                    1
                };
                let skip_to: usize = if step >= nodes.len() - i {
                    nodes.len()
                } else {
                    i + step
                };
                match visit_action(*is_sized, *size, pointer_size, *kind, retag, fields) {
                    VisitAction::Walk => {},
                    VisitAction::Retag(p) => {
                        out.push((i, p));
                        next = skip_to;
                    },
                    VisitAction::Skip => {
                        next = skip_to;
                    },
                }
            },
        }
        proof {
            let now = out@.map_values(|p: (usize, Option<NewPermission>)| (p.0 as int, p.1));
            let rest = retag_walk(nodes@, next as int, pointer_size, retag, fields);
            if now.len() > before.len() {
                assert(now =~= before.push(now.last()));
                assert(before + retag_walk(nodes@, i as int, pointer_size, retag, fields) =~= now
                    + rest) by {
                    assert(retag_walk(nodes@, i as int, pointer_size, retag, fields) =~= seq![
                        now.last(),
                    ] + rest);
                }
            } else {
                assert(now =~= before);
            }
        }
        i = next;
    }
    assert(out@.map_values(|p: (usize, Option<NewPermission>)| (p.0 as int, p.1)) + Seq::<
        (int, Option<NewPermission>),
    >::empty() =~= out@.map_values(|p: (usize, Option<NewPermission>)| (p.0 as int, p.1)));
    out
}

} // verus!
