use crabkit::tree_borrows::{retag_place_contents, RetagNode};
use crabkit::tree_borrows::{
    debug_name_target, err_tb_ub, exposes_in, plan_reborrow, ptr_value_permission, retag_size,
    retagged_provenance, target_usize_to_isize, visit_action, AllocId, AllocInfo, AllocKind, BorTag, InterpError,
    Mutability, NewPermission, Permission, PointerTarget, ProtectorKind, Provenance,
    ProvenanceExtra, ReborrowError, RetagFields, RetagKind, TerminationInfo, Tree, TypeFacts,
    ValueKind, VisitAction,
};

fn facts(is_freeze: bool, is_unpin: bool) -> TypeFacts {
    TypeFacts { is_freeze, is_unpin }
}

#[test]
fn ref_policy_by_mutability() {
    let p = NewPermission::from_ref_ty(facts(true, true), Mutability::Mut, RetagKind::Default).unwrap();
    assert!(p.initial_state == Permission::Reserved { ty_is_freeze: true });
    assert!(p.perform_read_access);
    assert!(p.protector.is_none());
    let p = NewPermission::from_ref_ty(facts(false, true), Mutability::Mut, RetagKind::FnEntry).unwrap();
    assert!(p.initial_state == Permission::Reserved { ty_is_freeze: false });
    assert!(p.protector == Some(ProtectorKind::StrongProtector));
    assert!(NewPermission::from_ref_ty(facts(true, false), Mutability::Mut, RetagKind::Default).is_none());
    let p = NewPermission::from_ref_ty(facts(true, false), Mutability::Not, RetagKind::TwoPhase).unwrap();
    assert!(p.initial_state == Permission::Frozen);
    assert!(NewPermission::from_ref_ty(facts(false, true), Mutability::Not, RetagKind::Default).is_none());
}

#[test]
fn box_policy_is_weakly_protected() {
    let p = NewPermission::from_box_ty(true, true, RetagKind::FnEntry).unwrap();
    assert!(p.protector == Some(ProtectorKind::WeakProtector));
    assert!(p.initial_state == Permission::Reserved { ty_is_freeze: true });
    assert!(NewPermission::from_box_ty(true, false, RetagKind::FnEntry).is_none());
    let r = NewPermission::for_return_place();
    assert!(r.protector == Some(ProtectorKind::StrongProtector));
    assert!(r.initial_state == Permission::Reserved { ty_is_freeze: false });
}

#[test]
fn tree_borrows_ub_error() {
    match err_tb_ub("bad write".to_string()) {
        InterpError::MachineStop(TerminationInfo::TreeBorrowsUb { msg }) => assert_eq!(msg, "bad write"),
    }
}

#[test]
fn expose_and_access_tags() {
    let mut t = Tree::new(BorTag { id: 1 }, 16);
    t.expose_tag(BorTag { id: 5 });
    assert!(Tree::access_tag(ProvenanceExtra::Concrete(BorTag { id: 3 })) == Some(BorTag { id: 3 }));
    assert!(Tree::access_tag(ProvenanceExtra::Wildcard).is_none());
    assert!(exposes_in(AllocKind::LiveData));
    assert!(!exposes_in(AllocKind::VTable));
    assert!(!exposes_in(AllocKind::Dead));
    let prov = Provenance::Concrete { alloc_id: AllocId { id: 2 }, tag: BorTag { id: 9 } };
    assert!(debug_name_target(Some(prov)) == Some((BorTag { id: 9 }, AllocId { id: 2 })));
    assert!(debug_name_target(Some(Provenance::Wildcard)).is_none());
    assert!(debug_name_target(None).is_none());
}

fn target(prov: ProvenanceExtra, off: u64) -> PointerTarget {
    PointerTarget { alloc_id: AllocId { id: 4 }, base_offset: off, prov }
}

#[test]
fn reborrow_plans() {
    let live = AllocInfo { size: 16, kind: AllocKind::LiveData };
    let perm = NewPermission::from_ref_ty(facts(true, true), Mutability::Mut, RetagKind::FnEntry);
    let parent = BorTag { id: 1 };
    let fresh = BorTag { id: 2 };
    // A new child with a protector and a read access.
    let p = plan_reborrow(8, 64, Some(target(ProvenanceExtra::Concrete(parent), 4)), live, perm, fresh);
    assert!(p.outcome == Ok(Some((AllocId { id: 4 }, fresh))));
    assert!(p.new_child == Some((parent, fresh, Permission::Reserved { ty_is_freeze: true })));
    assert!(p.read_access);
    assert!(p.protect == Some(ProtectorKind::StrongProtector));
    assert!(p.log == Some(Some(target(ProvenanceExtra::Concrete(parent), 4))));
    // No policy: the parent's tag is kept.
    let p = plan_reborrow(8, 64, Some(target(ProvenanceExtra::Concrete(parent), 4)), live, None, fresh);
    assert!(p.outcome == Ok(Some((AllocId { id: 4 }, parent))));
    assert!(p.new_child.is_none());
    // Out of bounds.
    let p = plan_reborrow(8, 64, Some(target(ProvenanceExtra::Concrete(parent), 12)), live, perm, fresh);
    assert!(
        p.outcome
            == Err(ReborrowError::PointerOutOfBounds {
                alloc_id: AllocId { id: 4 },
                alloc_size: 16,
                ptr_offset: 12,
                ptr_size: 8
            })
    );
    // An offset in the upper half of the address space reads as negative.
    let p = plan_reborrow(8, 64, Some(target(ProvenanceExtra::Concrete(parent), u64::MAX - 8)), live, perm, fresh);
    assert!(
        p.outcome
            == Err(ReborrowError::PointerOutOfBounds {
                alloc_id: AllocId { id: 4 },
                alloc_size: 16,
                ptr_offset: -9,
                ptr_size: 8
            })
    );
    let p = plan_reborrow(8, 32, Some(target(ProvenanceExtra::Concrete(parent), 0xffff_fff0)), live, perm, fresh);
    assert!(matches!(p.outcome, Err(ReborrowError::PointerOutOfBounds { ptr_offset: -16, .. })));
    // Wildcard and missing allocations.
    let p = plan_reborrow(8, 64, Some(target(ProvenanceExtra::Wildcard, 0)), live, perm, fresh);
    assert!(p.outcome == Ok(None) && p.log.is_none());
    let p = plan_reborrow(0, 64, None, live, perm, fresh);
    assert!(p.outcome == Ok(None) && p.log == Some(None));
    let p = plan_reborrow(1, 64, None, live, perm, fresh);
    assert!(p.outcome == Err(ReborrowError::NoAllocation));
    // Zero-sized reborrow of a vtable.
    let vt = AllocInfo { size: 0, kind: AllocKind::VTable };
    let p = plan_reborrow(0, 64, Some(target(ProvenanceExtra::Concrete(parent), 0)), vt, perm, fresh);
    assert!(p.outcome == Ok(Some((AllocId { id: 4 }, parent))) && p.log.is_none());
}

#[test]
fn signed_offsets() {
    assert_eq!(target_usize_to_isize(12, 64), 12);
    assert_eq!(target_usize_to_isize(u64::MAX, 64), -1);
    assert_eq!(target_usize_to_isize(1 << 63, 64), i64::MIN);
    assert_eq!(target_usize_to_isize(0x7fff_ffff, 32), 0x7fff_ffff);
    assert_eq!(target_usize_to_isize(0x8000_0000, 32), -0x8000_0000);
    assert_eq!(target_usize_to_isize(0xffff, 16), -1);
}

#[test]
fn retagged_pointer_provenance() {
    let a = AllocId { id: 1 };
    let t = BorTag { id: 2 };
    assert!(
        retagged_provenance(Some(Provenance::Wildcard), Some((a, t)))
            == Some(Provenance::Concrete { alloc_id: a, tag: t })
    );
    assert!(retagged_provenance(Some(Provenance::Wildcard), None) == Some(Provenance::Wildcard));
    assert!(retagged_provenance(None, Some((a, t))).is_none());
    assert_eq!(retag_size(Some(3), 8), 3);
    assert_eq!(retag_size(None, 8), 8);
}

#[test]
fn retag_visitor_decisions() {
    let r = ValueKind::Ref { pointee: facts(true, true), mutability: Mutability::Not };
    assert!(visit_action(true, 4, 8, r, RetagKind::Default, RetagFields::Yes) == VisitAction::Skip);
    assert!(matches!(
        visit_action(true, 8, 8, r, RetagKind::Default, RetagFields::No),
        VisitAction::Retag(Some(_))
    ));
    assert!(visit_action(true, 8, 8, ValueKind::RawPtr, RetagKind::Default, RetagFields::Yes) == VisitAction::Skip);
    assert!(visit_action(false, 0, 8, ValueKind::Box, RetagKind::Default, RetagFields::No) == VisitAction::Walk);
    let other = ValueKind::Other { scalar_abi: false };
    assert!(visit_action(true, 16, 8, other, RetagKind::Default, RetagFields::No) == VisitAction::Skip);
    assert!(visit_action(true, 16, 8, other, RetagKind::Default, RetagFields::Yes) == VisitAction::Walk);
    assert!(visit_action(true, 16, 8, other, RetagKind::Default, RetagFields::OnlyScalar) == VisitAction::Skip);
    let scalar = ValueKind::Other { scalar_abi: true };
    assert!(visit_action(true, 16, 8, scalar, RetagKind::Default, RetagFields::OnlyScalar) == VisitAction::Walk);
    assert!(ptr_value_permission(ValueKind::RawPtr, RetagKind::Default).is_none());
    assert!(ptr_value_permission(r, RetagKind::Default).is_some());
}

#[test]
fn retag_walk_over_a_place() {
    let r = ValueKind::Ref { pointee: facts(true, true), mutability: Mutability::Mut };
    let nodes = vec![
        // A struct of 5 nodes: a reference, a raw pointer with a field, a box.
        RetagNode::Value { is_sized: true, size: 32, kind: ValueKind::Other { scalar_abi: false }, subtree: 6 },
        RetagNode::Value { is_sized: true, size: 8, kind: r, subtree: 1 },
        RetagNode::Value { is_sized: true, size: 16, kind: ValueKind::RawPtr, subtree: 2 },
        RetagNode::Value { is_sized: true, size: 8, kind: r, subtree: 1 },
        RetagNode::Value { is_sized: true, size: 8, kind: ValueKind::Box, subtree: 2 },
        RetagNode::BoxPointer { box_is_freeze: true, pointee_is_unpin: true },
    ];
    let got = retag_place_contents(&nodes, 8, RetagKind::FnEntry, RetagFields::Yes);
    assert_eq!(got.len(), 2);
    assert_eq!(got[0].0, 1);
    assert!(got[0].1.unwrap().protector == Some(ProtectorKind::StrongProtector));
    assert_eq!(got[1].0, 5);
    assert!(got[1].1.unwrap().protector == Some(ProtectorKind::WeakProtector));
    // Without field retagging, the struct is not entered.
    assert!(retag_place_contents(&nodes, 8, RetagKind::FnEntry, RetagFields::No).is_empty());
}
