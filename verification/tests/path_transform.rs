use crabkit::path_transform::{
    find_trait_for_assoc_item, get_type_args_from_arg_list, transform_path, GenericArg, GenericParam,
    ParamKind, ParentNode, PathAction, PathFacts, PathTransform, Resolution, SegmentFacts, TraitBound,
};

fn ty(s: &str) -> GenericArg {
    GenericArg::Type(Some(s.to_string()))
}

#[test]
fn type_args_of_lists() {
    assert_eq!(get_type_args_from_arg_list(&vec![ty("u8"), GenericArg::Other, ty("String")]), Some(vec!["u8".to_string(), "String".to_string()]));
    assert_eq!(get_type_args_from_arg_list(&vec![ty("u8"), GenericArg::Type(None)]), None);
}

#[test]
fn trait_impl_substitution_skips_self() {
    let t = PathTransform::trait_impl(Some(&vec![ty("()")]));
    let params = vec![
        GenericParam { id: 0, kind: ParamKind::Type { default: None } },
        GenericParam { id: 1, kind: ParamKind::Type { default: None } },
        GenericParam { id: 2, kind: ParamKind::Const },
        GenericParam { id: 3, kind: ParamKind::Type { default: Some("i32".to_string()) } },
        GenericParam { id: 4, kind: ParamKind::Type { default: None } },
    ];
    assert_eq!(t.build_ctx(&params), vec![(1, "()".to_string()), (3, "i32".to_string())]);
    let f = PathTransform::function_call(&vec![ty("u8")]);
    assert_eq!(f.build_ctx(&params), vec![(0, "u8".to_string()), (3, "i32".to_string())]);
    assert!(PathTransform::generic_transformation().build_ctx(&params).is_empty());
}

fn plain_path() -> PathFacts {
    PathFacts {
        has_qualifier: false,
        segment: Some(SegmentFacts { has_param_list: false, is_self: false, is_type_kind: Some(false), generic_args: Some("<u8>".to_string()) }),
        has_parent_path: false,
    }
}

#[test]
fn paths_are_transformed() {
    let substs = vec![(1, "()".to_string())];
    match transform_path(&plain_path(), &Some(Resolution::TypeParam(1)), &ParentNode::PathType, &substs) {
        PathAction::ReplaceParentType { subst } => assert_eq!(subst, "()"),
        _ => panic!("expected a type replacement"),
    }
    match transform_path(&plain_path(), &Some(Resolution::TypeParam(1)), &ParentNode::Path { assoc_name: Some("Item".to_string()) }, &substs) {
        PathAction::QualifyAssoc { subst, assoc_name } => {
            assert_eq!(subst, "()");
            assert_eq!(assoc_name, "Item");
        }
        _ => panic!("expected a qualified path"),
    }
    assert!(matches!(transform_path(&plain_path(), &Some(Resolution::TypeParam(2)), &ParentNode::Other, &substs), PathAction::Keep));
    match transform_path(&plain_path(), &Some(Resolution::Def { is_assoc_item: false, is_trait: false }), &ParentNode::Other, &substs) {
        PathAction::UsePath { generic_args } => assert_eq!(generic_args, Some("<u8>".to_string())),
        _ => panic!("expected a use path"),
    }
    assert!(matches!(transform_path(&plain_path(), &Some(Resolution::Def { is_assoc_item: true, is_trait: false }), &ParentNode::Other, &substs), PathAction::Keep));
    let mut q = plain_path();
    q.has_qualifier = true;
    assert!(matches!(transform_path(&q, &Some(Resolution::TypeParam(1)), &ParentNode::Other, &substs), PathAction::Keep));
}

#[test]
fn trait_for_assoc_item_search() {
    let bounds = vec![
        TraitBound { id: 10, item_names: vec![Some("Output".to_string())] },
        TraitBound { id: 11, item_names: vec![Some("Item".to_string())] },
    ];
    assert_eq!(find_trait_for_assoc_item(&bounds, "Item"), Some(11));
    assert_eq!(find_trait_for_assoc_item(&bounds, "Target"), None);
    let odd = vec![TraitBound { id: 1, item_names: vec![None, Some("Item".to_string())] }];
    assert_eq!(find_trait_for_assoc_item(&odd, "Item"), None);
}
