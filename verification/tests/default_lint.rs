use crabkit::default_lint::{DefaultCall, FieldAssign, FieldInfo, LetStmt, Stmt, StructInfo};
use crabkit::diag::{Applicability, Diagnostic, Span};

fn sp(lo: u32) -> Span {
    Span { lo, hi: lo + 1 }
}

fn field(name: &str) -> FieldInfo {
    FieldInfo { name: name.to_string(), accessible: true, is_copy: true }
}

fn struct_a(fields: &[&str], args: &[&str]) -> StructInfo {
    StructInfo {
        is_local: true,
        non_exhaustive: false,
        has_drop: false,
        fields: fields.iter().map(|f| field(f)).collect(),
        printed: "A".to_string(),
        item_name: "A".to_string(),
        generic_args: args.iter().map(|s| s.to_string()).collect(),
    }
}

fn let_default(name: &str, ty: StructInfo) -> Stmt {
    Stmt::Let(LetStmt {
        span: sp(1),
        ctxt: 0,
        binding: Some(name.to_string()),
        default_init: Some(sp(2)),
        ty: Some(ty),
    })
}

fn assign(lo: u32, base: &str, field: &str, rhs: &str, names: &[&str]) -> Stmt {
    Stmt::FieldAssign(FieldAssign {
        span: sp(lo),
        ctxt: 0,
        base: base.to_string(),
        field: field.to_string(),
        rhs: rhs.to_string(),
        rhs_names: names.iter().map(|s| s.to_string()).collect(),
    })
}

fn run(stmts: Vec<Stmt>) -> (Vec<Diagnostic>, crabkit::default_lint::Default) {
    let mut lint = crabkit::default_lint::Default::new();
    let mut diags = Vec::new();
    lint.check_block(&stmts, &mut diags);
    (diags, lint)
}

fn note_of(d: &Diagnostic) -> String {
    d.note.as_ref().unwrap().1.clone()
}

#[test]
fn reassigned_fields_are_reported() {
    let (diags, _) = run(vec![
        let_default("a", struct_a(&["i", "j", "k"], &[])),
        assign(10, "a", "i", "42", &[]),
        assign(11, "a", "j", "1", &[]),
        assign(12, "a", "i", "43", &[]),
        Stmt::Other,
    ]);
    assert_eq!(diags.len(), 1);
    assert!(diags[0].span == sp(10));
    assert_eq!(
        diags[0].msg,
        "field assignment outside of initializer for an instance created with Default::default()"
    );
    assert!(diags[0].note.as_ref().unwrap().0 == sp(1));
    assert_eq!(
        note_of(&diags[0]),
        "consider initializing the variable with `A { i: 43, j: 1, ..Default::default() }` and removing relevant reassignments"
    );
}

#[test]
fn all_fields_assigned_and_generics() {
    let (diags, _) = run(vec![
        let_default("a", struct_a(&["i"], &["u8", "String"])),
        assign(10, "a", "i", "42", &[]),
    ]);
    assert_eq!(diags.len(), 1);
    assert_eq!(
        note_of(&diags[0]),
        "consider initializing the variable with `A::<u8, String> { i: 42 }` and removing relevant reassignments"
    );
}

#[test]
fn reassignment_referring_to_binding_cancels() {
    let (diags, lint) = run(vec![
        let_default("a", struct_a(&["i", "j"], &[])),
        assign(10, "a", "i", "42", &[]),
        assign(11, "a", "j", "a.i + 1", &["a"]),
    ]);
    assert!(diags.is_empty());
    let call = DefaultCall {
        span: sp(2),
        from_expansion: false,
        calls_default_method: true,
        parent_derived: false,
        update_syntax_base: false,
        names_type: false,
        adt_path: Some("A".to_string()),
        from_proc_macro: false,
    };
    assert!(lint.check_expr(&call).is_some());
}

#[test]
fn other_statements_end_the_scan() {
    let (diags, _) = run(vec![
        let_default("a", struct_a(&["i"], &[])),
        Stmt::Other,
        assign(10, "a", "i", "42", &[]),
    ]);
    assert!(diags.is_empty());
    let (diags, _) = run(vec![let_default("a", struct_a(&["i"], &[]))]);
    assert!(diags.is_empty());
    let (diags, _) = run(vec![
        let_default("a", struct_a(&["i"], &[])),
        assign(10, "b", "i", "42", &[]),
    ]);
    assert!(diags.is_empty());
}

#[test]
fn ineligible_types_are_skipped() {
    let mut t = struct_a(&["i"], &[]);
    t.has_drop = true;
    t.fields[0].is_copy = false;
    let (diags, _) = run(vec![let_default("a", t), assign(10, "a", "i", "1", &[])]);
    assert!(diags.is_empty());
    let mut t = struct_a(&["i"], &[]);
    t.is_local = false;
    t.non_exhaustive = true;
    let (diags, _) = run(vec![let_default("a", t), assign(10, "a", "i", "1", &[])]);
    assert!(diags.is_empty());
}

#[test]
fn default_trait_access_suggests_type() {
    let mut call = DefaultCall {
        span: sp(20),
        from_expansion: false,
        calls_default_method: true,
        parent_derived: false,
        update_syntax_base: false,
        names_type: false,
        adt_path: Some("std::string::String".to_string()),
        from_proc_macro: false,
    };
    let (_, lint) = run(vec![
        let_default("a", struct_a(&["i"], &[])),
        assign(10, "a", "i", "42", &[]),
    ]);
    let d = lint.check_expr(&call).unwrap();
    assert_eq!(d.msg, "calling `std::string::String::default()` is more clear than this expression");
    let s = d.suggestion.unwrap();
    assert_eq!(s.msg, "try");
    assert_eq!(s.replacement, "std::string::String::default()");
    assert!(s.applicability == Applicability::Unspecified);
    call.span = sp(2);
    assert!(lint.check_expr(&call).is_none());
    call.span = sp(20);
    call.names_type = true;
    assert!(lint.check_expr(&call).is_none());
}
