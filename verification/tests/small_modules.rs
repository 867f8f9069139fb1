use crabkit::codegen::{fn_visibility, static_declaration, Linkage, StaticAttrs, Visibility};
use crabkit::diag::{Applicability, Span};
use crabkit::mini_core::{get_tls, Add, BitOr, Index, Mul, Neg, Not, Rem, Shl, Sub};
use crabkit::ptr_args::{extract_clone_suggestions, get_spans, BodyExpr, BodyNode};
use crabkit::symbol_names::{process_attrs, report_symbol_names, ItemAttrs, Kind, TestOutput};
use crabkit::target::{target, Cc, LinkerFlavor, Lld, PanicStrategy, RelocModel};
use crabkit::thread::{available_parallelism, wait_notify, ErrorKind, JoinNotifier, Task, TaskQueue, Thread};
use crabkit::type_lints::{
    check_cast_enum_constructor, check_fn_to_numeric_cast_any, check_mem_forget, check_step_by, check_transmute,
    check_ty, in_trait_impl, ty_from_hir_ty, CastKind, CastTy, GrandparentItem, MapTypeFacts, TransmuteFacts,
};

fn sp(lo: u32) -> Span {
    Span { lo, hi: lo + 1 }
}

#[test]
fn mini_core_operators() {
    assert_eq!(get_tls(), 42);
    assert!(!Not::not(true));
    assert_eq!(Mul::mul(6u8, 7u8), 42);
    assert_eq!(Add::add(-3i8, 5i8), 2);
    assert_eq!(Sub::sub(10usize, 4usize), 6);
    assert_eq!(Rem::rem(17usize, 5usize), 2);
    assert!(BitOr::bitor(false, true));
    assert_eq!(Shl::shl(1u128, 100u128), 1u128 << 100);
    assert_eq!(Neg::neg(5isize), -5);
    assert!(crabkit::mini_core::PartialEq::eq(&3u8, &3u8));
    assert!(crabkit::mini_core::PartialEq::ne(&'a', &'b'));
    let a = [10u32, 20, 30];
    assert_eq!(*Index::index(&a, 2), 30);
}

#[test]
fn armv7r_target() {
    let t = target();
    assert_eq!(t.llvm_target, "armv7r-unknown-none-eabi");
    assert_eq!(t.pointer_width, 32);
    assert_eq!(t.data_layout, "e-m:e-p:32:32-Fi8-i64:64-v128:64:128-a:0:32-n32-S64");
    assert_eq!(t.arch, "arm");
    assert_eq!(t.options.abi, "eabi");
    assert_eq!(t.options.features, "");
    assert!(t.options.linker_flavor == LinkerFlavor::Gnu(Cc::No, Lld::Yes));
    assert_eq!(t.options.linker.as_deref(), Some("crablang-lld"));
    assert!(t.options.relocation_model == RelocModel::Static);
    assert!(t.options.panic_strategy == PanicStrategy::Abort);
    assert_eq!(t.options.max_atomic_width, Some(32));
    assert!(!t.options.emit_debug_gdb_scripts);
    assert_eq!(t.options.c_enum_min_bits, Some(8));
}

#[test]
fn enclave_threads() {
    assert!(available_parallelism() == Err(ErrorKind::Unsupported));
    assert!(Thread::yield_answer_ok(Err(ErrorKind::WouldBlock)));
    assert!(!Thread::yield_answer_ok(Ok(0)));
    assert!(!Thread::yield_answer_ok(Err(ErrorKind::Other)));
    Thread::set_name(b"worker");
    let (n, w) = wait_notify::new(7);
    assert_eq!((n.parker, w.parker), (7, 7));
    let mut q = TaskQueue { tasks: Vec::new() };
    let t1 = Thread::new(&mut q, 100, 1, Ok(())).ok().unwrap();
    let _t2 = Thread::new(&mut q, 200, 2, Ok(())).ok().unwrap();
    assert_eq!(t1.0.parker, 1);
    assert!(Thread::new(&mut q, 300, 3, Err(ErrorKind::Other)).err().unwrap() == ErrorKind::Other);
    assert_eq!(q.tasks.len(), 2);
    let task = Thread::entry(&mut q);
    let (job, done): (u64, JoinNotifier) = task.run();
    assert_eq!(job, 200);
    assert_eq!(done.0.unwrap().parker, 2);
    let (task, waiter) = Task::new(5, 9);
    assert_eq!(task.job, 5);
    assert_eq!(waiter.parker, 9);
}

#[test]
fn gcc_declarations() {
    assert!(fn_visibility(Linkage::External, true, Visibility::Default) == Visibility::Hidden);
    assert!(fn_visibility(Linkage::Internal, true, Visibility::Protected) == Visibility::Protected);
    assert!(fn_visibility(Linkage::External, false, Visibility::Protected) == Visibility::Protected);
    let a = StaticAttrs { thread_local: true, link_section: Some(".data.x".to_string()) };
    assert_eq!(static_declaration(&a), (true, Some(".data.x")));
}

fn body_call(lo: u32, name: &str, on_param: bool, size: usize) -> BodyNode {
    BodyNode { expr: BodyExpr::MethodCall { span: sp(lo), name: name.to_string(), no_args: true, on_param, recv_text: "v".to_string() }, size }
}

#[test]
fn clone_suggestions_for_parameter() {
    let replace = vec![("clone".to_string(), ".to_owned()".to_string()), ("len".to_string(), ".len()".to_string())];
    let nodes = vec![
        BodyNode { expr: BodyExpr::Other, size: 4 },
        body_call(1, "clone", true, 1),
        body_call(2, "len", false, 1),
        body_call(3, "len", true, 1),
    ];
    let s = extract_clone_suggestions(&nodes, &replace).unwrap();
    assert_eq!(s.len(), 2);
    assert!(s[0].0 == sp(1));
    assert_eq!(s[0].1, "v.to_owned()");
    assert_eq!(s[1].1, "v.len()");
    let with_capacity = vec![body_call(1, "clone", true, 1), body_call(2, "capacity", true, 1)];
    assert!(extract_clone_suggestions(&with_capacity, &replace).is_none());
    assert_eq!(get_spans(None, true, &replace).unwrap().len(), 0);
    assert_eq!(get_spans(Some(&with_capacity), false, &replace).unwrap().len(), 0);
}

#[test]
fn symbol_name_reports() {
    let item = ItemAttrs {
        symbol_name_attrs: vec![sp(1)],
        def_path_attrs: vec![sp(5)],
        mangled: "_ZN3foo3bar17h05af221e174051e9E".to_string(),
        def_path: "foo::bar".to_string(),
    };
    let mut out: Vec<TestOutput> = Vec::new();
    process_attrs(&item, &mut out);
    let got: Vec<(Kind, String)> = out.into_iter().map(|o| (o.kind, o.content)).collect();
    assert!(got[0].0 == Kind::SymbolName && got[0].1 == "_ZN3foo3bar17h05af221e174051e9E");
    assert!(got[1].0 == Kind::Demangling && got[1].1 == "foo::bar::h05af221e174051e9");
    assert!(got[2].0 == Kind::DemanglingAlt && got[2].1 == "foo::bar");
    assert!(got[3].0 == Kind::DefPath && got[3].1 == "foo::bar");
    let plain = ItemAttrs { symbol_name_attrs: vec![sp(1)], def_path_attrs: vec![], mangled: "not a symbol".to_string(), def_path: String::new() };
    assert_eq!(report_symbol_names(true, &vec![], &vec![plain], &vec![], &vec![]).len(), 1);
    assert!(report_symbol_names(false, &vec![item], &vec![], &vec![], &vec![]).is_empty());
}

#[test]
fn type_based_lints() {
    assert!(in_trait_impl(Some(GrandparentItem::Impl { of_trait: true })));
    assert!(!in_trait_impl(Some(GrandparentItem::Impl { of_trait: false })));
    assert_eq!(ty_from_hir_ty(Some((1, Some(5))), 1, 9), 5);
    assert_eq!(ty_from_hir_ty(Some((2, Some(5))), 1, 9), 9);
    assert_eq!(ty_from_hir_ty(None, 1, 9), 9);
    let m = MapTypeFacts { span: sp(0), from_expansion: false, grandparent: None, is_map: true, value_escaping: false, value_normalizable: true, value_zst: Some(true) };
    let d = check_ty(&m).unwrap();
    assert_eq!(d.msg, "map with zero-sized value type");
    assert_eq!(d.help, "consider using a set instead");
    let m2 = MapTypeFacts { value_zst: Some(false), ..m };
    assert!(check_ty(&m2).is_none());
    assert_eq!(check_mem_forget(sp(0), true, true).unwrap().msg, "usage of `mem::forget` on `Drop` type");
    assert!(check_mem_forget(sp(0), true, false).is_none());
    assert_eq!(check_cast_enum_constructor(sp(0), CastTy::FnDef, true).unwrap().msg, "cast of an enum tuple constructor to an integer");
    let d = check_fn_to_numeric_cast_any(sp(0), CastTy::FnPtr, CastTy::Other, "f", "usize", Applicability::MaybeIncorrect).unwrap();
    assert_eq!(d.msg, "casting function pointer `f` to `usize`");
    let g = d.suggestion.unwrap();
    assert_eq!(g.replacement, "f() as usize");
    assert!(g.applicability == Applicability::MaybeIncorrect);
    assert!(check_fn_to_numeric_cast_any(sp(0), CastTy::FnDef, CastTy::FnPtr, "f", "fn()", Applicability::MaybeIncorrect).is_none());
    assert_eq!(check_step_by(sp(0), true, true).unwrap().msg, "`Iterator::step_by(0)` will panic at runtime");
    let t = TransmuteFacts {
        span: sp(0),
        cast: Some(CastKind::PtrAddrCast),
        from_adjusted: true,
        from_ty: "&u8".to_string(),
        to_ty: "usize".to_string(),
        arg_as_to: "x as usize".to_string(),
        arg_as_from: "x as *const u8".to_string(),
        app: Applicability::MachineApplicable,
    };
    let d = check_transmute(&t).unwrap();
    assert_eq!(d.msg, "transmute from `&u8` to `usize` which could be expressed as a pointer cast instead");
    let g = d.suggestion.unwrap();
    assert_eq!(g.replacement, "x as *const u8 as usize");
    assert!(g.applicability == Applicability::MachineApplicable);
    let t2 = TransmuteFacts { cast: Some(CastKind::Other), ..t };
    assert!(check_transmute(&t2).is_none());
}
