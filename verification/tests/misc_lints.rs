use crabkit::diag::{Applicability, Span};
use crabkit::misc_lints::{
    check_impl_item, check_mutex, check_vec_init, emit_lint, extract_suggestion, get_atomic_name,
    loop_init_suggestion, ref_init, spaces, ImplItemFacts, InitCall, MutexLint, MutexParam, ToStringLint,
};

fn sp() -> Span {
    Span { lo: 3, hi: 8 }
}

fn to_string_item(display: bool) -> ImplItemFacts {
    ImplItemFacts {
        span: sp(),
        from_expansion: false,
        is_to_string_fn: true,
        only_self: true,
        only_lifetime_params: true,
        returns_string: true,
        in_trait_impl: false,
        self_type: "A".to_string(),
        implements_display: display,
    }
}

#[test]
fn inherent_to_string() {
    let l = check_impl_item(&to_string_item(false)).unwrap();
    assert!(l.kind == ToStringLint::Inherent);
    assert_eq!(l.msg, "implementation of inherent method `to_string(&self) -> String` for type `A`");
    assert_eq!(l.help, "implement trait `Display` for type `A` instead");
    let l = check_impl_item(&to_string_item(true)).unwrap();
    assert!(l.kind == ToStringLint::ShadowDisplay);
    assert_eq!(l.msg, "type `A` implements inherent method `to_string(&self) -> String` which shadows the implementation of `Display`");
    assert_eq!(l.help, "remove the inherent method from type `A`");
    let mut i = to_string_item(false);
    i.in_trait_impl = true;
    assert!(check_impl_item(&i).is_none());
}

#[test]
fn mutex_of_atomic_sized_values() {
    assert_eq!(get_atomic_name(MutexParam::RawPtr), Some("AtomicPtr"));
    // `Mutex::new(0usize)`
    let l = check_mutex(sp(), Some(MutexParam::Uint)).unwrap();
    assert!(l.kind == MutexLint::MutexInteger);
    assert_eq!(l.msg, "consider using an `AtomicUsize` instead of a `Mutex` here; if you just want the locking behavior and not the internal type, consider using `Mutex<()>`");
    assert!(check_mutex(sp(), Some(MutexParam::Int)).unwrap().kind == MutexLint::MutexInteger);
    // `Mutex::new(&y)` with `y: bool`
    let l = check_mutex(sp(), Some(MutexParam::Ref)).unwrap();
    assert!(l.kind == MutexLint::MutexAtomic);
    assert!(l.span == sp());
    assert_eq!(l.msg, "consider using an `AtomicPtr` instead of a `Mutex` here; if you just want the locking behavior and not the internal type, consider using `Mutex<()>`");
    assert!(check_mutex(sp(), Some(MutexParam::Bool)).unwrap().kind == MutexLint::MutexAtomic);
    assert!(check_mutex(sp(), Some(MutexParam::Other)).is_none());
    assert!(check_mutex(sp(), None).is_none());
}

#[test]
fn rc_in_vec_suggestions() {
    assert_eq!(
        loop_init_suggestion("Rc::new(..)", "10", "  "),
        "{\n      let mut v = Vec::with_capacity(10);\n      (0..10).for_each(|_| v.push(Rc::new(..)));\n      v\n  }"
    );
    assert_eq!(extract_suggestion("Rc::new(..)", "10", ""), "{\n    let data = Rc::new(..);\n    vec![data; 10]\n}");
    assert_eq!(spaces(3), "   ");
    let l = emit_lint("Rc", sp(), "Rc::new", "2", Some(4));
    assert_eq!(l.note, "each element will point to the same `Rc` instance");
    assert_eq!(l.suggestions[0].0, "consider initializing each `Rc` element individually");
    assert_eq!(l.suggestions[1].1, extract_suggestion("Rc::new(..)", "2", "    "));
    assert!(l.applicability == Applicability::HasPlaceholders);
    let rc = InitCall { func_span: sp(), method: "new".to_string(), diag_name: Some("Rc".to_string()), returns_weak: false };
    assert_eq!(ref_init(&rc).unwrap().0, "Rc");
    let weak = InitCall { func_span: sp(), method: "new".to_string(), diag_name: None, returns_weak: true };
    assert_eq!(ref_init(&weak).unwrap().0, "Weak");
    let other = InitCall { func_span: sp(), method: "default".to_string(), diag_name: Some("Arc".to_string()), returns_weak: false };
    assert!(ref_init(&other).is_none());
    assert!(check_vec_init(sp(), Some(&rc), "Rc::new", "3", None).is_some());
    assert!(check_vec_init(sp(), None, "", "", None).is_none());
}
