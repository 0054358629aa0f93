use num::BigInt;
use std::cmp::Ordering;
use std::rc::Rc;
use steel_values::{
    from_serializable_value, into_serializable_value, iterator_next, value_into_iterator,
    BuiltInDataStructureIterator, Chunks, ErrorKind, ExprKind, SteelErr, ForeignObject, Handle, LambdaRef,
    SerializableSteelVal, Span, SteelString, SteelVal, Syntax, Token,
    TryFromSteelValVisitorForExprKind,
};

fn err_of<T>(r: Result<T, SteelErr>) -> SteelErr {
    match r {
        Ok(_) => panic!("expected an error"),
        Err(e) => e,
    }
}

fn text(s: &str) -> SteelString {
    SteelString::from(s.to_string())
}

fn list(items: Vec<SteelVal>) -> SteelVal {
    SteelVal::ListV(Rc::new(items))
}

fn num(x: f64) -> SteelVal {
    SteelVal::NumV(x.to_bits())
}

fn foreign(transferable: bool) -> ForeignObject {
    ForeignObject { addr: 42, class_name: "Counter".to_string(), text: None, transferable }
}

#[test]
fn truthiness_of_scheme_values() {
    assert!(!SteelVal::BoolV(false).is_truthy());
    assert!(!SteelVal::Void.is_truthy());
    assert!(!list(vec![]).is_truthy());
    assert!(list(vec![SteelVal::IntV(1)]).is_truthy());
    assert!(SteelVal::IntV(0).is_truthy());
    assert!(SteelVal::BoolV(true).is_truthy());
}

#[test]
fn truthy_is_never_falsey() {
    let values = vec![
        SteelVal::BoolV(false),
        SteelVal::BoolV(true),
        SteelVal::Void,
        list(vec![]),
        list(vec![SteelVal::Void]),
        SteelVal::IntV(0),
        SteelVal::StringV(text("")),
    ];
    for v in values.iter() {
        assert_eq!(v.is_truthy(), !v.is_falsey());
    }
}

#[test]
fn predicates_of_callables_and_keys() {
    let f = SteelVal::FuncV(Handle { addr: 1 });
    assert!(f.is_function());
    assert!(f.is_hashable());
    assert!(!SteelVal::ContinuationFunction(Handle { addr: 2 }).is_function());
    assert!(SteelVal::MutFunc(Handle { addr: 3 }).is_function());
    assert!(!SteelVal::PortV(Handle { addr: 4 }).is_hashable());
    assert!(SteelVal::Contract(Handle { addr: 5 }).is_contract());
    assert!(SteelVal::FutureV(Handle { addr: 6 }).is_future());
    assert!(!SteelVal::IntV(1).is_future());
}

#[test]
fn transfer_round_trip_keeps_values() {
    let closure = SteelVal::Closure(Rc::new(LambdaRef { addr: 9, arity: 2 }));
    let v = list(vec![
        SteelVal::IntV(1),
        SteelVal::StringV(text("a")),
        SteelVal::SymbolV(text("b")),
        SteelVal::CharV('c'),
        SteelVal::BoolV(true),
        closure,
    ]);
    let s = into_serializable_value(v.share()).unwrap();
    let back = from_serializable_value(s);
    assert!(back == v);
    assert_eq!(back.list().unwrap()[5].closure_arity(), Some(2));
}

#[test]
fn transfer_of_maps_and_foreign_objects() {
    let m = SteelVal::HashMapV(Rc::new(vec![(SteelVal::IntV(1), SteelVal::StringV(text("x")))]));
    match into_serializable_value(m.share()).unwrap() {
        SerializableSteelVal::HashMapV(entries) => assert_eq!(entries.len(), 1),
        _ => panic!("a map becomes a map"),
    }
    assert!(from_serializable_value(into_serializable_value(m.share()).unwrap()) == m);
    let f = SteelVal::Custom(Rc::new(foreign(true)));
    match from_serializable_value(into_serializable_value(f).unwrap()) {
        SteelVal::Custom(obj) => assert_eq!(obj.addr, 42),
        _ => panic!("a foreign object comes back as one"),
    }
}

#[test]
fn transfer_refuses_ports_continuations_and_local_foreign_objects() {
    let e = err_of(into_serializable_value(SteelVal::PortV(Handle { addr: 1 })));
    assert_eq!(e.kind, ErrorKind::Generic);
    assert!(e.message.contains("PortV"));
    let e = err_of(into_serializable_value(SteelVal::ContinuationFunction(Handle { addr: 1 })));
    assert!(e.message.contains("ContinuationFunction"));
    let e = err_of(into_serializable_value(SteelVal::Custom(Rc::new(foreign(false)))));
    assert_eq!(e.kind, ErrorKind::Generic);
    assert!(e.message.contains("Custom"));
}

#[test]
fn transfer_fails_on_a_nested_iterator() {
    let it = value_into_iterator(list(vec![SteelVal::IntV(1)]));
    let v = list(vec![SteelVal::IntV(1), it]);
    let e = err_of(into_serializable_value(v));
    assert_eq!(e.kind, ErrorKind::Generic);
}

#[test]
fn foreign_object_display() {
    assert_eq!(foreign(false).display(), "#<Counter>");
    let shown = ForeignObject {
        addr: 1,
        class_name: "Counter".to_string(),
        text: Some("counter at 3".to_string()),
        transferable: false,
    };
    assert_eq!(shown.display(), "counter at 3");
}

#[test]
fn iterator_yields_in_order_then_void_for_ever() {
    let it = value_into_iterator(list(vec![SteelVal::IntV(1), SteelVal::IntV(2), SteelVal::IntV(3)]));
    let args = vec![it];
    assert!(iterator_next(&args).unwrap() == SteelVal::IntV(1));
    assert!(iterator_next(&args).unwrap() == SteelVal::IntV(2));
    assert!(iterator_next(&args).unwrap() == SteelVal::IntV(3));
    assert!(iterator_next(&args).unwrap() == SteelVal::Void);
    assert!(iterator_next(&args).unwrap() == SteelVal::Void);
}

#[test]
fn iterator_cursor_is_shared_between_clones() {
    let it = value_into_iterator(list(vec![SteelVal::IntV(1), SteelVal::IntV(2)]));
    let a = vec![it.share()];
    let b = vec![it];
    assert!(iterator_next(&a).unwrap() == SteelVal::IntV(1));
    assert!(iterator_next(&b).unwrap() == SteelVal::IntV(2));
    assert!(iterator_next(&a).unwrap() == SteelVal::Void);
}

#[test]
fn iterator_over_strings_and_maps() {
    let it = value_into_iterator(SteelVal::StringV(text("hé")));
    let args = vec![it];
    assert!(iterator_next(&args).unwrap() == SteelVal::CharV('h'));
    assert!(iterator_next(&args).unwrap() == SteelVal::CharV('é'));
    assert!(iterator_next(&args).unwrap() == SteelVal::Void);
    let m = SteelVal::HashMapV(Rc::new(vec![(SteelVal::IntV(1), SteelVal::IntV(2))]));
    let args = vec![value_into_iterator(m)];
    assert!(iterator_next(&args).unwrap() == list(vec![SteelVal::IntV(1), SteelVal::IntV(2)]));
}

#[test]
fn iterator_next_rejects_other_values() {
    let e = err_of(iterator_next(&[SteelVal::IntV(1)]));
    assert_eq!(e.kind, ErrorKind::TypeMismatch);
}

#[test]
fn opaque_cursor_and_chunks() {
    let mut it = BuiltInDataStructureIterator::from_iterator(vec![SteelVal::BoolV(true)]);
    assert!(it.next().unwrap() == SteelVal::BoolV(true));
    assert!(it.next().is_none());
    assert!(it.next().is_none());
    let c = Chunks::new(text("añb"));
    assert_eq!(c.chars, vec!['a', 'ñ', 'b']);
    assert_eq!(c.pos, 0);
}

#[test]
fn pointer_identity_is_not_structural() {
    let a = list(vec![SteelVal::IntV(1)]);
    let b = list(vec![SteelVal::IntV(1)]);
    assert!(a == b);
    assert!(!a.ptr_eq(&b));
    assert!(a.ptr_eq(&a.clone()));
    assert!(a.ptr_eq(&a.share()));
    let s = SteelVal::StringV(text("x"));
    assert!(s.ptr_eq(&s.share()));
    assert!(!s.ptr_eq(&SteelVal::StringV(text("x"))));
    assert!(SteelVal::Void.ptr_eq(&SteelVal::Void));
    assert!(!SteelVal::IntV(1).ptr_eq(&SteelVal::IntV(1)));
}

#[test]
fn equality_is_total_and_symmetric() {
    let values = vec![
        SteelVal::IntV(1),
        SteelVal::BoolV(true),
        SteelVal::StringV(text("1")),
        SteelVal::SymbolV(text("1")),
        SteelVal::CharV('1'),
        SteelVal::Void,
        list(vec![SteelVal::IntV(1)]),
        SteelVal::PortV(Handle { addr: 1 }),
        num(1.0),
    ];
    for a in values.iter() {
        for b in values.iter() {
            assert_eq!(a == b, b == a);
        }
    }
    assert!(SteelVal::IntV(1) != SteelVal::BoolV(true));
    assert!(SteelVal::StringV(text("a")) != SteelVal::SymbolV(text("a")));
    assert!(num(1.0) == num(1.0));
    assert!(num(0.0) == num(-0.0));
    assert!(num(f64::NAN) != num(f64::NAN));
    assert!(num(1.0) != num(2.0));
    assert!(SteelVal::PortV(Handle { addr: 1 }) != SteelVal::PortV(Handle { addr: 1 }));
    assert!(SteelVal::Void == SteelVal::Void);
}

#[test]
fn sets_and_maps_compare_without_order() {
    let a = SteelVal::HashSetV(Rc::new(vec![SteelVal::IntV(1), SteelVal::IntV(2)]));
    let b = SteelVal::HashSetV(Rc::new(vec![SteelVal::IntV(2), SteelVal::IntV(1)]));
    let c = SteelVal::HashSetV(Rc::new(vec![SteelVal::IntV(2), SteelVal::IntV(3)]));
    assert!(a == b);
    assert!(a != c);
    assert_eq!(a.hash_code().unwrap(), b.hash_code().unwrap());
    let m1 = SteelVal::HashMapV(Rc::new(vec![
        (SteelVal::IntV(1), SteelVal::CharV('a')),
        (SteelVal::IntV(2), SteelVal::CharV('b')),
    ]));
    let m2 = SteelVal::HashMapV(Rc::new(vec![
        (SteelVal::IntV(2), SteelVal::CharV('b')),
        (SteelVal::IntV(1), SteelVal::CharV('a')),
    ]));
    let m3 = SteelVal::HashMapV(Rc::new(vec![
        (SteelVal::IntV(2), SteelVal::CharV('b')),
        (SteelVal::IntV(1), SteelVal::CharV('z')),
    ]));
    assert!(m1 == m2);
    assert!(m1 != m3);
}

#[test]
fn big_integers_compare_by_value() {
    let a = SteelVal::BigNum(Rc::new(BigInt::from(5)));
    let b = SteelVal::BigNum(Rc::new(BigInt::from(5)));
    let c = SteelVal::BigNum(Rc::new(BigInt::from(-5)));
    assert!(a == b);
    assert!(a != c);
}

#[test]
fn hashing_agrees_with_equality() {
    let a = list(vec![SteelVal::IntV(1), SteelVal::StringV(text("x"))]);
    let b = list(vec![SteelVal::IntV(1), SteelVal::StringV(text("x"))]);
    let c = list(vec![SteelVal::IntV(1), SteelVal::StringV(text("y"))]);
    assert_eq!(a.hash_code().unwrap(), b.hash_code().unwrap());
    assert_ne!(a.hash_code().unwrap(), c.hash_code().unwrap());
    assert_ne!(SteelVal::IntV(1).hash_code().unwrap(), SteelVal::IntV(2).hash_code().unwrap());
    let e = SteelVal::PortV(Handle { addr: 1 }).hash_code().unwrap_err();
    assert_eq!(e.kind, ErrorKind::TypeMismatch);
    assert!(list(vec![SteelVal::PortV(Handle { addr: 1 })]).hash_code().is_err());
}

#[test]
fn partial_order_of_numbers_strings_chars_and_integers() {
    assert_eq!(num(1.0).partial_cmp(&num(2.0)), Some(Ordering::Less));
    assert_eq!(num(-3.5).partial_cmp(&num(-1.0)), Some(Ordering::Less));
    assert_eq!(num(-0.0).partial_cmp(&num(0.0)), Some(Ordering::Equal));
    assert_eq!(num(f64::NAN).partial_cmp(&num(1.0)), None);
    assert_eq!(num(f64::INFINITY).partial_cmp(&num(1e300)), Some(Ordering::Greater));
    let s = |x: &str| SteelVal::StringV(text(x));
    assert_eq!(s("abc").partial_cmp(&s("abd")), Some(Ordering::Less));
    assert_eq!(s("ab").partial_cmp(&s("abc")), Some(Ordering::Less));
    assert_eq!(s("b").partial_cmp(&s("abc")), Some(Ordering::Greater));
    assert_eq!(s("é").partial_cmp(&s("é")), Some(Ordering::Equal));
    assert_eq!(SteelVal::CharV('a').partial_cmp(&SteelVal::CharV('b')), Some(Ordering::Less));
    assert_eq!(SteelVal::IntV(-4).partial_cmp(&SteelVal::IntV(3)), Some(Ordering::Less));
    assert_eq!(SteelVal::IntV(1).partial_cmp(&num(1.0)), None);
    assert_eq!(list(vec![]).partial_cmp(&list(vec![])), None);
}

fn span(start: u32, end: u32) -> Span {
    Span { start, end, source_id: Some(1) }
}

#[test]
fn syntax_objects_become_atoms_at_their_location() {
    let sp = span(3, 4);
    let stx = Syntax::new(SteelVal::IntV(3), sp);
    match stx.to_exprkind().unwrap() {
        ExprKind::Atom(Token::IntegerLiteral(3), at) => assert_eq!(at, sp),
        other => panic!("unexpected {:?}", other),
    }
    let inner = SteelVal::SyntaxObject(Rc::new(Syntax::new(SteelVal::SymbolV(text("x")), span(7, 8))));
    match Syntax::new(inner, sp).to_exprkind().unwrap() {
        ExprKind::Atom(Token::Identifier(name), at) => {
            assert_eq!(name, "x");
            assert_eq!(at, span(7, 8));
        },
        other => panic!("unexpected {:?}", other),
    }
}

#[test]
fn lists_become_literal_lists_and_ports_fail() {
    let stx = Syntax::new(list(vec![SteelVal::BoolV(true), SteelVal::CharV('c')]), span(0, 9));
    match stx.to_exprkind().unwrap() {
        ExprKind::List(items) => {
            assert_eq!(items.len(), 2);
            match &items[0] {
                ExprKind::Atom(Token::BooleanLiteral(true), at) => assert_eq!(at.source_id, None),
                other => panic!("unexpected {:?}", other),
            }
        },
        other => panic!("unexpected {:?}", other),
    }
    let bad = Syntax::new(list(vec![SteelVal::PortV(Handle { addr: 1 })]), span(0, 1));
    assert_eq!(bad.to_exprkind().unwrap_err().kind, ErrorKind::ConversionError);
    assert_eq!(
        Syntax::steelval_to_exprkind(&SteelVal::Void).unwrap_err().kind,
        ErrorKind::ConversionError
    );
}

#[test]
fn visitor_reads_quote_forms() {
    let quoted_list = list(vec![SteelVal::SymbolV(text("quote")), list(vec![SteelVal::IntV(1)])]);
    let mut visitor = TryFromSteelValVisitorForExprKind::new();
    match visitor.visit(&quoted_list).unwrap() {
        ExprKind::Form(items) => {
            assert_eq!(items.len(), 2);
            match &items[1] {
                ExprKind::Form(inner) => assert_eq!(inner.len(), 1),
                other => panic!("unexpected {:?}", other),
            }
        },
        other => panic!("unexpected {:?}", other),
    }
    assert!(!visitor.quoted);
    let nested = list(vec![SteelVal::SymbolV(text("quote")), quoted_list.share()]);
    match visitor.visit(&nested).unwrap() {
        ExprKind::Form(items) => match &items[1] {
            ExprKind::List(inner) => assert_eq!(inner.len(), 2),
            other => panic!("unexpected {:?}", other),
        },
        other => panic!("unexpected {:?}", other),
    }
    let plain = list(vec![SteelVal::SymbolV(text("f")), SteelVal::IntV(2)]);
    assert!(matches!(visitor.visit(&plain).unwrap(), ExprKind::Form(_)));
    let stx = Syntax::new(SteelVal::VectorV(Rc::new(vec![SteelVal::IntV(1)])), span(1, 2));
    assert!(matches!(visitor.visit_syntax_object(&stx).unwrap(), ExprKind::List(_)));
}

#[test]
fn syntax_accessors() {
    let stx = Syntax::proto(SteelVal::IntV(1), SteelVal::IntV(2), span(5, 6));
    assert!(stx.syntax_datum() == SteelVal::IntV(1));
    assert!(stx.syntax_e() == SteelVal::IntV(2));
    assert_eq!(stx.syntax_loc(), span(5, 6));
    let v: SteelVal = Syntax::new_with_source(SteelVal::Void, span(0, 0)).into();
    assert!(v.as_syntax_object().is_some());
}

#[test]
fn boxed_and_empty_map_values() {
    assert!(matches!(SteelVal::boxed(SteelVal::IntV(1)), SteelVal::Boxed(_)));
    match SteelVal::empty_hashmap() {
        SteelVal::HashMapV(m) => assert!(m.is_empty()),
        _ => panic!("an empty map is a map"),
    }
}

#[test]
fn equal_numbers_hash_alike() {
    assert_eq!(num(0.0).hash_code().unwrap(), num(-0.0).hash_code().unwrap());
    assert_eq!(num(2.5).hash_code().unwrap(), num(2.5).hash_code().unwrap());
    assert_ne!(num(2.5).hash_code().unwrap(), num(-2.5).hash_code().unwrap());
}

#[test]
fn set_and_map_hashes_ignore_order_and_repetition() {
    let a = SteelVal::HashSetV(Rc::new(vec![SteelVal::IntV(1), SteelVal::IntV(2)]));
    let b = SteelVal::HashSetV(Rc::new(vec![SteelVal::IntV(2), SteelVal::IntV(1), SteelVal::IntV(2)]));
    let c = SteelVal::HashSetV(Rc::new(vec![SteelVal::IntV(7)]));
    assert!(a == b);
    assert_eq!(a.hash_code().unwrap(), b.hash_code().unwrap());
    assert_ne!(a.hash_code().unwrap(), c.hash_code().unwrap());
    let m1 = SteelVal::HashMapV(Rc::new(vec![(SteelVal::IntV(1), SteelVal::IntV(2))]));
    let m2 = SteelVal::HashMapV(Rc::new(vec![(SteelVal::IntV(1), SteelVal::IntV(3))]));
    assert_ne!(m1.hash_code().unwrap(), m2.hash_code().unwrap());
}

#[test]
fn transfer_error_is_that_of_the_first_failing_element() {
    let v = list(vec![
        SteelVal::IntV(1),
        SteelVal::PortV(Handle { addr: 1 }),
        SteelVal::ContinuationFunction(Handle { addr: 2 }),
    ]);
    let e = err_of(into_serializable_value(v));
    assert_eq!(e.message, "Type not allowed to be moved across threads!: PortV");
    let m = SteelVal::HashMapV(Rc::new(vec![
        (SteelVal::IntV(1), SteelVal::StreamV(Handle { addr: 3 })),
        (SteelVal::ReducerV(Handle { addr: 4 }), SteelVal::IntV(2)),
    ]));
    let e = err_of(into_serializable_value(m));
    assert_eq!(e.message, "Type not allowed to be moved across threads!: StreamV");
}

#[test]
fn iterator_over_an_empty_container_is_exhausted_at_once() {
    let args = vec![value_into_iterator(SteelVal::VectorV(Rc::new(vec![])))];
    assert!(iterator_next(&args).unwrap() == SteelVal::Void);
    let args = vec![value_into_iterator(SteelVal::HashSetV(Rc::new(vec![SteelVal::IntV(4)])))];
    assert!(iterator_next(&args).unwrap() == SteelVal::IntV(4));
    assert!(iterator_next(&args).unwrap() == SteelVal::Void);
}

#[test]
fn conversion_error_names_the_variant() {
    let e = Syntax::steelval_to_exprkind(&SteelVal::PortV(Handle { addr: 1 })).unwrap_err();
    assert_eq!(e.message, "unable to convert PortV to expression");
}

#[test]
fn conversion_error_names_the_first_failing_element() {
    let v = list(vec![
        SteelVal::IntV(1),
        SteelVal::PortV(Handle { addr: 1 }),
        SteelVal::Void,
    ]);
    let e = Syntax::steelval_to_exprkind(&v).unwrap_err();
    assert_eq!(e.message, "unable to convert PortV to expression");
    let inner = SteelVal::SyntaxObject(Rc::new(Syntax::new(SteelVal::FuncV(Handle { addr: 2 }), span(1, 2))));
    let e = Syntax::new(inner, span(0, 3)).to_exprkind().unwrap_err();
    assert_eq!(e.kind, ErrorKind::ConversionError);
    assert_eq!(e.message, "unable to convert FuncV to expression");
    let mut visitor = TryFromSteelValVisitorForExprKind::new();
    let e = visitor.visit(&v).unwrap_err();
    assert_eq!(e.message, "unable to convert PortV to expression");
}

#[test]
fn foreign_record_check_and_mismatch_message() {
    let f = SteelVal::Custom(Rc::new(foreign(false)));
    assert_eq!(steel_values::foreign_record(&f, "Counter").unwrap().addr, 42);
    let e = err_of(steel_values::foreign_record(&SteelVal::IntV(3), "Counter"));
    assert_eq!(e.kind, ErrorKind::ConversionError);
    assert_eq!(e.message, "Type Mismatch: Type of SteelVal: IntV did not match the given type: Counter");
}

#[test]
fn list_payload_is_borrowed_in_place() {
    let l = list(vec![SteelVal::IntV(1), SteelVal::IntV(2)]);
    match steel_values::convert::list_ref(&l) {
        Ok(steel_values::SRef::Temporary(items)) => assert_eq!(items.len(), 2),
        _ => panic!("a list borrows as its elements"),
    }
    let e = err_of(steel_values::convert::list_ref(&SteelVal::Void));
    assert_eq!(e.kind, ErrorKind::TypeMismatch);
}
