use std::rc::Rc;
use steel_values::{ErrorKind, SteelErr, SteelString, SteelVal};

fn test_error() -> SteelErr {
    SteelErr::new(ErrorKind::Generic, "test".to_string())
}

fn text(s: &str) -> SteelString {
    SteelString::from(s.to_string())
}

#[test]
fn check_size_of_steelval() {
    assert_eq!(std::mem::size_of::<SteelVal>(), 16);
}

#[test]
fn bool_or_else_test_good() {
    let input = SteelVal::BoolV(true);
    assert_eq!(input.bool_or_else(test_error).unwrap(), true);
}

#[test]
fn bool_or_else_test_bad() {
    let input = SteelVal::CharV('f');
    assert!(input.bool_or_else(test_error).is_err());
}

#[test]
fn num_or_else_test_good() {
    let input = SteelVal::NumV(10.0f64.to_bits());
    assert_eq!(f64::from_bits(input.num_or_else(test_error).unwrap()), 10.0);
}

#[test]
fn num_or_else_test_bad() {
    let input = SteelVal::CharV('f');
    assert!(input.num_or_else(test_error).is_err());
}

#[test]
fn char_or_else_test_good() {
    let input = SteelVal::CharV('f');
    assert_eq!(input.char_or_else(test_error).unwrap(), 'f');
}

#[test]
fn char_or_else_test_bad() {
    let input = SteelVal::NumV(10.0f64.to_bits());
    assert!(input.char_or_else(test_error).is_err());
}

#[test]
fn vector_or_else_test_good() {
    let input = SteelVal::VectorV(Rc::new(vec![SteelVal::IntV(1)]));
    assert!(*input.vector_or_else(test_error).unwrap() == vec![SteelVal::IntV(1)]);
}

#[test]
fn vector_or_else_bad() {
    let input = SteelVal::CharV('f');
    assert!(input.vector_or_else(test_error).is_err());
}

#[test]
fn void_or_else_test_good() {
    let input = SteelVal::Void;
    assert_eq!(input.void_or_else(test_error).unwrap(), ())
}

#[test]
fn void_or_else_test_bad() {
    let input = SteelVal::StringV(text("foo"));
    assert!(input.void_or_else(test_error).is_err());
}

#[test]
fn string_or_else_test_good() {
    let input = SteelVal::StringV(text("foo"));
    assert_eq!(input.string_or_else(test_error).unwrap(), "foo".to_string());
}

#[test]
fn string_or_else_test_bad() {
    let input = SteelVal::Void;
    assert!(input.string_or_else(test_error).is_err())
}

#[test]
fn symbol_or_else_test_good() {
    let input = SteelVal::SymbolV(text("foo"));
    assert_eq!(input.symbol_or_else(test_error).unwrap(), "foo".to_string());
}

#[test]
fn symbol_or_else_test_bad() {
    let input = SteelVal::Void;
    assert!(input.symbol_or_else(test_error).is_err())
}

#[test]
fn or_else_error_is_the_callers() {
    let input = SteelVal::Void;
    let e = input.int_or_else(test_error).unwrap_err();
    assert_eq!(e.kind, ErrorKind::Generic);
    assert_eq!(e.message, "test");
}

#[test]
fn narrowing_accessors_find_own_variant_only() {
    assert_eq!(SteelVal::IntV(5).as_isize(), Some(5));
    assert_eq!(SteelVal::BoolV(true).as_isize(), None);
    assert_eq!(SteelVal::IntV(7).as_usize(), Some(7));
    assert_eq!(SteelVal::IntV(-7).as_usize(), None);
    assert_eq!(SteelVal::BoolV(false).as_bool(), Some(false));
    assert_eq!(SteelVal::IntV(0).as_bool(), None);
    assert_eq!(SteelVal::StringV(text("a")).as_string().map(|s| s.as_str().to_string()), Some("a".to_string()));
    assert!(SteelVal::SymbolV(text("a")).as_string().is_none());
    assert!(SteelVal::SymbolV(text("a")).as_symbol().is_some());
    assert!(SteelVal::StringV(text("a")).as_symbol().is_none());
    let l = SteelVal::ListV(Rc::new(vec![SteelVal::IntV(1)]));
    assert_eq!(l.list().map(|v| v.len()), Some(1));
    assert!(SteelVal::Void.list().is_none());
    assert_eq!(SteelVal::Void.clone_symbol_or_else(test_error).is_err(), true);
    assert_eq!(SteelVal::SymbolV(text("sym")).clone_symbol_or_else(test_error).unwrap(), "sym");
}
