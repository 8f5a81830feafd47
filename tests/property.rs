use pg_syntax_kinds::property::{PropertyError, TokenProperty};
use pg_syntax_kinds::registry::SyntaxKind;

#[test]
fn both_parts_absent_is_refused() {
    assert_eq!(TokenProperty::new(None, None).unwrap_err(), PropertyError::Empty);
    assert!(TokenProperty::new(Some("x".to_string()), None).is_ok());
    assert!(TokenProperty::new(None, Some(SyntaxKind { code: 3 })).is_ok());
    let both = TokenProperty::new(Some("x".to_string()), Some(SyntaxKind { code: 3 })).unwrap();
    assert_eq!(both.value.as_deref(), Some("x"));
    assert_eq!(both.kind, Some(SyntaxKind { code: 3 }));
}

#[test]
fn numbers_spell_in_decimal() {
    assert_eq!(TokenProperty::from_i32(-42).value.as_deref(), Some("-42"));
    assert_eq!(TokenProperty::from_i32(0).value.as_deref(), Some("0"));
    assert_eq!(TokenProperty::from_u32(4000000000).value.as_deref(), Some("4000000000"));
    assert_eq!(TokenProperty::from_i64(i64::MIN).value.as_deref(), Some("-9223372036854775808"));
    assert_eq!(TokenProperty::from_u64(u64::MAX).value.as_deref(), Some("18446744073709551615"));
    assert_eq!(TokenProperty::from_i32(7).kind, None);
}

#[test]
fn booleans_spell_as_words() {
    assert_eq!(TokenProperty::from_bool(true).value.as_deref(), Some("true"));
    assert_eq!(TokenProperty::from_bool(false).value.as_deref(), Some("false"));
}

#[test]
fn text_is_lower_cased_and_must_not_be_empty() {
    let p = TokenProperty::from_text("Foo".to_string()).unwrap();
    assert_eq!(p.value.as_deref(), Some("foo"));
    assert_eq!(p.kind, None);
    assert_eq!(TokenProperty::from_text(String::new()).unwrap_err(), PropertyError::EmptyText);
}

#[test]
fn kind_only_property() {
    let p = TokenProperty::from_kind(SyntaxKind { code: 9 });
    assert_eq!(p.value, None);
    assert_eq!(p.kind, Some(SyntaxKind { code: 9 }));
}

#[test]
fn equality_is_structural() {
    let a = TokenProperty::new(Some("x".to_string()), Some(SyntaxKind { code: 1 })).unwrap();
    let b = TokenProperty::new(Some("x".to_string()), Some(SyntaxKind { code: 1 })).unwrap();
    let c = TokenProperty::new(Some("x".to_string()), Some(SyntaxKind { code: 1 })).unwrap();
    assert_eq!(a, a);
    assert_eq!(a, b);
    assert_eq!(b, a);
    assert_eq!(b, c);
    assert_eq!(a, c);
    assert_ne!(a, TokenProperty::new(Some("x".to_string()), Some(SyntaxKind { code: 2 })).unwrap());
    assert_ne!(a, TokenProperty::new(Some("y".to_string()), Some(SyntaxKind { code: 1 })).unwrap());
    assert_ne!(a, TokenProperty::new(None, Some(SyntaxKind { code: 1 })).unwrap());
}
