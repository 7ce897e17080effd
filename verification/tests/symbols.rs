use order_lifecycle::errors::ValidationError;
use order_lifecycle::identifiers::Symbol;

#[test]
fn test_symbol_validation() {
    assert!(Symbol::new_checked("AUD/USD").is_ok());
    assert_eq!(
        Symbol::new_checked(""),
        Err(ValidationError::IdentifierInvalid)
    );
    assert_eq!(
        Symbol::new_checked("caf\u{e9}"),
        Err(ValidationError::IdentifierInvalid)
    );
}

#[test]
fn test_symbol_composite_root_and_topic() {
    let plain = Symbol::new_checked("AUD/USD").unwrap();
    assert!(!plain.is_composite());
    assert_eq!(plain.root(), "AUD/USD");
    assert_eq!(plain.topic(), "AUD/USD");
    assert_eq!(plain.as_str(), "AUD/USD");
    assert_eq!(plain.text(), "AUD/USD".to_string());

    let composite = Symbol::new_checked("ES.FUT.CME").unwrap();
    assert!(composite.is_composite());
    assert_eq!(composite.root(), "ES");
    assert_eq!(composite.topic(), "ES.*");
}

#[test]
fn test_symbol_set_inner() {
    let mut s = Symbol::new_checked("OLD").unwrap();
    s.set_inner("NEW");
    assert_eq!(s.as_str(), "NEW");
    assert_eq!(s, Symbol::new("NEW".to_string()));
}
