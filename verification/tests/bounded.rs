use embedded_web_ui::bounded::{label_from_str, LABEL_CAPACITY};

#[test]
fn label_fits_capacity() {
    let text = "0123456789abcdef0123456789abcdef";
    assert_eq!(text.len(), LABEL_CAPACITY);
    let label = label_from_str(text).unwrap();
    assert_eq!(label.as_str(), text);
}

#[test]
fn label_too_long_is_refused() {
    assert!(label_from_str("0123456789abcdef0123456789abcdefX").is_none());
}

#[test]
fn label_counts_utf8_bytes() {
    // sixteen two-byte characters fill 32 bytes exactly
    let fits = "éééééééééééééééé";
    assert_eq!(label_from_str(fits).unwrap().as_str(), fits);
    // seventeen do not fit
    assert!(label_from_str("ééééééééééééééééé").is_none());
}

#[test]
fn empty_label() {
    assert_eq!(label_from_str("").unwrap().as_str(), "");
}
