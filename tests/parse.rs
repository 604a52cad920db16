use dcc_wasm::{parse, CborValue, ParsingResultBuilder, TrustStore};

const TEST_DCC: &str = "6BFOXN*TS0BI$ZD-PHQ7I9AD66V5B22CH9M9ESI9XBHXK-%69LQOGI.*V76GCV4*XUA2P-FHT-HNTI4L6N$Q%UG/YL WO*Z7ON15 BM0VM.JQ$F4W17PG4.VAS5EG4V*BRL0K-RDY5RWOOH6PO9:TUQJAJG9-*NIRICVELZUZM9EN9-O9:PICIG805CZKHKB-43.E3KD3OAJ6*K6ZCY73JC3KD3ZQTWD3E.KLC8M3LP-89B9K+KB2KK3M*EDZI9$JAQJKKIJX2MM+GWHKSKE MCAOI8%MCU5VTQDPIMQK9*O7%NC.UTWA6QK.-T3-SY$NCU5CIQ 52744E09TBOC.UKMI$8R+1A7CPFRMLNKNM8JI0JPGN:0K7OOBRLY667SYHJL9B7VPO:SWLH1/S4KQQK0$5REQT5RN1FR%SHPLRKWJO8LQ84EBC$-P4A0V1BBR5XWB3OCGEK:$8HHOLQOZUJ*30Q8CD1";

#[test]
fn it_is_valid() {
    assert_eq!(parse(TEST_DCC, &TrustStore::new()).successful, true)
}

#[test]
fn it_ignores_the_header() {
    assert!(parse(&format!("HC1:{}", TEST_DCC), &TrustStore::new()).successful)
}

#[test]
fn invalid_dcc_returns_false() {
    assert_eq!(parse("some_invalid_data", &TrustStore::new()).successful, false)
}

#[test]
fn invalid_dcc_returns_error_msg() {
    let result = parse("some_invalid_data", &TrustStore::new());
    assert!(result.error.len() > 0);
    assert!(result.error.starts_with("Couldn't parse COSE message: Error on base45 decode: "));
    assert_eq!(result.data, None);
    assert_eq!(result.signature_valid, false);
    assert_eq!(result.kid, "");
    assert_eq!(result.algorithm, 0);
}

#[test]
fn unknown_issuer_keeps_the_data() {
    let mut store = TrustStore::new();
    store.add("AAAAAAAAAAA=".to_string(), "MIIB".to_string());
    let result = parse(TEST_DCC, &store);
    assert!(result.successful);
    assert!(!result.signature_valid);
    assert_eq!(result.kid, "DEsVUSvpFAE=");
    assert_eq!(result.algorithm, -7);
    assert_eq!(result.error, "No public certificate known for issuer with kid DEsVUSvpFAE=");
    assert!(matches!(result.data, Some(CborValue::Entries(_))));
}

#[test]
fn bad_issuer_certificate_is_a_signature_error() {
    let mut store = TrustStore::new();
    store.add("DEsVUSvpFAE=".to_string(), "not base64!".to_string());
    let result = parse(TEST_DCC, &store);
    assert!(result.successful);
    assert!(!result.signature_valid);
    assert!(result.error.starts_with("Error on base64 decoding issuer cert: "));
    assert!(result.data.is_some());

    let mut store = TrustStore::new();
    store.add("DEsVUSvpFAE=".to_string(), "AAAA".to_string());
    let result = parse(TEST_DCC, &store);
    assert!(result.successful);
    assert!(!result.signature_valid);
    assert!(result.error.starts_with("Couldn't load issuer cert: "), "{}", result.error);
}

#[test]
fn parse_is_idempotent() {
    let store = TrustStore::new();
    let a = parse(TEST_DCC, &store);
    let b = parse(TEST_DCC, &store);
    assert_eq!(a.successful, b.successful);
    assert_eq!(a.error, b.error);
    assert_eq!(a.data, b.data);
    assert_eq!(a.kid, b.kid);
    assert_eq!(a.algorithm, b.algorithm);
    assert_eq!(a.signature_valid, b.signature_valid);
}

#[test]
fn trust_store_finds_first_entry() {
    let mut store = TrustStore::new();
    assert_eq!(store.find_issuer_cert("k"), None);
    store.add("k".to_string(), "one".to_string());
    store.add("k".to_string(), "two".to_string());
    store.add("j".to_string(), "three".to_string());
    assert_eq!(store.find_issuer_cert("k").map(|s| s.as_str()), Some("one"));
    assert_eq!(store.find_issuer_cert("j").map(|s| s.as_str()), Some("three"));
    assert_eq!(store.find_issuer_cert("x"), None);
}

#[test]
fn builder_steps() {
    let result = ParsingResultBuilder::new().build();
    assert!(!result.successful && !result.signature_valid && result.error.is_empty());
    let result = ParsingResultBuilder::new()
        .success()
        .kid("abc")
        .alg(-7)
        .data(CborValue::Integer(3))
        .signature_valid(true)
        .build();
    assert!(result.successful && result.signature_valid);
    assert_eq!(result.kid, "abc");
    assert_eq!(result.algorithm, -7);
    assert_eq!(result.data, Some(CborValue::Integer(3)));
    let result = ParsingResultBuilder::new().success().signature_valid(true).signature_error("bad").build();
    assert!(result.successful && !result.signature_valid);
    assert_eq!(result.error, "bad");
    let result = ParsingResultBuilder::new().success().fail_with_error("broken").build();
    assert!(!result.successful);
    assert_eq!(result.error, "broken");
}
