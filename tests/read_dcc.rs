use dcc_wasm::{base64_encode, cbor_decode, read_dcc, CborValue};

const TEST_DCC: &str = "6BFOXN*TS0BI$ZD-PHQ7I9AD66V5B22CH9M9ESI9XBHXK-%69LQOGI.*V76GCV4*XUA2P-FHT-HNTI4L6N$Q%UG/YL WO*Z7ON15 BM0VM.JQ$F4W17PG4.VAS5EG4V*BRL0K-RDY5RWOOH6PO9:TUQJAJG9-*NIRICVELZUZM9EN9-O9:PICIG805CZKHKB-43.E3KD3OAJ6*K6ZCY73JC3KD3ZQTWD3E.KLC8M3LP-89B9K+KB2KK3M*EDZI9$JAQJKKIJX2MM+GWHKSKE MCAOI8%MCU5VTQDPIMQK9*O7%NC.UTWA6QK.-T3-SY$NCU5CIQ 52744E09TBOC.UKMI$8R+1A7CPFRMLNKNM8JI0JPGN:0K7OOBRLY667SYHJL9B7VPO:SWLH1/S4KQQK0$5REQT5RN1FR%SHPLRKWJO8LQ84EBC$-P4A0V1BBR5XWB3OCGEK:$8HHOLQOZUJ*30Q8CD1";

#[test]
fn it_parses() {
    assert_eq!(read_dcc(TEST_DCC).is_ok(), true);
}

#[test]
fn it_reads_kid() {
    assert_eq!(read_dcc(TEST_DCC).unwrap().kid(), Some(String::from("DEsVUSvpFAE=")))
}

#[test]
fn it_reads_alg() {
    assert_eq!(read_dcc(TEST_DCC).unwrap().alg(), Some(-7))
}

#[test]
fn it_strips_the_prefix() {
    let with_prefix = format!("HC1:{}", TEST_DCC);
    assert_eq!(read_dcc(&with_prefix).unwrap().alg(), Some(-7));
}

#[test]
fn it_reports_base45_errors() {
    let err = read_dcc("some_invalid_data").err().unwrap();
    assert!(err.starts_with("Error on base45 decode: "));
}

#[test]
fn it_reports_zlib_errors() {
    // "AB" in base45 is one byte that starts no zlib stream.
    let err = read_dcc("AB").err().unwrap();
    assert!(err.starts_with("Error on zlib decompressing: "), "{}", err);
}

#[test]
fn it_reads_the_payload() {
    let cose = read_dcc(TEST_DCC).unwrap();
    match cose.payload() {
        CborValue::Entries(entries) => {
            let issuer = entries.iter().find(|(k, _)| *k == CborValue::Integer(1)).map(|e| &e.1);
            assert_eq!(issuer, Some(&CborValue::Text("DE".to_string())));
        }
        other => panic!("payload is no map: {:?}", other),
    }
}

#[test]
fn cbor_decode_reads_items() {
    assert_eq!(cbor_decode(&[0x26]), Some(CborValue::Integer(-7)));
    assert_eq!(cbor_decode(&[0x43, 1, 2, 3]), Some(CborValue::Bytes(vec![1, 2, 3])));
    assert_eq!(cbor_decode(&[0xf6]), Some(CborValue::Null));
    assert_eq!(
        cbor_decode(&[0xd2, 0x81, 0x01]),
        Some(CborValue::Tag(18, Box::new(CborValue::Array(vec![CborValue::Integer(1)]))))
    );
    assert_eq!(
        cbor_decode(&[0xa1, 0x01, 0x61, 0x61]),
        Some(CborValue::Entries(vec![(CborValue::Integer(1), CborValue::Text("a".to_string()))]))
    );
    assert_eq!(cbor_decode(&[0xff]), None);
}

#[test]
fn base64_encode_pads() {
    assert_eq!(base64_encode(&[0x0c, 0x4b, 0x15, 0x51, 0x2b, 0xe9, 0x14, 0x01]), "DEsVUSvpFAE=");
    assert_eq!(base64_encode(&[]), "");
    assert_eq!(base64_encode(&[0xfb, 0xff]), "+/8=");
}
