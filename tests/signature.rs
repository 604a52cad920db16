use dcc_wasm::{parse, CborValue, TrustStore};

/// A token signed with a test issuer key; its key identifier is DEsVUSvpFAE=.
const SIGNED: &str = "6BFU70V30FFWTWGSLKC 4*496M9YBA/KTB905 8*70HS827BF3D/-77DMW25RZPJOCMCQ55NT95DICFLEQSI87R R11CDDJJUK31YCKS1S+TX2U-WRBXN6NVO7U C90%DYPEF.KXNDP3PC+A.JCB55";

/// The same token with one bit of the signature flipped.
const TAMPERED: &str = "6BFU70V30FFWTWGSLKC 4*496M9YBA/KTB905 8*70HS827BF3D/-77DMW25RZPJOCMCQ55NT95DICFLEQSI87R R11CDDJJUK31YCKS1S+TX2U-WRBXN6NVO7U C90%DYPEF.KXNDP3PD+A/JCC55";

/// The self-signed certificate of the test issuer, base64 DER.
const ISSUER: &str = "MIIBGDCBv6ADAgECAgEBMAoGCCqGSM49BAMCMBYxFDASBgNVBAMMC1Rlc3QgSXNzdWVyMB4XDTIxMDEwMTAwMDAwMFoXDTMxMDEwMTAwMDAwMFowFjEUMBIGA1UEAwwLVGVzdCBJc3N1ZXIwWTATBgcqhkjOPQIBBggqhkjOPQMBBwNCAASfrYSurgi7738BABTYLO9qCd4rDPhxtc4MTx0TpZpZNAfLRXafEHDiwkcP5bG/5jEzwLDNxk6kvzeRqOwqB/1PMAoGCCqGSM49BAMCA0gAMEUCIB8OAKKgdelRS7IQCdLuUmm5AMh8P17mV3vIOaAZDmH8AiEA+a2fXIz6rb985IImvKO8qkK1PCrti9dRHLXIRd9DGJk=";

fn store() -> TrustStore {
    let mut store = TrustStore::new();
    store.add("AAAAAAAAAAA=".to_string(), "AAAA".to_string());
    store.add("DEsVUSvpFAE=".to_string(), ISSUER.to_string());
    store
}

#[test]
fn known_issuer_confirms_the_signature() {
    let result = parse(SIGNED, &store());
    assert!(result.successful);
    assert!(result.signature_valid, "{}", result.error);
    assert_eq!(result.error, "");
    assert_eq!(result.kid, "DEsVUSvpFAE=");
    assert_eq!(result.algorithm, -7);
    assert_eq!(
        result.data,
        Some(CborValue::Entries(vec![(CborValue::Integer(1), CborValue::Text("DE".to_string()))]))
    );
}

#[test]
fn prefixed_token_confirms_the_signature() {
    let result = parse(&format!("HC1:{}", SIGNED), &store());
    assert!(result.successful && result.signature_valid);
}

#[test]
fn tampered_signature_is_rejected() {
    let result = parse(TAMPERED, &store());
    assert!(result.successful);
    assert!(!result.signature_valid);
    assert!(result.error.starts_with("Error verifying signature: "), "{}", result.error);
    assert!(result.data.is_some());
}

#[test]
fn signature_needs_the_matching_issuer() {
    let mut other = TrustStore::new();
    other.add("AAAAAAAAAAA=".to_string(), ISSUER.to_string());
    let result = parse(SIGNED, &other);
    assert!(result.successful);
    assert!(!result.signature_valid);
    assert_eq!(result.error, "No public certificate known for issuer with kid DEsVUSvpFAE=");
}
