use repro_rust_backend::codec::{decode_transaction, try_reserialize, CodecError, ReserializeError};
use repro_rust_backend::field_reader::parse_sequence_number;
use repro_rust_backend::retrieval::{choose_output, output_for, Observation};
use repro_rust_backend::service::AppState;
use repro_rust_backend::store::{NotFound, TransactionStore};

fn to_hex(b: &[u8]) -> String {
    b.iter().map(|x| format!("{:02x}", x)).collect()
}

/// 32 zero bytes, the sequence number little-endian, then `extra` more bytes.
fn payload(seq: u64, extra: &[u8]) -> String {
    let mut b = vec![0u8; 32];
    b.extend_from_slice(&seq.to_le_bytes());
    b.extend_from_slice(extra);
    to_hex(&b)
}

/// A complete BCS multi-agent transaction: a one-byte script payload and one secondary signer.
fn multi_agent_bytes(seq: u64) -> Vec<u8> {
    let mut b = vec![0x22u8; 32];
    b.extend_from_slice(&seq.to_le_bytes());
    b.extend_from_slice(&[0x00, 0x01, 0xab, 0x00, 0x00]);
    b.extend_from_slice(&1000u64.to_le_bytes());
    b.extend_from_slice(&100u64.to_le_bytes());
    b.extend_from_slice(&1_700_000_000u64.to_le_bytes());
    b.push(4);
    b.push(1);
    b.extend_from_slice(&[0x11u8; 32]);
    b
}

#[test]
fn scenario_store_and_pass_through() {
    let mut st = AppState::new(false);
    let hex = payload(42, &[1, 2, 3, 4, 5, 6, 7, 8, 9, 10]);
    assert_eq!(hex.len(), 100);
    let r = st.store_transaction("tx1".to_string(), hex.clone(), 1000);
    assert!(r.success);
    assert_eq!(r.transaction_id, "tx1");
    assert_eq!(r.sequence_number, Some(42));
    let g = st.get_transaction(&"tx1".to_string(), 1000);
    assert!(g.success);
    assert_eq!(g.bcs_hex, Some(hex));
    assert_eq!(g.sequence_number, Some(42));
    assert_eq!(g.observation, Some(Observation::PassedThrough));

    let short = to_hex(&[9u8; 30]);
    let r2 = st.store_transaction("tx2".to_string(), short.clone(), 1000);
    assert_eq!(r2.sequence_number, None);
    let g2 = st.get_transaction(&"tx2".to_string(), 1001);
    assert_eq!(g2.bcs_hex, Some(short));
    assert_eq!(g2.sequence_number, None);
}

#[test]
fn pass_through_keeps_prefix_and_case() {
    let mut st = AppState::new(false);
    let hex = format!("0X{}", payload(7, &[]).to_uppercase());
    st.store_transaction("a".to_string(), hex.clone(), 0);
    assert_eq!(st.get_transaction(&"a".to_string(), 0).bcs_hex, Some(hex));
}

#[test]
fn signature_absent_until_attached() {
    let mut st = AppState::new(false);
    st.store_transaction("id".to_string(), payload(1, &[]), 10);
    assert_eq!(st.get_transaction(&"id".to_string(), 10).secondary_signature_hex, None);
    let s = st.store_signature("id".to_string(), "0xabcdef".to_string());
    assert!(s.success);
    assert_eq!(s.transaction_id, "id");
    let g = st.get_transaction(&"id".to_string(), 11);
    assert_eq!(g.secondary_signature_hex, Some("0xabcdef".to_string()));
    assert_eq!(g.bcs_hex, Some(payload(1, &[])));
}

#[test]
fn second_signature_replaces_first() {
    let mut st = AppState::new(false);
    st.store_transaction("id".to_string(), payload(1, &[]), 10);
    st.store_signature("id".to_string(), "01".to_string());
    st.store_signature("id".to_string(), "02".to_string());
    assert_eq!(st.get_transaction(&"id".to_string(), 10).secondary_signature_hex, Some("02".to_string()));
}

#[test]
fn signature_for_unknown_id_fails() {
    let mut st = AppState::new(false);
    let s = st.store_signature("missing".to_string(), "01".to_string());
    assert!(!s.success);
    assert_eq!(s.transaction_id, "missing");
    assert!(!st.get_transaction(&"missing".to_string(), 0).success);
}

#[test]
fn unknown_id_is_not_found_in_both_modes() {
    for mode in [false, true] {
        let mut st = AppState::new(mode);
        st.store_transaction("other".to_string(), payload(3, &[]), 5);
        let g = st.get_transaction(&"nope".to_string(), 6);
        assert!(!g.success);
        assert_eq!(g.bcs_hex, None);
        assert_eq!(g.secondary_signature_hex, None);
        assert_eq!(g.sequence_number, None);
        assert_eq!(g.stored_at, None);
        assert_eq!(g.elapsed_seconds, None);
        assert_eq!(g.observation, None);
    }
}

#[test]
fn reserialize_falls_back_on_non_transaction_bytes() {
    let mut st = AppState::new(true);
    let hex = payload(42, &[1, 2, 3]);
    st.store_transaction("tx".to_string(), hex.clone(), 0);
    let g = st.get_transaction(&"tx".to_string(), 0);
    assert!(g.success);
    assert_eq!(g.bcs_hex, Some(hex));
    assert_eq!(g.observation, Some(Observation::Failed(ReserializeError::Codec(CodecError::Decode))));
}

#[test]
fn reserialize_falls_back_on_invalid_hex() {
    let mut st = AppState::new(true);
    st.store_transaction("tx".to_string(), "xyz".to_string(), 0);
    let g = st.get_transaction(&"tx".to_string(), 0);
    assert!(g.success);
    assert_eq!(g.bcs_hex, Some("xyz".to_string()));
    assert_eq!(g.sequence_number, None);
    assert_eq!(g.observation, Some(Observation::Failed(ReserializeError::Hex)));
}

#[test]
fn reserialize_round_trip_unchanged() {
    let mut st = AppState::new(true);
    let hex = format!("0x{}", to_hex(&multi_agent_bytes(42)));
    let r = st.store_transaction("tx".to_string(), hex.clone(), 0);
    assert_eq!(r.sequence_number, Some(42));
    let g = st.get_transaction(&"tx".to_string(), 0);
    assert_eq!(g.bcs_hex, Some(hex));
    assert_eq!(g.observation, Some(Observation::Unchanged));
}

#[test]
fn reserialize_reports_changed_text() {
    let mut st = AppState::new(true);
    let lower = to_hex(&multi_agent_bytes(5));
    let upper = lower.to_uppercase();
    st.store_transaction("tx".to_string(), upper.clone(), 0);
    let g = st.get_transaction(&"tx".to_string(), 0);
    assert_eq!(g.bcs_hex, Some(lower.clone()));
    assert_eq!(
        g.observation,
        Some(Observation::Changed { original_len: upper.len(), new_len: lower.len() })
    );
}

#[test]
fn try_reserialize_outcomes() {
    let bytes = multi_agent_bytes(9);
    assert_eq!(try_reserialize(&to_hex(&bytes)), Ok(to_hex(&bytes)));
    assert_eq!(try_reserialize("0x0"), Err(ReserializeError::Hex));
    assert_eq!(try_reserialize("00"), Err(ReserializeError::Codec(CodecError::Decode)));
    let mut trailing = bytes.clone();
    trailing.push(0);
    assert_eq!(try_reserialize(&to_hex(&trailing)), Err(ReserializeError::Codec(CodecError::Decode)));
}

#[test]
fn decode_transaction_rejects_short_bytes() {
    assert!(decode_transaction(&[0u8; 40]).is_err());
    assert!(decode_transaction(&multi_agent_bytes(1)).is_ok());
}

#[test]
fn choose_output_cases() {
    let original = "0xab".to_string();
    assert_eq!(choose_output(&original, Ok("0xab".to_string())), ("0xab".to_string(), Observation::Unchanged));
    assert_eq!(
        choose_output(&original, Ok("0xabcd".to_string())),
        ("0xabcd".to_string(), Observation::Changed { original_len: 4, new_len: 6 })
    );
    assert_eq!(
        choose_output(&original, Err(ReserializeError::Hex)),
        ("0xab".to_string(), Observation::Failed(ReserializeError::Hex))
    );
}

#[test]
fn output_for_pass_through() {
    let raw = "zz".to_string();
    assert_eq!(output_for(false, &raw), ("zz".to_string(), Observation::PassedThrough));
}

#[test]
fn identifiers_are_isolated() {
    let mut st = AppState::new(false);
    let a = payload(1, &[0xaa]);
    let b = payload(2, &[0xbb]);
    st.store_transaction("a".to_string(), a.clone(), 1);
    st.store_transaction("b".to_string(), b.clone(), 2);
    st.store_signature("b".to_string(), "5151".to_string());
    let ga = st.get_transaction(&"a".to_string(), 3);
    let gb = st.get_transaction(&"b".to_string(), 3);
    assert_eq!(ga.bcs_hex, Some(a));
    assert_eq!(ga.sequence_number, Some(1));
    assert_eq!(ga.secondary_signature_hex, None);
    assert_eq!(ga.stored_at, Some(1));
    assert_eq!(gb.bcs_hex, Some(b));
    assert_eq!(gb.sequence_number, Some(2));
    assert_eq!(gb.secondary_signature_hex, Some("5151".to_string()));
}

#[test]
fn overwrite_drops_signature() {
    let mut st = AppState::new(false);
    st.store_transaction("id".to_string(), payload(1, &[]), 1);
    st.store_signature("id".to_string(), "abab".to_string());
    let r = st.store_transaction("id".to_string(), payload(2, &[]), 5);
    assert_eq!(r.sequence_number, Some(2));
    let g = st.get_transaction(&"id".to_string(), 9);
    assert_eq!(g.secondary_signature_hex, None);
    assert_eq!(g.bcs_hex, Some(payload(2, &[])));
    assert_eq!(g.sequence_number, Some(2));
    assert_eq!(g.stored_at, Some(5));
    assert_eq!(g.elapsed_seconds, Some(4));
}

#[test]
fn elapsed_saturates_when_clock_is_earlier() {
    let mut st = AppState::new(false);
    st.store_transaction("id".to_string(), payload(1, &[]), 100);
    assert_eq!(st.get_transaction(&"id".to_string(), 90).elapsed_seconds, Some(0));
    assert_eq!(st.get_transaction(&"id".to_string(), 130).elapsed_seconds, Some(30));
}

#[test]
fn store_keeps_invalid_hex() {
    let mut st = AppState::new(false);
    let r = st.store_transaction("id".to_string(), "not hex".to_string(), 0);
    assert!(r.success);
    assert_eq!(r.sequence_number, None);
    assert_eq!(st.get_transaction(&"id".to_string(), 0).bcs_hex, Some("not hex".to_string()));
}

#[test]
fn store_level_operations() {
    let mut s = TransactionStore::new();
    assert!(s.get(&"k".to_string()).is_none());
    assert_eq!(s.attach_signature(&"k".to_string(), "01".to_string()), Err(NotFound));
    assert_eq!(s.store("k".to_string(), payload(8, &[]), 3), Some(8));
    assert_eq!(s.attach_signature(&"k".to_string(), "01".to_string()), Ok(()));
    let t = s.get(&"k".to_string()).unwrap();
    assert_eq!(t.raw_bcs_hex, payload(8, &[]));
    assert_eq!(t.sequence_number, Some(8));
    assert_eq!(t.secondary_signature_hex, Some("01".to_string()));
    assert_eq!(t.stored_at, 3);
}

#[test]
fn reserialize_ignores_digit_case() {
    let lower = to_hex(&multi_agent_bytes(77));
    let upper = lower.to_uppercase();
    assert_eq!(try_reserialize(&upper), try_reserialize(&lower));
    assert_eq!(try_reserialize(&format!("0X{}", upper)), Ok(format!("0x{}", lower)));
}

#[test]
fn second_reserialize_changes_nothing() {
    let first = try_reserialize(&format!("0x{}", to_hex(&multi_agent_bytes(3)).to_uppercase())).unwrap();
    assert_eq!(try_reserialize(&first), Ok(first.clone()));
}

#[test]
fn reserialize_keeps_sequence_number() {
    let text = to_hex(&multi_agent_bytes(123_456_789));
    let out = try_reserialize(&text).unwrap();
    assert_eq!(parse_sequence_number(&out), Some(123_456_789));
    assert_eq!(parse_sequence_number(&out), parse_sequence_number(&text));
}

#[test]
fn decoded_transaction_exposes_fields() {
    let d = decode_transaction(&multi_agent_bytes(31)).unwrap();
    assert_eq!(d.transaction().raw_txn.sequence_number, 31);
    assert_eq!(d.transaction().secondary_signer_addresses.len(), 1);
}
