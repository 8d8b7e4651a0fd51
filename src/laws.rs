//! Facts that relate the store's operations and the retrieval policy.
use vstd::prelude::*;
use crate::codec::{bcs_accepts, bcs_reencoded, reserialized_text};
use crate::field_reader::{sequence_field, sequence_field_of_text};
use crate::hex_codec::{
    ascii_lower, ascii_upper, decoded, encoded, has_hex_prefix, lemma_hex_decode_case_insensitive,
    lemma_hex_round_trip, lemma_hex_text_digits,
};
use crate::retrieval::{policy_result, Observation};
use crate::store::{after_attach, after_store, fresh_record, RecordView};

verus! {

/// Storing text under an identifier and then retrieving it in pass-through
/// mode hands back exactly that text.
pub proof fn lemma_store_then_pass_through(
    m: Map<Seq<char>, RecordView>,
    id: Seq<char>,
    raw: Seq<char>,
    now: u64,
    out: Seq<char>,
    obs: Observation,
)
    requires
        policy_result(false, after_store(m, id, raw, now)[id].raw_bcs_hex, out, obs),
    ensures
        after_store(m, id, raw, now).contains_key(id),
        out == raw,
        obs == Observation::PassedThrough,
{
}

/// A freshly stored record has no signature; once one is attached, it is the
/// one retrieved, and the stored text stays as it was.
pub proof fn lemma_attached_signature_is_kept(
    m: Map<Seq<char>, RecordView>,
    id: Seq<char>,
    raw: Seq<char>,
    now: u64,
    sig: Seq<char>,
)
    ensures
        after_store(m, id, raw, now)[id].secondary_signature_hex is None,
        after_attach(after_store(m, id, raw, now), id, sig).contains_key(id),
        after_attach(after_store(m, id, raw, now), id, sig)[id].secondary_signature_hex == Some(sig),
        after_attach(after_store(m, id, raw, now), id, sig)[id].raw_bcs_hex == raw,
{
}

/// In reserialize mode, when the stored text does not decode (as hexadecimal,
/// or then as a transaction), the stored text is handed back unchanged and
/// the failure shows in the observation.
pub proof fn lemma_failed_round_trip_falls_back(raw: Seq<char>, out: Seq<char>, obs: Observation)
    requires
        policy_result(true, raw, out, obs),
        match decoded(raw) {
            Some(b) => !bcs_accepts(b),
            None => true,
        },
    ensures
        out == raw,
        obs is Failed,
{
}

/// Storing or attaching under one identifier leaves every other identifier's
/// record as it was, present or absent.
pub proof fn lemma_identifiers_are_isolated(
    m: Map<Seq<char>, RecordView>,
    id: Seq<char>,
    other: Seq<char>,
    raw: Seq<char>,
    now: u64,
    sig: Seq<char>,
)
    requires
        id != other,
    ensures
        after_store(m, id, raw, now).contains_key(other) == m.contains_key(other),
        after_attach(m, id, sig).contains_key(other) == m.contains_key(other),
        m.contains_key(other) ==> after_store(m, id, raw, now)[other] == m[other],
        m.contains_key(other) ==> after_attach(m, id, sig)[other] == m[other],
{
}

/// Storing again under an identifier replaces the record whole: a signature
/// attached to the earlier record is gone.
pub proof fn lemma_overwrite_drops_signature(
    m: Map<Seq<char>, RecordView>,
    id: Seq<char>,
    raw: Seq<char>,
    now: u64,
    sig: Seq<char>,
    new_raw: Seq<char>,
    new_now: u64,
)
    ensures
        after_store(after_attach(after_store(m, id, raw, now), id, sig), id, new_raw, new_now)[id]
            == fresh_record(new_raw, new_now),
        after_store(after_attach(after_store(m, id, raw, now), id, sig), id, new_raw, new_now)[id].secondary_signature_hex is None,
{
}

proof fn lemma_encoded_prefix(b: Seq<u8>, prefix: bool)
    ensures
        has_hex_prefix(encoded(b, prefix)) == prefix,
{
    lemma_hex_text_digits(b);
}

proof fn lemma_case_keeps_prefix(s: Seq<char>)
    ensures
        has_hex_prefix(s.map_values(|c: char| ascii_upper(c))) == has_hex_prefix(s),
        has_hex_prefix(s.map_values(|c: char| ascii_lower(c))) == has_hex_prefix(s),
{
}

/// A round trip gives the same result whatever the case of the digits (and
/// of the marker) in the stored text.
pub proof fn lemma_reserialize_ignores_case(t: Seq<char>)
    ensures
        reserialized_text(t.map_values(|c: char| ascii_upper(c))) == reserialized_text(t),
        reserialized_text(t.map_values(|c: char| ascii_lower(c))) == reserialized_text(t),
{
    lemma_hex_decode_case_insensitive(t);
    lemma_case_keeps_prefix(t);
}

/// Where the codec re-encodes bytes to themselves, a round trip on their
/// encoding, with or without the marker, gives that very text back.
pub proof fn lemma_reserialize_lossless(b: Seq<u8>, prefix: bool)
    requires
        bcs_accepts(b),
        bcs_reencoded(b) == Some(b),
    ensures
        reserialized_text(encoded(b, prefix)) == Some(encoded(b, prefix)),
{
    lemma_hex_round_trip(b, prefix);
    lemma_encoded_prefix(b, prefix);
}

/// Where the codec is canonical on the re-encoded bytes (they re-encode to
/// themselves), a second round trip changes nothing.
pub proof fn lemma_second_reserialize_is_stable(t: Seq<char>)
    requires
        reserialized_text(t) is Some,
        bcs_accepts(bcs_reencoded(decoded(t).unwrap()).unwrap()),
        bcs_reencoded(bcs_reencoded(decoded(t).unwrap()).unwrap()) == bcs_reencoded(decoded(t).unwrap()),
    ensures
        reserialized_text(reserialized_text(t).unwrap()) == reserialized_text(t),
{
    let o = bcs_reencoded(decoded(t).unwrap()).unwrap();
    lemma_reserialize_lossless(o, has_hex_prefix(t));
}

/// Where the codec keeps the sequence number, the text a round trip gives
/// carries the same sequence number as the stored text.
pub proof fn lemma_reserialize_keeps_sequence_number(t: Seq<char>)
    requires
        reserialized_text(t) is Some,
        sequence_field(bcs_reencoded(decoded(t).unwrap()).unwrap()) == sequence_field(decoded(t).unwrap()),
    ensures
        sequence_field_of_text(reserialized_text(t).unwrap()) == sequence_field_of_text(t),
{
    let o = bcs_reencoded(decoded(t).unwrap()).unwrap();
    lemma_hex_round_trip(o, has_hex_prefix(t));
}

} // verus!
