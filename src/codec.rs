//! The decode / re-encode round trip of a multi-agent transaction through its
//! BCS codec, on hexadecimal text.
use vstd::prelude::*;
use aptos_sdk::aptos_bcs;
use aptos_sdk::transaction::types::MultiAgentRawTransaction;
use crate::hex_codec::{decoded, encoded, has_hex_prefix, hex_decode, hex_encode, starts_with_hex_prefix};

verus! {

#[verifier::external_type_specification]
#[verifier::external_body]
pub struct ExMultiAgentRawTransaction(MultiAgentRawTransaction);

#[verifier::external_type_specification]
#[verifier::external_body]
pub struct ExBcsError(aptos_bcs::Error);

/// Whether `b` is, in full, the BCS encoding of a multi-agent transaction.
pub uninterp spec fn bcs_accepts(b: Seq<u8>) -> bool;

/// The BCS bytes of the transaction decoded from `b`, or `None` where encoding it fails.
pub uninterp spec fn bcs_reencoded(b: Seq<u8>) -> Option<Seq<u8>>;

/// A multi-agent transaction together with the bytes it was decoded from.
pub struct DecodedTransaction {
    tx: MultiAgentRawTransaction,
    source: Ghost<Seq<u8>>,
}

impl DecodedTransaction {
    /// The bytes this transaction was decoded from.
    pub closed spec fn source(&self) -> Seq<u8> {
        self.source@
    }

    /// The decoded transaction.
    pub fn transaction(&self) -> &MultiAgentRawTransaction {
        &self.tx
    }
}

/// Relies on aptos_bcs::from_bytes for `MultiAgentRawTransaction`: whether it
/// succeeds depends on the bytes alone.
#[verifier::external_body]
fn bcs_from_bytes(bytes: &[u8]) -> (r: Result<DecodedTransaction, aptos_bcs::Error>)
    ensures
        r is Ok <==> bcs_accepts(bytes@),
        r matches Ok(t) ==> t.source() == bytes@,
{
    match aptos_bcs::from_bytes::<MultiAgentRawTransaction>(bytes) {
        Ok(tx) => Ok(DecodedTransaction { tx, source: Ghost(bytes@) }),
        Err(e) => Err(e),
    }
}

/// Relies on aptos_bcs::to_bytes for `MultiAgentRawTransaction`: its result
/// depends on the transaction alone, which the bytes it came from fix.
#[verifier::external_body]
fn bcs_to_bytes(t: &DecodedTransaction) -> (r: Result<Vec<u8>, aptos_bcs::Error>)
    ensures
        match r {
            Ok(o) => bcs_reencoded(t.source()) == Some(o@),
            Err(_) => bcs_reencoded(t.source()) is None,
        },
{
    aptos_bcs::to_bytes(&t.tx)
}

/// The text a round trip gives for hexadecimal text `t`: the hexadecimal of the
/// re-encoded bytes, with the `0x` marker iff `t` had one; `None` where a step fails.
pub open spec fn reserialized_text(t: Seq<char>) -> Option<Seq<char>> {
    match decoded(t) {
        Some(b) => if bcs_accepts(b) {
            match bcs_reencoded(b) {
                Some(o) => Some(encoded(o, has_hex_prefix(t))),
                None => None,
            }
        } else {
            None
        },
        None => None,
    }
}

/// Why the codec failed.
#[derive(Debug, Clone, Copy, PartialEq, Eq)]
pub enum CodecError {
    /// The bytes are not a multi-agent transaction.
    Decode,
    /// The decoded transaction could not be encoded again.
    Encode,
}

/// Why a round trip on hexadecimal text failed.
#[derive(Debug, Clone, Copy, PartialEq, Eq)]
pub enum ReserializeError {
    /// The text is not valid hexadecimal.
    Hex,
    /// The codec failed on the decoded bytes.
    Codec(CodecError),
}

/// Decodes a multi-agent transaction from its BCS bytes.
pub fn decode_transaction(bytes: &[u8]) -> (r: Result<DecodedTransaction, CodecError>)
    ensures
        r is Ok <==> bcs_accepts(bytes@),
        r matches Ok(t) ==> t.source() == bytes@,
        r is Err ==> r == Err::<DecodedTransaction, CodecError>(CodecError::Decode),
{
    match bcs_from_bytes(bytes) {
        Ok(tx) => Ok(tx),
        Err(_) => Err(CodecError::Decode),
    }
}

/// Encodes a multi-agent transaction to its BCS bytes.
pub fn encode_transaction(tx: &DecodedTransaction) -> (r: Result<Vec<u8>, CodecError>)
    ensures
        match r {
            Ok(o) => bcs_reencoded(tx.source()) == Some(o@),
            Err(e) => bcs_reencoded(tx.source()) is None && e == CodecError::Encode,
        },
{
    match bcs_to_bytes(tx) {
        Ok(b) => Ok(b),
        Err(_) => Err(CodecError::Encode),
    }
}

/// Decodes hexadecimal text to bytes, decodes those as a transaction, encodes
/// it again and gives the new bytes as hexadecimal text, with the `0x` marker
/// iff the input had one.
pub fn try_reserialize(bcs_hex: &str) -> (r: Result<String, ReserializeError>)
    ensures
        r is Ok <==> (decoded(bcs_hex@) matches Some(b) && bcs_accepts(b) && bcs_reencoded(b) is Some),
        r is Ok <==> reserialized_text(bcs_hex@) is Some,
        r matches Ok(s) ==> reserialized_text(bcs_hex@) == Some(s@),
        r matches Ok(s) ==> s@ == encoded(
            bcs_reencoded(decoded(bcs_hex@).unwrap()).unwrap(),
            has_hex_prefix(bcs_hex@),
        ),
        decoded(bcs_hex@) is None <==> r == Err::<String, ReserializeError>(ReserializeError::Hex),
        decoded(bcs_hex@) matches Some(b) ==> (!bcs_accepts(b) <==> r == Err::<String, ReserializeError>(
            ReserializeError::Codec(CodecError::Decode),
        )),
        r == Err::<String, ReserializeError>(ReserializeError::Codec(CodecError::Encode)) <==> (
        decoded(bcs_hex@) matches Some(b) && bcs_accepts(b) && bcs_reencoded(b) is None),
{
    let has_prefix = starts_with_hex_prefix(bcs_hex);
    let bytes = match hex_decode(bcs_hex) {
        Ok(b) => b,
        Err(_) => return Err(ReserializeError::Hex),
    };
    let tx = match decode_transaction(bytes.as_slice()) {
        Ok(t) => t,
        Err(e) => return Err(ReserializeError::Codec(e)),
    };
    let out = match encode_transaction(&tx) {
        Ok(o) => o,
        Err(e) => return Err(ReserializeError::Codec(e)),
    };
    let text = hex_encode(out.as_slice(), has_prefix);
    Ok(text)
}

} // verus!
