//! The operations that requests reach: store a transaction, attach a
//! signature, retrieve a transaction. The mode is fixed when the state is made.
use vstd::prelude::*;
use crate::retrieval::{output_for, policy_result, Observation};
use crate::store::{
    after_attach, after_store, copy_opt_text, opt_text_view, recorded_sequence_number, RecordView,
    TransactionStore,
};

verus! {

/// Seconds from `stored_at` to `now`, zero if the clock reads earlier.
pub open spec fn elapsed_since(now: u64, stored_at: u64) -> u64 {
    if now >= stored_at {
        (now - stored_at) as u64
    } else {
        0
    }
}

/// Outcome of storing a transaction.
pub struct StoreTransactionResponse {
    pub success: bool,
    pub transaction_id: String,
    pub sequence_number: Option<u64>,
}

/// Outcome of attaching a signature.
pub struct StoreSignatureResponse {
    pub success: bool,
    pub transaction_id: String,
}

/// Outcome of a retrieval; on not-found every field but `success` is `None`.
pub struct GetTransactionResponse {
    pub success: bool,
    pub bcs_hex: Option<String>,
    pub secondary_signature_hex: Option<String>,
    pub sequence_number: Option<u64>,
    pub stored_at: Option<u64>,
    pub elapsed_seconds: Option<u64>,
    pub observation: Option<Observation>,
}

/// A retrieval that found nothing: no field is filled.
pub open spec fn is_not_found(r: GetTransactionResponse) -> bool {
    &&& !r.success
    &&& r.bcs_hex is None
    &&& r.secondary_signature_hex is None
    &&& r.sequence_number is None
    &&& r.stored_at is None
    &&& r.elapsed_seconds is None
    &&& r.observation is None
}

/// A retrieval of record `rec` at time `now` under the given mode.
pub open spec fn is_found(r: GetTransactionResponse, reserialize: bool, rec: RecordView, now: u64) -> bool {
    &&& r.success
    &&& r.bcs_hex is Some
    &&& r.observation is Some
    &&& policy_result(reserialize, rec.raw_bcs_hex, r.bcs_hex.unwrap()@, r.observation.unwrap())
    &&& opt_text_view(r.secondary_signature_hex) == rec.secondary_signature_hex
    &&& r.sequence_number == rec.sequence_number
    &&& r.stored_at == Some(rec.stored_at)
    &&& r.elapsed_seconds == Some(elapsed_since(now, rec.stored_at))
}

/// The records and the retrieval mode, fixed at creation.
pub struct AppState {
    transactions: TransactionStore,
    reserialize_mode: bool,
}

impl AppState {
    /// The store is well formed.
    pub closed spec fn wf(&self) -> bool {
        self.transactions.wf()
    }

    /// The records, by identifier.
    pub closed spec fn records(&self) -> Map<Seq<char>, RecordView> {
        self.transactions@
    }

    /// Whether retrievals make the decode / re-encode round trip.
    pub closed spec fn mode(&self) -> bool {
        self.reserialize_mode
    }

    /// No records, and the given mode for good.
    pub fn new(reserialize_mode: bool) -> (r: AppState)
        ensures
            r.wf(),
            r.records() == Map::<Seq<char>, RecordView>::empty(),
            r.mode() == reserialize_mode,
    {
        AppState { transactions: TransactionStore::new(), reserialize_mode }
    }

    pub fn reserialize_mode(&self) -> (r: bool)
        ensures
            r == self.mode(),
    {
        self.reserialize_mode
    }

    /// Stores `bcs_hex` under `transaction_id` at time `now`, replacing any
    /// record there. It always succeeds; text that is not valid hexadecimal is
    /// stored too, with no sequence number.
    pub fn store_transaction(&mut self, transaction_id: String, bcs_hex: String, now: u64) -> (r:
        StoreTransactionResponse)
        requires
            old(self).wf(),
        ensures
            final(self).wf(),
            final(self).mode() == old(self).mode(),
            final(self).records() == after_store(old(self).records(), transaction_id@, bcs_hex@, now),
            r.success,
            r.transaction_id@ == transaction_id@,
            r.sequence_number == recorded_sequence_number(bcs_hex@),
    {
        let echoed = transaction_id.clone();
        let sequence_number = self.transactions.store(transaction_id, bcs_hex, now);
        StoreTransactionResponse { success: true, transaction_id: echoed, sequence_number }
    }

    /// Attaches the secondary signer's signature to the record under
    /// `transaction_id`, replacing any earlier one; fails if there is no record.
    pub fn store_signature(&mut self, transaction_id: String, signature_hex: String) -> (r:
        StoreSignatureResponse)
        requires
            old(self).wf(),
        ensures
            final(self).wf(),
            final(self).mode() == old(self).mode(),
            final(self).records() == after_attach(old(self).records(), transaction_id@, signature_hex@),
            r.success <==> old(self).records().contains_key(transaction_id@),
            r.transaction_id@ == transaction_id@,
    {
        let result = self.transactions.attach_signature(&transaction_id, signature_hex);
        StoreSignatureResponse { success: result.is_ok(), transaction_id }
    }

    /// Retrieves the record under `transaction_id` at time `now`, its text
    /// handed back as the mode decides; not-found leaves every field empty.
    pub fn get_transaction(&self, transaction_id: &String, now: u64) -> (r: GetTransactionResponse)
        requires
            self.wf(),
        ensures
            !self.records().contains_key(transaction_id@) ==> is_not_found(r),
            self.records().contains_key(transaction_id@) ==> is_found(
                r,
                self.mode(),
                self.records()[transaction_id@],
                now,
            ),
    {
        match self.transactions.get(transaction_id) {
            Some(tx) => {
                let elapsed: u64 = if now >= tx.stored_at {
                    now - tx.stored_at
                } else {
                    0
                };
                let (bcs_hex, observation) = output_for(self.reserialize_mode, &tx.raw_bcs_hex);
                GetTransactionResponse {
                    success: true,
                    bcs_hex: Some(bcs_hex),
                    secondary_signature_hex: copy_opt_text(&tx.secondary_signature_hex),
                    sequence_number: tx.sequence_number,
                    stored_at: Some(tx.stored_at),
                    elapsed_seconds: Some(elapsed),
                    observation: Some(observation),
                }
            },
            None => GetTransactionResponse {
                success: false,
                bcs_hex: None,
                secondary_signature_hex: None,
                sequence_number: None,
                stored_at: None,
                elapsed_seconds: None,
                observation: None,
            },
        }
    }
}

} // verus!
