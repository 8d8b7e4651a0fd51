//! Which bytes a retrieval hands back: the stored text as it is, or the text
//! after a decode / re-encode round trip, with what the round trip showed.
use vstd::prelude::*;
use crate::codec::{bcs_accepts, bcs_reencoded, try_reserialize, CodecError, ReserializeError};
use crate::hex_codec::{decoded, encoded, has_hex_prefix};

verus! {

/// What a retrieval observed of the round trip. It never fails a retrieval.
#[derive(Debug, Clone, Copy, PartialEq, Eq)]
pub enum Observation {
    /// No round trip was made: the stored text was handed back.
    PassedThrough,
    /// The round trip gave back the stored text exactly.
    Unchanged,
    /// The round trip gave other text (lengths in characters); that text is handed back.
    Changed { original_len: usize, new_len: usize },
    /// The round trip failed; the stored text is handed back.
    Failed(ReserializeError),
}

/// What a retrieval owes for stored text `raw`: `out` is the text handed back
/// and `obs` what was observed. Pass-through mode (`reserialize` false) hands
/// `raw` back. Reserialize mode hands back the hexadecimal of the re-encoded
/// bytes (marker kept), noting whether it differs from `raw`; where decoding the
/// text, decoding the transaction or encoding it fails, it hands `raw` back and
/// notes that step's failure.
pub open spec fn policy_result(reserialize: bool, raw: Seq<char>, out: Seq<char>, obs: Observation) -> bool {
    if !reserialize {
        out == raw && obs == Observation::PassedThrough
    } else {
        match decoded(raw) {
            None => out == raw && obs == Observation::Failed(ReserializeError::Hex),
            Some(b) => if !bcs_accepts(b) {
                out == raw && obs == Observation::Failed(ReserializeError::Codec(CodecError::Decode))
            } else {
                match bcs_reencoded(b) {
                    None => out == raw && obs == Observation::Failed(
                        ReserializeError::Codec(CodecError::Encode),
                    ),
                    Some(o) => {
                        &&& out == encoded(o, has_hex_prefix(raw))
                        &&& if out == raw {
                            obs == Observation::Unchanged
                        } else {
                            match obs {
                                Observation::Changed { original_len, new_len } => original_len
                                    == raw.len() && new_len == out.len(),
                                _ => false,
                            }
                        }
                    },
                }
            },
        }
    }
}

/// Picks the text to hand back from the outcome of a round trip on `original`:
/// the new text on success, noting whether it differs; the original on failure.
pub fn choose_output(original: &String, outcome: Result<String, ReserializeError>) -> (r: (String, Observation))
    ensures
        match outcome {
            Ok(s) => r.0@ == s@ && if s@ == original@ {
                r.1 == Observation::Unchanged
            } else {
                match r.1 {
                    Observation::Changed { original_len, new_len } => original_len == original@.len()
                        && new_len == s@.len(),
                    _ => false,
                }
            },
            Err(e) => r.0@ == original@ && r.1 == Observation::Failed(e),
        },
{
    match outcome {
        Ok(s) => {
            if s == *original {
                (s, Observation::Unchanged)
            } else {
                let original_len = original.as_str().unicode_len();
                let new_len = s.as_str().unicode_len();
                (s, Observation::Changed { original_len, new_len })
            }
        },
        Err(e) => (original.clone(), Observation::Failed(e)),
    }
}

/// The text to hand back for stored text `raw` under the given mode, and what was observed.
pub fn output_for(reserialize: bool, raw: &String) -> (r: (String, Observation))
    ensures
        policy_result(reserialize, raw@, r.0@, r.1),
{
    if !reserialize {
        (raw.clone(), Observation::PassedThrough)
    } else {
        let outcome = try_reserialize(raw.as_str());
        choose_output(raw, outcome)
    }
}

} // verus!
