use vstd::prelude::*;

use crate::coin::{
    combined_spec, count_some, empty_step, handle_message_spec, input_spec, state_wf,
    threshold_met, CoinState,
};
use crate::message::{CoinError, Fault, FaultKind};
use crate::network::index_in;
use crate::parity::parity_of;

verus! {

/// A share set holding a share at each of the strictly increasing positions `idx` counts at
/// least `idx.len()` shares.
pub proof fn lemma_count_at_least(s: Seq<Option<Seq<u8>>>, idx: Seq<int>)
    requires
        forall|j: int, k: int| 0 <= j < k < idx.len() ==> idx[j] < idx[k],
        forall|j: int| 0 <= j < idx.len() ==> 0 <= idx[j] < s.len() && s[idx[j]].is_some(),
    ensures
        count_some(s) >= idx.len(),
    decreases s.len(),
{
    if idx.len() > 0 {
        let last = s.len() - 1;
        if idx.last() == last {
            let rest = idx.drop_last();
            assert forall|j: int| 0 <= j < rest.len() implies 0 <= rest[j] < s.drop_last().len()
                && s.drop_last()[rest[j]].is_some() by {
                assert(rest[j] == idx[j] && idx[j] < idx[idx.len() - 1]);
            }
            lemma_count_at_least(s.drop_last(), rest);
        } else {
            assert forall|j: int| 0 <= j < idx.len() implies 0 <= idx[j] < s.drop_last().len()
                && s.drop_last()[idx[j]].is_some() by {
                if j < idx.len() - 1 {
                    assert(idx[j] < idx[idx.len() - 1]);
                }
            }
            lemma_count_at_least(s.drop_last(), idx);
        }
    }
}

/// Agreement: two participants' rounds for the same nonce that both decided agree on the bit,
/// given the uniqueness property of the threshold scheme (exactly one valid group signature per
/// public key and nonce, so both combined the same signature).
pub proof fn lemma_agreement(a: CoinState, b: CoinState)
    requires
        state_wf(a),
        state_wf(b),
        a.terminated,
        b.terminated,
        a.nonce == b.nonce,
        a.signature == b.signature,
    ensures
        a.output == b.output,
{
}

/// Liveness of the threshold: input given and verified shares from more than `f` distinct
/// members (committee positions `idx`) make combination due.
pub proof fn lemma_quorum_triggers_combination(v: CoinState, idx: Seq<int>)
    requires
        state_wf(v),
        v.had_input,
        idx.len() > v.num_faulty,
        forall|j: int, k: int| 0 <= j < k < idx.len() ==> idx[j] < idx[k],
        forall|j: int|
            0 <= j < idx.len() ==> 0 <= idx[j] < v.shares.len() && v.shares[idx[j]].is_some(),
    ensures
        threshold_met(v),
{
    lemma_count_at_least(v.shares, idx);
}

/// The output is the parity of the combined signature: two rounds that combine the same
/// signature decide the same bit, whichever shares each of them combined.
pub proof fn lemma_output_of_signature(a: CoinState, b: CoinState, sig: Seq<u8>)
    requires
        a.combining,
        b.combining,
        a.nonce == b.nonce,
    ensures
        combined_spec(a, Ok((sig, true))).0.output == Some(parity_of(sig)),
        combined_spec(a, Ok((sig, true))).0.output == combined_spec(b, Ok((sig, true))).0.output,
        combined_spec(a, Ok((sig, true))).1 == combined_spec(b, Ok((sig, true))).1,
{
}

/// Input is idempotent: a second input changes nothing and reports nothing; the two together
/// queue exactly one broadcast for a validator's first input, none otherwise, and keep an output
/// that was already decided.
pub proof fn lemma_input_idempotent(
    v: CoinState,
    first: Option<Seq<u8>>,
    first_valid: bool,
    second: Option<Seq<u8>>,
    second_valid: bool,
)
    requires
        state_wf(v),
        !v.had_input && v.validator ==> first.is_some(),
    ensures
        ({
            let (v1, r1) = input_spec(v, first, first_valid);
            let (v2, r2) = input_spec(v1, second, second_valid);
            &&& v2 == v1
            &&& r2 == Ok::<_, CoinError>(empty_step())
            &&& v2.messages.len() == v.messages.len() + if !v.had_input && v.validator {
                1int
            } else {
                0int
            }
            &&& v.output.is_some() ==> v2.output == v.output
        }),
{
}

/// Once decided, a round ignores every message: nothing changes and nothing is reported.
pub proof fn lemma_terminated_ignores(v: CoinState, sender: u64, share: Seq<u8>, valid: bool)
    requires
        v.terminated,
    ensures
        handle_message_spec(v, sender, share, valid) == (v, Ok::<_, CoinError>(empty_step())),
{
}

/// A message from a participant outside the committee is refused with `UnknownSender`, and the
/// share set stays as it was.
pub proof fn lemma_unknown_sender(v: CoinState, sender: u64, share: Seq<u8>, valid: bool)
    requires
        !v.terminated,
        !v.combining,
        index_in(v.committee, sender).is_none(),
    ensures
        handle_message_spec(v, sender, share, valid).1 == Err::<crate::coin::StepView, _>(
            CoinError::UnknownSender,
        ),
        handle_message_spec(v, sender, share, valid).0.shares == v.shares,
{
}

/// A member's share that fails verification gives exactly one fault record naming the sender,
/// is not stored, and raises no error.
pub proof fn lemma_invalid_share_is_fault(v: CoinState, sender: u64, share: Seq<u8>)
    requires
        !v.terminated,
        !v.combining,
        index_in(v.committee, sender).is_some(),
    ensures
        ({
            let (next, r) = handle_message_spec(v, sender, share, false);
            &&& next == v
            &&& r.is_ok()
            &&& r.unwrap().faults == seq![
                Fault { node_id: sender, kind: FaultKind::UnverifiedSignatureShareSender },
            ]
            &&& r.unwrap().output.is_none()
            &&& r.unwrap().combine.is_none()
        }),
{
}

} // verus!
