//! What holds of the messages between an honest prover and the verifier.

use crate::bignum::encoding::be_value;
use crate::bignum::encoding::lemma_minimal_bytes;
use crate::bignum::encoding::minimal_bytes;
use crate::crypto::laws::law_answer_off_by_one_is_rejected;
use crate::crypto::laws::law_honest_answer_is_accepted;
use crate::crypto::response;
use crate::crypto::GroupView;
use crate::zkp::signer::commitment_message;
use crate::zkp::signer::signature_message;
use crate::zkp::verification::signature_fault;
use crate::zkp::verification::verifier_of;
use vstd::prelude::*;

verus! {

/// Correctness and soundness in one spot, in messages: in every Schnorr
/// group, for every secret `x`, nonce `k` and challenge `c` below `q`, a
/// verifier can be made from the prover's signature and commitment; it
/// accepts the bytes of the honest answer and rejects the bytes of the
/// answer that is off by one.
pub proof fn law_honest_messages_are_accepted(g: GroupView, x: nat, k: nat, c: nat)
    requires
        g.is_schnorr_group(),
        x < g.q,
        k < g.q,
        c < g.q,
    ensures
        signature_fault(signature_message(g, x)) is None,
        verifier_of(signature_message(g, x), commitment_message(g, k), c).accepts(
            be_value(minimal_bytes(response(k, c, x, g.q))),
        ),
        !verifier_of(signature_message(g, x), commitment_message(g, k), c).accepts(
            be_value(minimal_bytes((response(k, c, x, g.q) + 1) % g.q)),
        ),
{
    lemma_minimal_bytes(g.p);
    lemma_minimal_bytes(g.q);
    lemma_minimal_bytes(g.alpha);
    lemma_minimal_bytes(g.beta);
    lemma_minimal_bytes(g.powers(x).0);
    lemma_minimal_bytes(g.powers(x).1);
    lemma_minimal_bytes(g.powers(k).0);
    lemma_minimal_bytes(g.powers(k).1);
    lemma_minimal_bytes(response(k, c, x, g.q));
    lemma_minimal_bytes((response(k, c, x, g.q) + 1) % g.q);
    law_honest_answer_is_accepted(g, x, k, c);
    law_answer_off_by_one_is_rejected(g, x, k, c);
    let verifier = verifier_of(signature_message(g, x), commitment_message(g, k), c);
    assert(verifier.group == g);
}

} // verus!
