use std::sync::Arc;
use vstd::prelude::*;

use crate::message::{
    CoinError, CombinedSignature, CommonCoinMessage, CryptoError, Fault, FaultKind, IndexedShare,
    SignatureShare,
};
use crate::network::{distinct_ids, index_in, NetworkInfo};
use crate::parity::{parity_of, signature_parity};

verus! {

/// The number of stored shares.
pub open spec fn count_some(s: Seq<Option<Seq<u8>>>) -> nat
    decreases s.len(),
{
    if s.len() == 0 {
        0
    } else {
        count_some(s.drop_last()) + if s.last().is_some() {
            1nat
        } else {
            0nat
        }
    }
}

/// The stored shares paired with their committee index, in index order.
pub open spec fn indexed(s: Seq<Option<Seq<u8>>>) -> Seq<(int, Seq<u8>)>
    decreases s.len(),
{
    if s.len() == 0 {
        Seq::empty()
    } else {
        let rest = indexed(s.drop_last());
        match s.last() {
            Some(v) => rest.push((s.len() - 1, v)),
            None => rest,
        }
    }
}

/// The abstract state of a coin round.
pub struct CoinState {
    /// The committee in index order.
    pub committee: Seq<u64>,
    pub our_uid: u64,
    /// Whether the local participant holds a secret key share.
    pub validator: bool,
    pub num_faulty: nat,
    pub nonce: Seq<u8>,
    /// For each committee index, the verified share received from that member, if any.
    pub shares: Seq<Option<Seq<u8>>>,
    /// Outgoing broadcasts, oldest first.
    pub messages: Seq<Seq<u8>>,
    pub had_input: bool,
    /// A combination request is out, awaiting its outcome.
    pub combining: bool,
    pub terminated: bool,
    pub output: Option<bool>,
    /// The combined signature that the output was taken from.
    pub signature: Option<Seq<u8>>,
}

/// The abstract result of one call.
pub struct StepView {
    pub output: Option<bool>,
    pub faults: Seq<Fault>,
    /// The indexed shares to combine, when the threshold was crossed.
    pub combine: Option<Seq<(int, Seq<u8>)>>,
}

/// What one call produced: the coin's value if it was decided now, the faults detected, and a
/// request to combine these indexed shares, to be answered with `handle_combined`.
pub struct CoinStep {
    pub output: Option<bool>,
    pub fault_log: Vec<Fault>,
    pub combine: Option<Vec<IndexedShare>>,
}

impl View for CoinStep {
    type V = StepView;

    open spec fn view(&self) -> StepView {
        StepView {
            output: self.output,
            faults: self.fault_log@,
            combine: match self.combine {
                Some(v) => Some(v@.map_values(|x: IndexedShare| x@)),
                None => None,
            },
        }
    }
}

pub open spec fn empty_step() -> StepView {
    StepView { output: None, faults: Seq::empty(), combine: None }
}

pub open spec fn result_view(r: Result<CoinStep, CoinError>) -> Result<StepView, CoinError> {
    match r {
        Ok(s) => Ok(s@),
        Err(e) => Err(e),
    }
}

pub open spec fn opt_share_view(o: Option<SignatureShare>) -> Option<Seq<u8>> {
    match o {
        Some(s) => Some(s@),
        None => None,
    }
}

/// The states a round can be in.
pub open spec fn state_wf(v: CoinState) -> bool {
    &&& distinct_ids(v.committee)
    &&& v.shares.len() == v.committee.len()
    &&& v.terminated <==> v.output.is_some()
    &&& v.terminated ==> v.had_input && v.signature.is_some() && v.output == Some(
        parity_of(v.signature.unwrap()),
    )
    &&& v.combining ==> v.had_input && !v.terminated
}

/// Combination is due: input was given and more than `f` verified shares are held.
pub open spec fn threshold_met(v: CoinState) -> bool {
    v.had_input && count_some(v.shares) > v.num_faulty
}

/// Attempting output: past the threshold, ask for the stored shares to be combined.
pub open spec fn try_output_spec(v: CoinState) -> (CoinState, Option<Seq<(int, Seq<u8>)>>) {
    if threshold_met(v) {
        (CoinState { combining: true, ..v }, Some(indexed(v.shares)))
    } else {
        (v, None)
    }
}

/// A share from `sender` whose verification against the sender's public key share gave `valid`.
pub open spec fn handle_share_spec(v: CoinState, sender: u64, share: Seq<u8>, valid: bool) -> (
    CoinState,
    Result<StepView, CoinError>,
) {
    match index_in(v.committee, sender) {
        None => (v, Err(CoinError::UnknownSender)),
        Some(i) => if !valid {
            (
                v,
                Ok(
                    StepView {
                        output: None,
                        faults: seq![
                            Fault {
                                node_id: sender,
                                kind: FaultKind::UnverifiedSignatureShareSender,
                            },
                        ],
                        combine: None,
                    },
                ),
            )
        } else {
            let stored = CoinState { shares: v.shares.update(i as int, Some(share)), ..v };
            let (next, req) = try_output_spec(stored);
            (next, Ok(StepView { output: None, faults: Seq::empty(), combine: req }))
        },
    }
}

/// Local input: only the first call counts. A validator broadcasts its share over the nonce and
/// handles it as if received; an observer only checks whether combination is due.
pub open spec fn input_spec(v: CoinState, our_share: Option<Seq<u8>>, valid: bool) -> (
    CoinState,
    Result<StepView, CoinError>,
) {
    if v.had_input {
        (v, Ok(empty_step()))
    } else {
        let started = CoinState { had_input: true, ..v };
        if !v.validator {
            let (next, req) = try_output_spec(started);
            (next, Ok(StepView { output: None, faults: Seq::empty(), combine: req }))
        } else {
            let share = our_share.unwrap();
            handle_share_spec(
                CoinState { messages: started.messages.push(share), ..started },
                v.our_uid,
                share,
                valid,
            )
        }
    }
}

/// A message from `sender`; ignored once the round is decided or combining.
pub open spec fn handle_message_spec(v: CoinState, sender: u64, share: Seq<u8>, valid: bool) -> (
    CoinState,
    Result<StepView, CoinError>,
) {
    if v.terminated || v.combining {
        (v, Ok(empty_step()))
    } else {
        handle_share_spec(v, sender, share, valid)
    }
}

/// The outcome of a combination request: the signature bytes and whether they verify, or the
/// crypto engine's failure.
pub open spec fn combined_spec(v: CoinState, outcome: Result<(Seq<u8>, bool), CryptoError>) -> (
    CoinState,
    Result<StepView, CoinError>,
) {
    if !v.combining {
        (v, Ok(empty_step()))
    } else {
        match outcome {
            Err(e) => (CoinState { combining: false, ..v }, Err(CoinError::Crypto(e))),
            Ok((sig, verifies)) => if !verifies {
                (CoinState { combining: false, ..v }, Err(CoinError::VerificationFailed))
            } else {
                let bit = parity_of(sig);
                (
                    CoinState {
                        combining: false,
                        terminated: true,
                        output: Some(bit),
                        signature: Some(sig),
                        ..v
                    },
                    Ok(StepView { output: Some(bit), faults: Seq::empty(), combine: None }),
                )
            },
        }
    }
}

pub open spec fn outcome_view(o: Result<CombinedSignature, CryptoError>) -> Result<
    (Seq<u8>, bool),
    CryptoError,
> {
    match o {
        Ok(s) => Ok((s.bytes@, s.verifies)),
        Err(e) => Err(e),
    }
}

/// The state a new round starts in.
pub open spec fn initial_state(
    committee: Seq<u64>,
    our_uid: u64,
    validator: bool,
    num_faulty: nat,
    nonce: Seq<u8>,
) -> CoinState {
    CoinState {
        committee,
        our_uid,
        validator,
        num_faulty,
        nonce,
        shares: Seq::new(committee.len(), |i: int| None),
        messages: Seq::empty(),
        had_input: false,
        combining: false,
        terminated: false,
        output: None,
        signature: None,
    }
}

proof fn lemma_count_update(s: Seq<Option<Seq<u8>>>, i: int, x: Seq<u8>)
    requires
        0 <= i < s.len(),
    ensures
        count_some(s.update(i, Some(x))) == count_some(s) + if s[i].is_none() {
            1nat
        } else {
            0nat
        },
    decreases s.len(),
{
    let t = s.update(i, Some(x));
    if i == s.len() - 1 {
        assert(t.drop_last() =~= s.drop_last());
    } else {
        assert(t.drop_last() =~= s.drop_last().update(i, Some(x)));
        lemma_count_update(s.drop_last(), i, x);
    }
}

proof fn lemma_count_bound(s: Seq<Option<Seq<u8>>>)
    ensures
        count_some(s) <= s.len(),
    decreases s.len(),
{
    if s.len() > 0 {
        lemma_count_bound(s.drop_last());
    }
}

proof fn lemma_count_none(n: nat)
    ensures
        count_some(Seq::new(n, |i: int| None::<Seq<u8>>)) == 0,
    decreases n,
{
    if n > 0 {
        let s = Seq::new(n, |i: int| None::<Seq<u8>>);
        assert(s.drop_last() =~= Seq::new((n - 1) as nat, |i: int| None::<Seq<u8>>));
        lemma_count_none((n - 1) as nat);
    }
}

/// One round of the common coin. On input it broadcasts the local signature share; once input
/// was given and more than `f` verified shares are held, it asks for them to be combined; a
/// combined signature that verifies decides the coin, its parity being the output.
pub struct CommonCoin {
    netinfo: Arc<NetworkInfo>,
    /// The round's name; it must be unique for each round.
    nonce: Vec<u8>,
    output: Option<bool>,
    /// Outgoing messages, oldest first.
    messages: Vec<CommonCoinMessage>,
    /// One slot per committee index: the verified share of that member, if received.
    received_shares: Vec<Option<SignatureShare>>,
    num_received: usize,
    had_input: bool,
    combining: bool,
    terminated: bool,
    signature: Ghost<Option<Seq<u8>>>,
}

impl View for CommonCoin {
    type V = CoinState;

    closed spec fn view(&self) -> CoinState {
        CoinState {
            committee: self.netinfo.committee(),
            our_uid: self.netinfo.our_uid_spec(),
            validator: self.netinfo.is_validator_spec(),
            num_faulty: self.netinfo.num_faulty_spec(),
            nonce: self.nonce@,
            shares: self.received_shares@.map_values(|o: Option<SignatureShare>| opt_share_view(o)),
            messages: self.messages@.map_values(|m: CommonCoinMessage| m@),
            had_input: self.had_input,
            combining: self.combining,
            terminated: self.terminated,
            output: self.output,
            signature: self.signature@,
        }
    }
}

impl CommonCoin {
    /// The share counter agrees with the share slots.
    pub closed spec fn counts_match(&self) -> bool {
        self.num_received as nat == count_some(self@.shares)
    }

    /// The round's invariant.
    pub open spec fn inv(&self) -> bool {
        self.counts_match() && state_wf(self@)
    }

    /// Starts the round named by `nonce`: no input given, no share held, nothing queued.
    pub fn new(netinfo: Arc<NetworkInfo>, nonce: Vec<u8>) -> (r: CommonCoin)
        requires
            netinfo.wf(),
        ensures
            r.inv(),
            r@ == initial_state(
                netinfo.committee(),
                netinfo.our_uid_spec(),
                netinfo.is_validator_spec(),
                netinfo.num_faulty_spec(),
                nonce@,
            ),
    {
        let n = netinfo.num_nodes();
        let mut received_shares: Vec<Option<SignatureShare>> = Vec::new();
        let mut i: usize = 0;
        while i < n
            invariant
                i <= n,
                received_shares@.len() == i,
                forall|k: int| 0 <= k < i ==> received_shares@[k].is_none(),
            decreases n - i,
        {
            received_shares.push(None);
            i = i + 1;
        }
        let r = CommonCoin {
            netinfo,
            nonce,
            output: None,
            messages: Vec::new(),
            received_shares,
            num_received: 0,
            had_input: false,
            combining: false,
            terminated: false,
            signature: Ghost(None),
        };
        assert(r@.shares =~= Seq::new(n as nat, |k: int| None::<Seq<u8>>));
        assert(r@.messages =~= Seq::<Seq<u8>>::empty());
        proof {
            lemma_count_none(n as nat);
        }
        r
    }

    /// Whether the coin was decided.
    pub fn terminated(&self) -> (r: bool)
        ensures
            r == self@.terminated,
    {
        self.terminated
    }

    /// The identity of the local participant.
    pub fn our_id(&self) -> (r: u64)
        ensures
            r == self@.our_uid,
    {
        self.netinfo.our_uid()
    }

    /// Takes the oldest queued message, to be sent to every committee member.
    pub fn next_message(&mut self) -> (r: Option<CommonCoinMessage>)
        requires
            old(self).inv(),
        ensures
            final(self).inv(),
            old(self)@.messages.len() == 0 ==> r.is_none() && final(self)@ == old(self)@,
            old(self)@.messages.len() > 0 ==> {
                &&& r.is_some()
                &&& r.unwrap()@ == old(self)@.messages[0]
                &&& final(self)@ == CoinState {
                    messages: old(self)@.messages.drop_first(),
                    ..old(self)@
                }
            },
    {
        if self.messages.len() == 0 {
            None
        } else {
            let m = self.messages.remove(0);
            assert(self@.messages =~= old(self)@.messages.drop_first());
            Some(m)
        }
    }

    fn step(
        output: Option<bool>,
        fault_log: Vec<Fault>,
        combine: Option<Vec<IndexedShare>>,
    ) -> (r: CoinStep)
        ensures
            r.output == output,
            r.fault_log == fault_log,
            r.combine == combine,
    {
        CoinStep { output, fault_log, combine }
    }

    /// The stored shares with their committee indices, in index order.
    fn indexed_shares(&self) -> (r: Vec<IndexedShare>)
        requires
            self.inv(),
        ensures
            r@.map_values(|x: IndexedShare| x@) == indexed(self@.shares),
    {
        let ghost shares = self@.shares;
        let mut out: Vec<IndexedShare> = Vec::new();
        let mut i: usize = 0;
        while i < self.received_shares.len()
            invariant
                shares == self@.shares,
                i <= self.received_shares.len(),
                out@.map_values(|x: IndexedShare| x@) == indexed(shares.take(i as int)),
            decreases self.received_shares.len() - i,
        {
            assert(shares.take(i as int + 1).drop_last() =~= shares.take(i as int));
            assert(shares[i as int] == opt_share_view(self.received_shares@[i as int]));
            match &self.received_shares[i] {
                Some(share) => {
                    out.push(IndexedShare { index: i as u64, share: share.duplicate() });
                    assert(out@.map_values(|x: IndexedShare| x@) =~= indexed(
                        shares.take(i as int),
                    ).push((i as int, share@)));
                },
                None => {},
            }
            i = i + 1;
        }
        assert(shares.take(i as int) =~= shares);
        out
    }

    /// Asks for combination if it is due.
    fn try_output(&mut self) -> (r: Option<Vec<IndexedShare>>)
        requires
            old(self).counts_match(),
            state_wf(old(self)@),
            !old(self)@.terminated,
            !old(self)@.combining,
        ensures
            final(self).inv(),
            (final(self)@, match r {
                Some(v) => Some(v@.map_values(|x: IndexedShare| x@)),
                None => None,
            }) == try_output_spec(old(self)@),
    {
        if self.had_input && self.num_received > self.netinfo.num_faulty() {
            let req = self.indexed_shares();
            self.combining = true;
            Some(req)
        } else {
            None
        }
    }

    /// Stores a verified share of `sender` and attempts output; an unverified one is reported.
    fn handle_share(&mut self, sender_id: u64, share: SignatureShare, share_valid: bool) -> (r:
        Result<CoinStep, CoinError>)
        requires
            old(self).counts_match(),
            state_wf(old(self)@),
            !old(self)@.terminated,
            !old(self)@.combining,
        ensures
            final(self).inv(),
            (final(self)@, result_view(r)) == handle_share_spec(
                old(self)@,
                sender_id,
                share@,
                share_valid,
            ),
    {
        match self.netinfo.node_index(sender_id) {
            None => Err(CoinError::UnknownSender),
            Some(i) => {
                if !share_valid {
                    let mut faults: Vec<Fault> = Vec::new();
                    faults.push(
                        Fault {
                            node_id: sender_id,
                            kind: FaultKind::UnverifiedSignatureShareSender,
                        },
                    );
                    let r = Self::step(None, faults, None);
                    assert(r@.faults =~= seq![
                        Fault {
                            node_id: sender_id,
                            kind: FaultKind::UnverifiedSignatureShareSender,
                        },
                    ]);
                    return Ok(r);
                }
                let ghost before = self@.shares;
                let ghost share_v = share@;
                proof {
                    lemma_count_update(before, i as int, share_v);
                    lemma_count_bound(before.update(i as int, Some(share_v)));
                }
                assert(before[i as int] == opt_share_view(self.received_shares@[i as int]));
                let slots = self.received_shares.len();
                if self.received_shares[i].is_none() {
                    assert(self.num_received + 1 <= slots);
                    self.num_received = self.num_received + 1;
                }
                self.received_shares.set(i, Some(share));
                assert(self@.shares =~= before.update(i as int, Some(share_v)));
                let req = self.try_output();
                let r = Self::step(None, Vec::new(), req);
                assert(r@.faults =~= Seq::<Fault>::empty());
                Ok(r)
            },
        }
    }

    /// The first input: sign (done by the caller, handed in as `our_share`), broadcast, and
    /// handle the own share; an observer only attempts output.
    fn get_coin(&mut self, our_share: Option<SignatureShare>, share_valid: bool) -> (r: Result<
        CoinStep,
        CoinError,
    >)
        requires
            old(self).counts_match(),
            state_wf(old(self)@),
            old(self)@.had_input,
            !old(self)@.terminated,
            !old(self)@.combining,
            old(self)@.validator ==> our_share.is_some(),
        ensures
            final(self).inv(),
            (final(self)@, result_view(r)) == if !old(self)@.validator {
                let (next, req) = try_output_spec(old(self)@);
                (next, Ok(StepView { output: None, faults: Seq::empty(), combine: req }))
            } else {
                let share = opt_share_view(our_share).unwrap();
                handle_share_spec(
                    CoinState { messages: old(self)@.messages.push(share), ..old(self)@ },
                    old(self)@.our_uid,
                    share,
                    share_valid,
                )
            },
    {
        if !self.netinfo.is_validator() {
            let req = self.try_output();
            let r = Self::step(None, Vec::new(), req);
            assert(r@.faults =~= Seq::<Fault>::empty());
            return Ok(r);
        }
        let share = our_share.unwrap();
        let ghost before = self@.messages;
        self.messages.push(CommonCoinMessage(share.duplicate()));
        assert(self@.messages =~= before.push(share@));
        let id = self.netinfo.our_uid();
        self.handle_share(id, share, share_valid)
    }

    /// Gives local input. Only the first call has an effect. A validator hands in its signature
    /// share over the nonce and whether that share verifies against its own public key share; an
    /// observer hands in `None`.
    pub fn input(&mut self, our_share: Option<SignatureShare>, share_valid: bool) -> (r: Result<
        CoinStep,
        CoinError,
    >)
        requires
            old(self).inv(),
            !old(self)@.had_input && old(self)@.validator ==> our_share.is_some(),
        ensures
            final(self).inv(),
            (final(self)@, result_view(r)) == input_spec(
                old(self)@,
                opt_share_view(our_share),
                share_valid,
            ),
    {
        if self.had_input {
            let r = Self::step(None, Vec::new(), None);
            assert(r@.faults =~= Seq::<Fault>::empty());
            return Ok(r);
        }
        self.had_input = true;
        self.get_coin(our_share, share_valid)
    }

    /// Handles a message from `sender_id`; `share_valid` is whether its share verifies against
    /// the sender's public key share over the nonce (any value for an unknown sender).
    pub fn handle_message(
        &mut self,
        sender_id: u64,
        message: CommonCoinMessage,
        share_valid: bool,
    ) -> (r: Result<CoinStep, CoinError>)
        requires
            old(self).inv(),
        ensures
            final(self).inv(),
            (final(self)@, result_view(r)) == handle_message_spec(
                old(self)@,
                sender_id,
                message@,
                share_valid,
            ),
    {
        if self.terminated || self.combining {
            let r = Self::step(None, Vec::new(), None);
            assert(r@.faults =~= Seq::<Fault>::empty());
            return Ok(r);
        }
        let CommonCoinMessage(share) = message;
        self.handle_share(sender_id, share, share_valid)
    }

    /// Takes the answer to a combination request. A signature that verifies decides the coin as
    /// its parity; one that does not is fatal, as is a failure of the crypto engine.
    pub fn handle_combined(&mut self, outcome: Result<CombinedSignature, CryptoError>) -> (r:
        Result<CoinStep, CoinError>)
        requires
            old(self).inv(),
        ensures
            final(self).inv(),
            (final(self)@, result_view(r)) == combined_spec(old(self)@, outcome_view(outcome)),
    {
        if !self.combining {
            let r = Self::step(None, Vec::new(), None);
            assert(r@.faults =~= Seq::<Fault>::empty());
            return Ok(r);
        }
        self.combining = false;
        match outcome {
            Err(e) => Err(CoinError::Crypto(e)),
            Ok(sig) => {
                if !sig.verifies {
                    return Err(CoinError::VerificationFailed);
                }
                let parity = signature_parity(&sig.bytes);
                self.output = Some(parity);
                self.terminated = true;
                self.signature = Ghost(Some(sig.bytes@));
                let r = Self::step(Some(parity), Vec::new(), None);
                assert(r@.faults =~= Seq::<Fault>::empty());
                Ok(r)
            },
        }
    }

}

} // verus!
