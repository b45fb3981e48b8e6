use vstd::prelude::*;

verus! {

/// A partial threshold signature over a round's nonce, in the encoding of the threshold-crypto
/// engine.
pub struct SignatureShare {
    pub bytes: Vec<u8>,
}

impl View for SignatureShare {
    type V = Seq<u8>;

    open spec fn view(&self) -> Seq<u8> {
        self.bytes@
    }
}

impl SignatureShare {
    /// A copy holding the same bytes.
    pub fn duplicate(&self) -> (r: SignatureShare)
        ensures
            r@ == self@,
    {
        let bytes = self.bytes.clone();
        assert(bytes@ =~= self.bytes@);
        SignatureShare { bytes }
    }
}

/// The one message of the protocol: a participant's signature share.
pub struct CommonCoinMessage(pub SignatureShare);

impl View for CommonCoinMessage {
    type V = Seq<u8>;

    open spec fn view(&self) -> Seq<u8> {
        self.0@
    }
}

impl CommonCoinMessage {
    pub fn new(sig: SignatureShare) -> (r: CommonCoinMessage)
        ensures
            r@ == sig@,
    {
        CommonCoinMessage(sig)
    }

    pub fn to_sig(&self) -> (r: &SignatureShare)
        ensures
            r@ == self@,
    {
        &self.0
    }
}

/// A share together with the committee index of its sender, as threshold combination takes it.
pub struct IndexedShare {
    pub index: u64,
    pub share: SignatureShare,
}

impl View for IndexedShare {
    type V = (int, Seq<u8>);

    open spec fn view(&self) -> (int, Seq<u8>) {
        (self.index as int, self.share@)
    }
}

/// Misbehaviour that is tolerated and reported, never fatal.
#[derive(Clone, Copy, Debug, PartialEq, Eq, Structural)]
pub enum FaultKind {
    /// The sender's signature share does not verify against its public key share.
    UnverifiedSignatureShareSender,
}

/// One fault record: who misbehaved, and how.
#[derive(Clone, Copy, Debug, PartialEq, Eq, Structural)]
pub struct Fault {
    pub node_id: u64,
    pub kind: FaultKind,
}

/// A failure reported by the threshold-crypto engine (signing or combination).
#[derive(Debug)]
pub struct CryptoError {
    pub reason: String,
}

/// The fatal errors of a coin round. After any of them the round is to be abandoned.
#[derive(Debug)]
pub enum CoinError {
    /// A message came from a participant without a known public key share.
    UnknownSender,
    /// The combined signature does not verify against the aggregate public key and nonce.
    VerificationFailed,
    /// The threshold-crypto engine failed.
    Crypto(CryptoError),
}

impl CoinError {
    /// A short description of the error.
    pub fn description(&self) -> (r: String)
        ensures
            self is UnknownSender ==> r@ == "unknown sender"@,
            self is VerificationFailed ==> r@ == "signature verification failed"@,
            self is Crypto ==> r@ == self->Crypto_0.reason@,
    {
        match self {
            CoinError::UnknownSender => "unknown sender".to_string(),
            CoinError::VerificationFailed => "signature verification failed".to_string(),
            CoinError::Crypto(e) => e.reason.clone(),
        }
    }
}

/// What the threshold-crypto engine made of a combination request: the combined signature in its
/// canonical (uncompressed) byte representation, and whether it verifies against the aggregate
/// public key over the nonce.
pub struct CombinedSignature {
    pub bytes: Vec<u8>,
    pub verifies: bool,
}

} // verus!
