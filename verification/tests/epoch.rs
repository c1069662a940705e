use std::collections::HashMap;

use consensus::engine::{ConsensusEngine, Headers, PendingTransitionStore};
use consensus::epoch::{
    ConstructedVerifier, EpochChange, EpochVerifier, NoOp, PendingTransition, Proof, SignalAction,
};
use consensus::error::Error;
use consensus::machine::Machine;
use consensus::primitives::H256;

struct Chain;

#[derive(Clone, Debug, PartialEq)]
struct Header {
    number: u64,
    author: u8,
}

impl Header {
    fn hash(&self) -> H256 {
        hash_of(self.number)
    }

    fn parent_hash(&self) -> H256 {
        hash_of(self.number.wrapping_sub(1))
    }
}

fn hash_of(number: u64) -> H256 {
    let mut bytes = [0u8; 32];
    bytes[..8].copy_from_slice(&number.to_be_bytes());
    H256 { bytes }
}

impl Machine for Chain {
    type Header = Header;
    type LiveBlock = Header;
    type Error = String;
}

/// The headers from zero up to a head, all by author 1.
struct Store {
    head: u64,
}

impl Headers<Header> for Store {
    fn header(&self, hash: H256) -> Option<Header> {
        (0..=self.head).map(|number| Header { number, author: 1 }).find(|h| h.hash() == hash)
    }
}

/// Pending transitions as the node persists them: encoded, under the hash
/// of the signalling block. What cannot be read counts as not found.
struct Transitions {
    stored: HashMap<H256, Vec<u8>>,
}

impl PendingTransitionStore for Transitions {
    fn pending_transition(&self, hash: H256) -> Option<PendingTransition> {
        self.stored.get(&hash).and_then(|raw| PendingTransition::decode(raw).ok())
    }
}

/// Accepts the headers of one author.
struct ByAuthor(u8);

impl EpochVerifier<Chain> for ByAuthor {
    fn verify_light(&self, header: &Header) -> Result<(), String> {
        if header.author == self.0 {
            Ok(())
        } else {
            Err(format!("author {} is not the authority", header.author))
        }
    }
}

/// Signals a change of authority at block 100, final after five
/// confirmations. The proof names the next authority in its last byte.
struct Rotating {
    chain: Chain,
    trust_proofs: bool,
}

const CONFIRMATIONS: u64 = 5;

impl ConsensusEngine<Chain> for Rotating {
    fn name(&self) -> &str {
        "rotating"
    }

    fn machine(&self) -> &Chain {
        &self.chain
    }

    fn verify_local_seal(&self, _header: &Header) -> Result<(), String> {
        Ok(())
    }

    fn signals_epoch_end(&self, header: &Header) -> EpochChange {
        if header.number == 100 {
            EpochChange::Yes(Proof::Known(b"epoch2-validators".to_vec()))
        } else if header.number == 0 {
            EpochChange::Unsure
        } else {
            EpochChange::No
        }
    }

    fn is_epoch_end(
        &self,
        chain_head: &Header,
        chain: &dyn Headers<Header>,
        transition_store: &dyn PendingTransitionStore,
    ) -> Option<Vec<u8>> {
        let mut current = chain_head.clone();
        let mut depth = 0;
        loop {
            if let Some(transition) = transition_store.pending_transition(current.hash()) {
                return if depth >= CONFIRMATIONS { Some(transition.proof) } else { None };
            }
            if current.number == 0 {
                return None;
            }
            current = chain.header(current.parent_hash())?;
            depth += 1;
        }
    }

    fn epoch_verifier<'a>(&self, header: &Header, proof: &'a [u8]) -> ConstructedVerifier<'a, Chain> {
        match proof.last() {
            None => ConstructedVerifier::Failed(Error::Unsupported),
            Some(&author) if self.trust_proofs => ConstructedVerifier::Trusted(Box::new(ByAuthor(author))),
            Some(&author) => ConstructedVerifier::Unconfirmed(Box::new(ByAuthor(author)), proof, header.hash()),
        }
    }
}

#[test]
fn signalled_proof_is_stored_as_it_is() {
    let change = EpochChange::Yes(Proof::Known(b"epoch2-validators".to_vec()));
    assert_eq!(
        change.into_action(),
        SignalAction::Store(PendingTransition { proof: b"epoch2-validators".to_vec() })
    );
}

#[test]
fn no_signal_needs_no_action() {
    assert_eq!(EpochChange::No.into_action(), SignalAction::Nothing);
}

#[test]
fn unsure_signal_is_asked_again() {
    assert_eq!(EpochChange::Unsure.into_action(), SignalAction::Retry);
}

#[test]
fn transition_becomes_final_after_five_confirmations() {
    let engine = Rotating { chain: Chain, trust_proofs: true };
    let mut transitions = Transitions { stored: HashMap::new() };

    for number in 1..=100u64 {
        let header = Header { number, author: 1 };
        match engine.signals_epoch_end(&header).into_action() {
            SignalAction::Store(transition) => {
                assert_eq!(number, 100);
                transitions.stored.insert(header.hash(), transition.rlp_bytes());
            }
            SignalAction::Nothing => assert!(number < 100),
            SignalAction::Retry => panic!("only the genesis header is unsure"),
        }
    }
    assert_eq!(transitions.stored.len(), 1);

    for head in 100..105u64 {
        let chain = Store { head };
        assert_eq!(engine.is_epoch_end(&Header { number: head, author: 1 }, &chain, &transitions), None);
    }
    let chain = Store { head: 105 };
    let h105 = Header { number: 105, author: 1 };
    let proof = engine.is_epoch_end(&h105, &chain, &transitions);
    assert_eq!(proof, Some(b"epoch2-validators".to_vec()));

    let proof = proof.unwrap();
    let constructed = engine.epoch_verifier(&h105, &proof);
    assert_eq!(constructed.finality_claim(), None);
    let v2 = match constructed {
        ConstructedVerifier::Trusted(verifier) => verifier,
        _ => panic!("the verifier of the second epoch is trusted"),
    };
    assert_eq!(v2.verify_light(&Header { number: 106, author: b's' }), Ok(()));
    assert!(v2.verify_light(&Header { number: 106, author: 1 }).is_err());
}

#[test]
fn no_epoch_ends_without_a_signal() {
    let engine = Rotating { chain: Chain, trust_proofs: true };
    let transitions = Transitions { stored: HashMap::new() };
    let chain = Store { head: 200 };
    assert_eq!(engine.is_epoch_end(&Header { number: 200, author: 1 }, &chain, &transitions), None);
}

#[test]
fn unreadable_transition_counts_as_not_found() {
    let engine = Rotating { chain: Chain, trust_proofs: true };
    let mut transitions = Transitions { stored: HashMap::new() };
    let mut raw = PendingTransition { proof: b"epoch2-validators".to_vec() }.rlp_bytes();
    raw.truncate(5);
    transitions.stored.insert(hash_of(100), raw);
    let chain = Store { head: 110 };
    assert_eq!(engine.is_epoch_end(&Header { number: 110, author: 1 }, &chain, &transitions), None);
}

#[test]
fn genesis_header_is_unsure() {
    let engine = Rotating { chain: Chain, trust_proofs: true };
    assert_eq!(engine.signals_epoch_end(&Header { number: 0, author: 1 }), EpochChange::Unsure);
}

#[test]
fn trusted_verifier_needs_no_confirmation() {
    let constructed: ConstructedVerifier<Chain> = ConstructedVerifier::Trusted(Box::new(ByAuthor(3)));
    assert_eq!(constructed.finality_claim(), None);
    let verifier = constructed.into_trusted(false).ok().expect("trusted");
    assert_eq!(verifier.verify_light(&Header { number: 1, author: 3 }), Ok(()));
}

#[test]
fn failed_construction_gives_its_error() {
    let constructed: ConstructedVerifier<Chain> = ConstructedVerifier::Failed(Error::Unsupported);
    assert_eq!(constructed.finality_claim(), None);
    assert_eq!(constructed.into_trusted(true).err(), Some(Error::Unsupported));
    let constructed: ConstructedVerifier<Chain> = ConstructedVerifier::Failed(Error::Unsupported);
    assert_eq!(constructed.into_trusted(false).err(), Some(Error::Unsupported));
}

#[test]
fn unconfirmed_verifier_names_its_claim() {
    let proof = b"finality".to_vec();
    let constructed: ConstructedVerifier<Chain> =
        ConstructedVerifier::Unconfirmed(Box::new(NoOp), &proof, hash_of(100));
    assert_eq!(constructed.finality_claim(), Some((&proof[..], hash_of(100))));
}

#[test]
fn confirmed_verifier_is_handed_out() {
    let proof = b"finality".to_vec();
    let constructed: ConstructedVerifier<Chain> =
        ConstructedVerifier::Unconfirmed(Box::new(ByAuthor(4)), &proof, hash_of(100));
    let verifier = constructed.into_trusted(true).ok().expect("confirmed");
    assert_eq!(verifier.verify_light(&Header { number: 101, author: 4 }), Ok(()));
}

/// The check that the node makes under the previous epoch: the finality
/// proof must name the hash of the block and the authority of that epoch.
fn finalizes(previous_authority: u8, finality_proof: &[u8], hash: H256) -> bool {
    finality_proof.len() == 33
        && finality_proof[..32] == hash.bytes
        && finality_proof[32] == previous_authority
}

#[test]
fn skipping_the_finality_check_accepts_a_forged_epoch() {
    let engine = Rotating { chain: Chain, trust_proofs: false };
    let h105 = Header { number: 105, author: 1 };
    // A forged proof that makes author 66 the next authority; nothing in it
    // shows that block 105 is final under the authority of the first epoch.
    let forged = vec![0xde, 0xad, 66];
    let attack = Header { number: 106, author: 66 };

    // With the check: the claim is not confirmed, no verifier is handed out.
    let constructed = engine.epoch_verifier(&h105, &forged);
    let (finality_proof, hash) = constructed.finality_claim().expect("unconfirmed");
    assert_eq!(hash, h105.hash());
    let confirmed = finalizes(1, finality_proof, hash);
    assert!(!confirmed);
    assert_eq!(constructed.into_trusted(confirmed).err(), Some(Error::NotFinalized(h105.hash())));

    // Without it: the forged verifier is used and accepts the attacker's header.
    let unchecked = match engine.epoch_verifier(&h105, &forged) {
        ConstructedVerifier::Unconfirmed(verifier, _, _) => verifier,
        _ => panic!("the engine does not trust proofs"),
    };
    assert_eq!(unchecked.verify_light(&attack), Ok(()));
    assert!(ByAuthor(1).verify_light(&attack).is_err());
}

#[test]
fn no_op_verifier_accepts_everything() {
    let verifier: Box<dyn EpochVerifier<Chain>> = Box::new(NoOp);
    assert_eq!(verifier.verify_light(&Header { number: 0, author: 0 }), Ok(()));
    assert_eq!(NoOp.accept::<Chain>(&Header { number: 9, author: 200 }), Ok(()));
}
