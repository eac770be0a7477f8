//! Randomness beacon: a randomness seed in every block from a start height
//! on.
//!
//! The beacon keeps a verifier that tells whether a seed is the right one for
//! a block. From the start height on, every block carries an inherent with the
//! seed for that block; a block without it, or with a seed that the verifier
//! refuses, is no valid block.
//!
//! Checking a seed against the verifier is the work of the caller: the calls
//! that depend on it take the verdict as an argument.

use crate::chain::BlockHash;
use std::marker::PhantomData;
use vstd::prelude::*;

verus! {

/// The configuration of the beacon, which the runtime that holds the beacon
/// provides.
pub trait Trait {
    /// The first height at which a block must carry a seed.
    fn start_height() -> u64;

    /// The height at which the verifier is set.
    fn randomness_verifier_ready() -> u64;

    /// The verifier to set at that height, if there is one.
    fn randomness_verifier() -> Option<RandomnessVerifier>;
}

/// The randomness seed of a block.
#[derive(Clone, Debug, Default, PartialEq, Eq)]
pub struct Randomness {
    pub bytes: Vec<u8>,
}

/// What a seed is checked against.
#[derive(Clone, Debug, Default, PartialEq, Eq)]
pub struct RandomnessVerifier {
    pub key: Vec<u8>,
}

impl View for Randomness {
    type V = Seq<u8>;

    open spec fn view(&self) -> Seq<u8> {
        self.bytes@
    }
}

impl View for RandomnessVerifier {
    type V = Seq<u8>;

    open spec fn view(&self) -> Seq<u8> {
        self.key@
    }
}

impl RandomnessVerifier {
    /// A verifier with the same key.
    pub fn duplicate(&self) -> (copy: Self)
        ensures
            copy@ == self@,
    {
        let key = self.key.clone();
        assert(key@ =~= self.key@);
        RandomnessVerifier { key }
    }
}

/// Who makes a call.
#[derive(Clone, Copy, Debug, PartialEq, Eq)]
pub enum RawOrigin {
    /// The system itself.
    Root,
    /// An account that signed the call.
    Signed(u64),
    /// Nobody: the call came with the block, as an inherent does.
    Unsigned,
}

impl RawOrigin {
    /// The origin of a call that nobody signed.
    pub fn none() -> (origin: RawOrigin)
        ensures
            origin is Unsigned,
    {
        RawOrigin::Unsigned
    }
}

/// The call came from an origin that may not make it.
#[derive(Clone, Copy, Debug, PartialEq, Eq)]
pub struct BadOrigin;

/// The calls of the beacon.
#[derive(Clone, Debug, PartialEq, Eq)]
pub enum Call {
    /// Sets the seed of the current block.
    SetRandomBytes(Randomness),
}

/// Why the inherent of a block is refused.
#[derive(Clone, Copy, Debug, PartialEq, Eq)]
pub enum InherentError {
    /// No verifier is set, so no seed can be checked.
    VerifyKeyNotSet,
    /// The verifier refuses the seed.
    InvalidRandomBytes,
}

/// The inherent data of a block could not be read.
#[derive(Clone, Copy, Debug, PartialEq, Eq)]
pub struct InherentDataError;

/// The beacon as contracts see it.
pub struct BeaconView {
    pub start_height: u64,
    pub verifier_ready: u64,
    /// The verifier that the configuration provides.
    pub master_key: Option<Seq<u8>>,
    /// Random bytes for the current block.
    pub seed: Option<Seq<u8>>,
    /// Was the seed set in this block?
    pub did_update: bool,
    /// The verifier needed to check randomness in blocks.
    pub verifier: Option<Seq<u8>>,
}

impl BeaconView {
    /// Initializing the block at height `now` may go ahead: at the height at
    /// which the verifier is set, none is set yet and the configuration
    /// provides one.
    pub open spec fn may_initialize(self, now: u64) -> bool {
        now == self.verifier_ready ==> self.verifier is None && self.master_key is Some
    }

    /// Finalizing the block at height `height` may go ahead: from the start
    /// height on, the seed was put into the block.
    pub open spec fn may_finalize(self, height: u64) -> bool {
        height >= self.start_height ==> self.did_update
    }
}

/// The view of a verifier that may be absent.
pub open spec fn key_of(verifier: Option<RandomnessVerifier>) -> Option<Seq<u8>> {
    match verifier {
        Some(verifier) => Some(verifier@),
        None => None,
    }
}

/// The view of a seed that may be absent.
pub open spec fn seed_of(seed: Option<Randomness>) -> Option<Seq<u8>> {
    match seed {
        Some(seed) => Some(seed@),
        None => None,
    }
}

/// The beacon of a runtime with configuration `T`.
pub struct Module<T: Trait> {
    start_height: u64,
    verifier_ready: u64,
    master_key: Option<RandomnessVerifier>,
    seed: Option<Randomness>,
    did_update: bool,
    verifier: Option<RandomnessVerifier>,
    config: PhantomData<T>,
}

impl<T: Trait> View for Module<T> {
    type V = BeaconView;

    closed spec fn view(&self) -> BeaconView {
        BeaconView {
            start_height: self.start_height,
            verifier_ready: self.verifier_ready,
            master_key: key_of(self.master_key),
            seed: seed_of(self.seed),
            did_update: self.did_update,
            verifier: key_of(self.verifier),
        }
    }
}

/// Extracts the randomness seed for the current block from what the inherent
/// data of the block holds for the beacon.
pub fn extract_random_bytes(
    inherent_data: Result<Option<Randomness>, InherentDataError>,
) -> (randomness: Randomness)
    requires
        inherent_data matches Ok(Some(_)),
    ensures
        inherent_data == Ok::<Option<Randomness>, InherentDataError>(Some(randomness)),
{
    match inherent_data {
        Ok(Some(randomness)) => randomness,
        _ => unreached(),
    }
}

impl<T: Trait> Module<T> {
    /// A beacon with nothing stored, configured by the values given.
    pub fn with_config(
        start_height: u64,
        verifier_ready: u64,
        master_key: Option<RandomnessVerifier>,
    ) -> (beacon: Self)
        ensures
            beacon@.start_height == start_height,
            beacon@.verifier_ready == verifier_ready,
            beacon@.master_key == key_of(master_key),
            beacon@.seed is None,
            !beacon@.did_update,
            beacon@.verifier is None,
    {
        Module {
            start_height,
            verifier_ready,
            master_key,
            seed: None,
            did_update: false,
            verifier: None,
            config: PhantomData,
        }
    }

    /// A beacon with nothing stored, configured as `T` says.
    pub fn new() -> (beacon: Self)
        ensures
            beacon@.seed is None,
            !beacon@.did_update,
            beacon@.verifier is None,
    {
        Self::with_config(
            T::start_height(),
            T::randomness_verifier_ready(),
            T::randomness_verifier(),
        )
    }

    pub fn start_beacon_height(&self) -> (height: u64)
        ensures
            height == self@.start_height,
    {
        self.start_height
    }

    /// Whether a verifier is set.
    pub fn verifier_exists(&self) -> (exists: bool)
        ensures
            exists == (self@.verifier is Some),
    {
        self.verifier.is_some()
    }

    /// Whether the seed was set in the current block.
    pub fn did_update(&self) -> (did: bool)
        ensures
            did == self@.did_update,
    {
        self.did_update
    }

    /// The seed that was set last.
    pub fn seed(&self) -> (seed: &Option<Randomness>)
        ensures
            seed_of(*seed) == self@.seed,
    {
        &self.seed
    }

    /// Sets the verifier that the configuration provides, and says whether it
    /// provides one.
    pub fn set_master_key(&mut self) -> (set: bool)
        ensures
            set == (old(self)@.master_key is Some),
            set ==> final(self)@ == (BeaconView {
                verifier: old(self)@.master_key,
                ..old(self)@
            }),
            !set ==> final(self)@ == old(self)@,
    {
        let found = match &self.master_key {
            Some(mk) => Some(mk.duplicate()),
            None => None,
        };
        match found {
            Some(mk) => {
                self.verifier = Some(mk);
                true
            },
            None => false,
        }
    }

    /// Begins the block at height `now`, and sets the verifier at the height
    /// that the configuration names for it. It consumes no weight.
    pub fn on_initialize(&mut self, now: u64) -> (weight: u64)
        requires
            old(self)@.may_initialize(now),
        ensures
            weight == 0,
            now == old(self)@.verifier_ready ==> final(self)@ == (BeaconView {
                verifier: old(self)@.master_key,
                ..old(self)@
            }),
            now != old(self)@.verifier_ready ==> final(self)@ == old(self)@,
    {
        if now == self.verifier_ready {
            let _ = self.set_master_key();
        }
        0
    }

    /// Puts the seed of the current block into the store. Only the
    /// unsigned origin may do so, once in a block, and with a seed that the verifier
    /// accepts: `verified` is the verdict of the verifier on `randomness`.
    pub fn set_random_bytes(
        &mut self,
        origin: RawOrigin,
        randomness: Randomness,
        verified: bool,
    ) -> (done: Result<(), BadOrigin>)
        requires
            origin is Unsigned ==> verified && !old(self)@.did_update,
        ensures
            done is Ok <==> origin is Unsigned,
            done is Ok ==> final(self)@ == (BeaconView {
                seed: Some(randomness@),
                did_update: true,
                ..old(self)@
            }),
            done is Err ==> final(self)@ == old(self)@,
    {
        match origin {
            RawOrigin::Unsigned => {
                self.seed = Some(randomness);
                self.did_update = true;
                Ok(())
            },
            _ => Err(BadOrigin),
        }
    }

    /// Ends the block at height `bn`. From the start height on, the seed must
    /// have been put into the block; the mark of that is taken out again.
    pub fn on_finalize(&mut self, bn: u64)
        requires
            old(self)@.may_finalize(bn),
        ensures
            bn >= old(self)@.start_height ==> final(self)@ == (BeaconView {
                did_update: false,
                ..old(self)@
            }),
            bn < old(self)@.start_height ==> final(self)@ == old(self)@,
    {
        if bn >= self.start_height {
            self.did_update = false;
        }
    }

    /// During block creation this produces the inherent that holds the
    /// randomness seed for the block at height `now`, which the inherent data
    /// provides. Below the start height there is none.
    pub fn create_inherent(
        &self,
        now: u64,
        data: Result<Option<Randomness>, InherentDataError>,
    ) -> (call: Option<Call>)
        requires
            now >= self@.start_height ==> data matches Ok(Some(_)),
        ensures
            now < self@.start_height ==> call is None,
            now >= self@.start_height ==> (call matches Some(Call::SetRandomBytes(randomness))
                && data == Ok::<Option<Randomness>, InherentDataError>(Some(randomness))),
    {
        if now >= self.start_height {
            return Some(Call::SetRandomBytes(extract_random_bytes(data)));
        }
        None
    }

    /// Checks whether the inherent of the beacon holds a correct randomness
    /// seed for the block at height `now`: `verified` is the verdict of the
    /// verifier on the seed in `call`.
    pub fn check_inherent(&self, now: u64, call: &Call, verified: bool) -> (checked: Result<
        (),
        InherentError,
    >)
        ensures
            checked == inherent_verdict(self@, now, verified),
    {
        if now < self.start_height {
            return Ok(());
        }
        if !self.verifier_exists() {
            return Err(InherentError::VerifyKeyNotSet);
        }
        match call {
            Call::SetRandomBytes(_) => {
                if !verified {
                    return Err(InherentError::InvalidRandomBytes);
                }
            },
        }
        Ok(())
    }

    /// The randomness for `_subject`. The beacon does not derive any yet: it
    /// is the zero hash.
    pub fn random(_subject: &[u8]) -> (hash: BlockHash)
        ensures
            hash.bytes@ == Seq::new(32, |i: int| 0u8),
    {
        let hash = BlockHash { bytes: [0u8;32] };
        assert(hash.bytes@ =~= Seq::new(32, |i: int| 0u8));
        hash
    }
}

/// What checking an inherent gives: nothing is checked below the start
/// height; from there on a verifier must be set and must accept the seed.
pub open spec fn inherent_verdict(beacon: BeaconView, now: u64, verified: bool) -> Result<
    (),
    InherentError,
> {
    if now < beacon.start_height {
        Ok(())
    } else if beacon.verifier is None {
        Err(InherentError::VerifyKeyNotSet)
    } else if !verified {
        Err(InherentError::InvalidRandomBytes)
    } else {
        Ok(())
    }
}

} // verus!
