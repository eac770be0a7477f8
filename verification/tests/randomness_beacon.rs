use chain_follower::randomness_beacon::{
    extract_random_bytes, BadOrigin, Call, InherentDataError, InherentError, Module, Randomness,
    RandomnessVerifier, RawOrigin, Trait,
};

pub struct Test;

impl Trait for Test {
    fn start_height() -> u64 {
        3
    }

    fn randomness_verifier_ready() -> u64 {
        2
    }

    fn randomness_verifier() -> Option<RandomnessVerifier> {
        Some(RandomnessVerifier::default())
    }
}

pub struct NoKey;

impl Trait for NoKey {
    fn start_height() -> u64 {
        3
    }

    fn randomness_verifier_ready() -> u64 {
        2
    }

    fn randomness_verifier() -> Option<RandomnessVerifier> {
        None
    }
}

type RBeacon = Module<Test>;

fn seed(byte: u8) -> Randomness {
    Randomness { bytes: vec![byte; 4] }
}

#[test]
fn randomness_beacon_works() {
    let mut beacon = RBeacon::new();
    assert_eq!(beacon.on_initialize(0), 0);
    assert_eq!(beacon.set_random_bytes(RawOrigin::none(), Randomness::default(), true), Ok(()));
}

#[test]
fn verifier_correctly_initialized() {
    let mut beacon = RBeacon::new();
    assert_eq!(beacon.on_initialize(Test::randomness_verifier_ready()), 0);
    assert!(beacon.verifier_exists());
}

#[test]
fn new_beacon_has_nothing_stored() {
    let beacon = RBeacon::new();
    assert_eq!(beacon.start_beacon_height(), 3);
    assert!(!beacon.verifier_exists());
    assert!(!beacon.did_update());
    assert_eq!(beacon.seed(), &None);
}

#[test]
fn verifier_is_set_at_its_height_only() {
    let mut beacon = RBeacon::new();
    assert_eq!(beacon.on_initialize(1), 0);
    assert!(!beacon.verifier_exists());
    assert_eq!(beacon.on_initialize(3), 0);
    assert!(!beacon.verifier_exists());
    assert_eq!(beacon.on_initialize(2), 0);
    assert!(beacon.verifier_exists());
}

#[test]
fn master_key_is_set_where_the_configuration_has_one() {
    let mut beacon = RBeacon::new();
    assert!(beacon.set_master_key());
    assert!(beacon.verifier_exists());
    let mut beacon = Module::<NoKey>::new();
    assert!(!beacon.set_master_key());
    assert!(!beacon.verifier_exists());
    let mut beacon =
        Module::<NoKey>::with_config(7, 5, Some(RandomnessVerifier { key: vec![1, 2, 3] }));
    assert_eq!(beacon.start_beacon_height(), 7);
    assert!(beacon.set_master_key());
    assert!(beacon.verifier_exists());
}

#[test]
fn seed_is_stored_and_marked() {
    let mut beacon = RBeacon::new();
    assert_eq!(beacon.set_random_bytes(RawOrigin::none(), seed(7), true), Ok(()));
    assert!(beacon.did_update());
    assert_eq!(beacon.seed(), &Some(seed(7)));
    beacon.on_finalize(5);
    assert!(!beacon.did_update());
    assert_eq!(beacon.seed(), &Some(seed(7)));
    assert_eq!(beacon.set_random_bytes(RawOrigin::none(), seed(8), true), Ok(()));
    assert_eq!(beacon.seed(), &Some(seed(8)));
}

#[test]
fn only_the_unsigned_origin_sets_the_seed() {
    let mut beacon = RBeacon::new();
    assert_eq!(beacon.set_random_bytes(RawOrigin::Root, seed(7), true), Err(BadOrigin));
    assert_eq!(beacon.set_random_bytes(RawOrigin::Signed(1), seed(7), false), Err(BadOrigin));
    assert!(!beacon.did_update());
    assert_eq!(beacon.seed(), &None);
}

#[test]
fn finalize_below_the_start_height_leaves_the_mark() {
    let mut beacon = RBeacon::new();
    beacon.on_finalize(2);
    assert!(!beacon.did_update());
    assert_eq!(beacon.set_random_bytes(RawOrigin::none(), seed(1), true), Ok(()));
    beacon.on_finalize(2);
    assert!(beacon.did_update());
    beacon.on_finalize(3);
    assert!(!beacon.did_update());
}

#[test]
fn inherent_is_created_from_the_start_height_on() {
    let beacon = RBeacon::new();
    assert_eq!(beacon.create_inherent(2, Ok(Some(seed(9)))), None);
    assert_eq!(beacon.create_inherent(2, Ok(None)), None);
    assert_eq!(beacon.create_inherent(0, Err(InherentDataError)), None);
    assert_eq!(beacon.create_inherent(3, Ok(Some(seed(9)))), Some(Call::SetRandomBytes(seed(9))));
    assert_eq!(
        beacon.create_inherent(u64::MAX, Ok(Some(seed(1)))),
        Some(Call::SetRandomBytes(seed(1)))
    );
}

#[test]
fn random_bytes_are_extracted() {
    assert_eq!(extract_random_bytes(Ok(Some(seed(5)))), seed(5));
}

#[test]
fn inherent_is_checked_from_the_start_height_on() {
    let call = Call::SetRandomBytes(seed(1));
    let mut beacon = RBeacon::new();
    // below the start height nothing is checked
    assert_eq!(beacon.check_inherent(2, &call, false), Ok(()));
    // no verifier yet
    assert_eq!(beacon.check_inherent(3, &call, true), Err(InherentError::VerifyKeyNotSet));
    assert_eq!(beacon.check_inherent(3, &call, false), Err(InherentError::VerifyKeyNotSet));
    beacon.on_initialize(2);
    assert_eq!(beacon.check_inherent(3, &call, false), Err(InherentError::InvalidRandomBytes));
    assert_eq!(beacon.check_inherent(3, &call, true), Ok(()));
    assert_eq!(beacon.check_inherent(2, &call, false), Ok(()));
}

#[test]
fn random_is_the_zero_hash() {
    assert_eq!(RBeacon::random(b"subject").bytes, [0u8; 32]);
    assert_eq!(RBeacon::random(&[]).bytes, [0u8; 32]);
}
