use decaf377_frost as frost;
use rand_core::{CryptoRng, OsRng, RngCore};
use shielded_gadgets::custody::{Config, CustodyError};
use shielded_gadgets::frost::Rng;

/// A generator that repeats itself: the same seed, the same bytes.
struct Counting(u64);

impl RngCore for Counting {
    fn next_u32(&mut self) -> u32 {
        self.next_u64() as u32
    }

    fn next_u64(&mut self) -> u64 {
        self.0 = self.0.wrapping_mul(6364136223846793005).wrapping_add(1442695040888963407);
        self.0 ^ (self.0 >> 29)
    }

    fn fill_bytes(&mut self, dest: &mut [u8]) {
        for byte in dest.iter_mut() {
            *byte = (self.next_u64() >> 24) as u8;
        }
    }

    fn try_fill_bytes(&mut self, dest: &mut [u8]) -> Result<(), rand_core::Error> {
        self.fill_bytes(dest);
        Ok(())
    }
}

impl CryptoRng for Counting {}

/// A generator that always gives the same byte.
struct Stuck(u8);

impl RngCore for Stuck {
    fn next_u32(&mut self) -> u32 {
        u32::from_le_bytes([self.0; 4])
    }

    fn next_u64(&mut self) -> u64 {
        u64::from_le_bytes([self.0; 8])
    }

    fn fill_bytes(&mut self, dest: &mut [u8]) {
        for byte in dest.iter_mut() {
            *byte = self.0;
        }
    }

    fn try_fill_bytes(&mut self, dest: &mut [u8]) -> Result<(), rand_core::Error> {
        self.fill_bytes(dest);
        Ok(())
    }
}

impl CryptoRng for Stuck {}

fn deal_with_os(t: u16, n: u16) -> Result<Vec<Config>, CustodyError> {
    let mut os = OsRng;
    let mut rng = Rng { inner: &mut os };
    Config::deal(&mut rng, t, n)
}

fn deal_with_seed(seed: u64, t: u16, n: u16) -> Vec<Config> {
    let mut counting = Counting(seed);
    let mut rng = Rng { inner: &mut counting };
    match Config::deal(&mut rng, t, n) {
        Ok(configs) => configs,
        Err(_) => panic!("dealing failed"),
    }
}

#[test]
fn deal_gives_each_custodian_a_configuration() {
    let configs = match deal_with_os(2, 3) {
        Ok(configs) => configs,
        Err(_) => panic!("dealing failed"),
    };
    assert_eq!(configs.len(), 3);
    let keys = configs[0].verification_keys();
    assert_eq!(keys.len(), 3);
    for (i, config) in configs.iter().enumerate() {
        assert_eq!(config.threshold(), 2);
        assert_eq!(config.verification_keys(), keys);
        assert_eq!(config.signing_key().verification_key(), keys[i]);
        assert_eq!(
            config.fvk().spend_verification_key,
            configs[0].fvk().spend_verification_key
        );
        assert_eq!(config.fvk().nullifier_key, configs[0].fvk().nullifier_key);
    }
    assert_ne!(keys[0], keys[1]);
    assert_ne!(keys[0], keys[2]);
    assert_ne!(keys[1], keys[2]);
}

#[test]
fn deal_refuses_a_threshold_out_of_range() {
    assert!(matches!(deal_with_os(4, 3), Err(CustodyError::Sharing(_))));
    assert!(matches!(deal_with_os(1, 3), Err(CustodyError::Sharing(_))));
    assert!(matches!(deal_with_os(0, 3), Err(CustodyError::Sharing(_))));
    assert!(matches!(deal_with_os(0, 0), Err(CustodyError::Sharing(_))));
    assert!(matches!(deal_with_os(2, 1), Err(CustodyError::Sharing(_))));
    assert!(matches!(deal_with_os(1, 1), Err(CustodyError::Sharing(_))));
}

#[test]
fn deal_accepts_the_edges_of_the_range() {
    assert_eq!(deal_with_seed(1, 2, 2).len(), 2);
    assert_eq!(deal_with_seed(2, 3, 3).len(), 3);
    let configs = deal_with_seed(3, 2, 5);
    assert_eq!(configs.len(), 5);
    assert_eq!(configs[4].threshold(), 2);
    assert_eq!(configs[4].verification_keys().len(), 5);
}

#[test]
fn deal_is_a_function_of_what_the_generator_gives() {
    let first = deal_with_seed(42, 2, 3);
    let second = deal_with_seed(42, 2, 3);
    let other = deal_with_seed(43, 2, 3);
    for i in 0..3 {
        assert_eq!(first[i].signing_key().to_bytes(), second[i].signing_key().to_bytes());
        assert_eq!(first[i].verification_keys(), second[i].verification_keys());
        assert_eq!(
            first[i].fvk().spend_verification_key,
            second[i].fvk().spend_verification_key
        );
        assert_eq!(first[i].fvk().nullifier_key, second[i].fvk().nullifier_key);
        assert_ne!(first[i].signing_key().to_bytes(), other[i].signing_key().to_bytes());
    }
    assert_ne!(first[0].fvk().spend_verification_key, other[0].fvk().spend_verification_key);
}

#[test]
fn deal_with_repeated_keys_has_too_few_custodians() {
    let mut stuck = Stuck(7);
    let mut rng = Rng { inner: &mut stuck };
    assert!(matches!(Config::deal(&mut rng, 2, 3), Err(CustodyError::Sharing(_))));
}

#[test]
fn key_packages_carry_the_threshold_and_the_group_key() {
    let configs = deal_with_seed(5, 2, 3);
    for config in configs.iter() {
        let package = match config.key_package() {
            Ok(package) => package.inner,
            Err(_) => panic!("no key package"),
        };
        assert_eq!(*package.min_signers(), 2);
        assert_eq!(
            package.group_public().serialize(),
            config.fvk().spend_verification_key.to_vec()
        );
        let identifier = frost::Identifier::derive(
            config.signing_key().verification_key().as_bytes().as_slice(),
        )
        .unwrap();
        assert_eq!(*package.identifier(), identifier);
        let public: frost::keys::VerifyingShare = (*package.secret_share()).into();
        assert_eq!(*package.public(), public);
    }
}

#[test]
fn public_key_packages_name_every_custodian() {
    let configs = deal_with_seed(6, 3, 4);
    let first = match configs[0].public_key_package() {
        Ok(package) => package.inner,
        Err(_) => panic!("no public key package"),
    };
    assert_eq!(first.signer_pubkeys().len(), 4);
    assert_eq!(
        first.group_public().serialize(),
        configs[0].fvk().spend_verification_key.to_vec()
    );
    for config in configs.iter() {
        let package = match config.public_key_package() {
            Ok(package) => package.inner,
            Err(_) => panic!("no public key package"),
        };
        assert_eq!(package, first);
        let own = match config.key_package() {
            Ok(package) => package.inner,
            Err(_) => panic!("no key package"),
        };
        assert_eq!(package.signer_pubkeys()[own.identifier()], *own.public());
    }
}

#[test]
fn a_threshold_of_shares_restores_the_spend_key() {
    let configs = deal_with_seed(7, 2, 3);
    let packages: Vec<frost::keys::KeyPackage> = configs
        .iter()
        .map(|config| match config.key_package() {
            Ok(package) => package.inner,
            Err(_) => panic!("no key package"),
        })
        .collect();
    let expected = configs[0].fvk().spend_verification_key;
    for pair in [[0usize, 1], [0, 2], [1, 2]] {
        let shares = [packages[pair[0]].clone(), packages[pair[1]].clone()];
        let key = frost::keys::reconstruct(&shares).unwrap();
        let verification_key = decaf377_rdsa::VerificationKey::from(&key);
        assert_eq!(verification_key.to_bytes(), expected);
    }
}
