//! The signature keys and the threshold key sharing that a custodian's
//! configuration is made of. Nothing in this file is proved: each function
//! makes one call into another crate, and its contract says what that crate's
//! source shows of the call. What a call draws from the random number
//! generator is left open.

use vstd::prelude::*;
use std::collections::HashMap;
use decaf377::Fq;
use decaf377_frost as frost;
use crate::backend::decaf_valid_encoding;
use ed25519_consensus::SigningKey;
use ed25519_consensus::VerificationKey;
use rand_core::CryptoRngCore;

verus! {

/// A key that a custodian signs with: `ed25519_consensus::SigningKey`.
#[verifier::external_type_specification]
#[verifier::external_body]
pub struct ExSigningKey(SigningKey);

/// The public half of such a key: `ed25519_consensus::VerificationKey`.
#[verifier::external_type_specification]
#[verifier::external_body]
pub struct ExVerificationKey(VerificationKey);

/// A source of randomness that is fit for making keys: a borrowed
/// `rand_core::CryptoRngCore`.
#[verifier::external_body]
pub struct Rng<'a> {
    pub inner: &'a mut dyn CryptoRngCore,
}

/// Why the key sharing refused: `decaf377_frost::Error`.
#[verifier::external_body]
pub struct SharingError {
    pub inner: frost::Error,
}

/// The name of a share holder in the sharing: `decaf377_frost::Identifier`.
#[verifier::external_body]
pub struct Identifier {
    pub inner: frost::Identifier,
}

/// A holder's secret share of the spend key:
/// `decaf377_frost::keys::SigningShare`.
#[verifier::external_body]
pub struct SigningShare {
    pub inner: frost::keys::SigningShare,
}

/// The public counterpart of a holder's share:
/// `decaf377_frost::keys::VerifyingShare`.
#[verifier::external_body]
pub struct VerifyingShare {
    pub inner: frost::keys::VerifyingShare,
}

/// The key that signatures of the whole group verify under:
/// `decaf377_frost::keys::VerifyingKey`.
#[verifier::external_body]
pub struct GroupKey {
    pub inner: frost::keys::VerifyingKey,
}

/// What a dealer hands out: a secret share for each holder, and the public
/// key package of the group.
#[verifier::external_body]
pub struct Dealing {
    pub shares: HashMap<frost::Identifier, frost::keys::SecretShare>,
    pub public: frost::keys::PublicKeyPackage,
}

/// What one holder signs with: `decaf377_frost::keys::KeyPackage`.
#[verifier::external_body]
pub struct KeyPackage {
    pub inner: frost::keys::KeyPackage,
}

/// What anyone checks signature shares against:
/// `decaf377_frost::keys::PublicKeyPackage`.
#[verifier::external_body]
pub struct PublicKeyPackage {
    pub inner: frost::keys::PublicKeyPackage,
}

/// The 32 bytes that `VerificationKey::to_bytes` gives.
pub uninterp spec fn verification_key_bytes(key: VerificationKey) -> Seq<u8>;

/// The verification key that `SigningKey::verification_key` gives.
pub uninterp spec fn public_key_of(key: SigningKey) -> VerificationKey;

/// The identifier that `Identifier::derive` gives for a byte string; `None`
/// where it refuses.
pub uninterp spec fn identifier_of(bytes: Seq<u8>) -> Option<Identifier>;

/// The group key that `VerifyingKey::deserialize` gives for a byte string;
/// `None` where it refuses.
pub uninterp spec fn group_key_of(bytes: Seq<u8>) -> Option<GroupKey>;

/// The public counterpart that `VerifyingShare::from` gives for a signing
/// share.
pub uninterp spec fn public_share_of(share: SigningShare) -> VerifyingShare;

/// Whether a dealing holds a secret share, and its public counterpart, under
/// that identifier.
pub uninterp spec fn dealing_holds(dealing: Dealing, identifier: Identifier) -> bool;

/// The secret share that a dealing holds under that identifier:
/// `SecretShare::value` of the entry.
pub uninterp spec fn dealt_share(dealing: Dealing, identifier: Identifier) -> SigningShare;

/// The key package that `KeyPackage::new` makes of these parts.
pub uninterp spec fn key_package_of(
    identifier: Identifier,
    share: SigningShare,
    public: VerifyingShare,
    group: GroupKey,
    min_signers: u16,
) -> KeyPackage;

/// The number of holders that a key package asks for a signature:
/// `KeyPackage::min_signers`.
pub uninterp spec fn key_package_threshold(package: KeyPackage) -> u16;

/// The public key package that `PublicKeyPackage::new` makes of the holders'
/// shares, each under its identifier and a later one in place of an earlier
/// one under the same identifier, and of the group's key.
pub uninterp spec fn public_key_package_of(
    holders: Seq<(Identifier, VerifyingShare)>,
    group: GroupKey,
) -> PublicKeyPackage;

/// `SigningKey::new`: a fresh signing key, drawn from the generator.
#[verifier::external_body]
pub(crate) fn new_signing_key(rng: &mut Rng) -> (key: SigningKey) {
    SigningKey::new(&mut *rng.inner)
}

/// `Fq::rand`: a field element, drawn from the generator.
#[verifier::external_body]
pub(crate) fn random_fq(rng: &mut Rng) -> (x: Fq) {
    Fq::rand(&mut rng.inner)
}

/// `SigningKey::verification_key`: the public half of a signing key.
#[verifier::external_body]
pub(crate) fn verification_key(key: &SigningKey) -> (r: VerificationKey)
    ensures
        r == public_key_of(*key),
{
    key.verification_key()
}

/// `VerificationKey::to_bytes`: the key's 32 bytes.
#[verifier::external_body]
pub(crate) fn verification_key_to_bytes(key: &VerificationKey) -> (r: [u8; 32])
    ensures
        r@ == verification_key_bytes(*key),
{
    key.to_bytes()
}

/// `Clone::clone` of a signing key: the same key.
#[verifier::external_body]
pub(crate) fn clone_signing_key(key: &SigningKey) -> (r: SigningKey)
    ensures
        r == *key,
{
    key.clone()
}

/// `Clone::clone` of a verifying share: the same share.
#[verifier::external_body]
pub(crate) fn clone_verifying_share(share: &VerifyingShare) -> (r: VerifyingShare)
    ensures
        r == *share,
{
    VerifyingShare { inner: share.inner.clone() }
}

/// `Identifier::derive`: the holder's name in the sharing, from the bytes of
/// the holder's key. The same bytes give the same identifier.
#[verifier::external_body]
pub(crate) fn derive_identifier(bytes: &[u8; 32]) -> (r: Result<Identifier, SharingError>)
    ensures
        match r {
            Ok(identifier) => identifier_of(bytes@) == Some(identifier),
            Err(_) => identifier_of(bytes@) is None,
        },
{
    match frost::Identifier::derive(bytes.as_slice()) {
        Ok(inner) => Ok(Identifier { inner }),
        Err(inner) => Err(SharingError { inner }),
    }
}

/// `keys::generate_with_dealer` with a list of identifiers of the caller's.
/// It deals only for a threshold of at least two and at most the number of
/// holders, and for exactly as many identifiers as there are holders; then
/// every identifier has its share.
#[verifier::external_body]
pub(crate) fn generate_with_dealer(
    max_signers: u16,
    min_signers: u16,
    identifiers: &Vec<Identifier>,
    rng: &mut Rng,
) -> (r: Result<Dealing, SharingError>)
    ensures
        r matches Ok(dealing) ==> {
            &&& 2 <= min_signers <= max_signers
            &&& identifiers.len() == max_signers
            &&& forall|i: int|
                0 <= i < identifiers.len() ==> dealing_holds(dealing, #[trigger] identifiers[i])
        },
{
    let list: Vec<frost::Identifier> = identifiers.iter().map(|i| i.inner).collect();
    let custom = frost::keys::IdentifierList::Custom(list.as_slice());
    match frost::keys::generate_with_dealer(max_signers, min_signers, custom, &mut *rng.inner) {
        Ok((shares, public)) => Ok(Dealing { shares, public }),
        Err(inner) => Err(SharingError { inner }),
    }
}

/// `SecretShare::value` of the share that the dealing holds under the
/// identifier.
#[verifier::external_body]
pub(crate) fn signing_share(dealing: &Dealing, identifier: &Identifier) -> (r: SigningShare)
    requires
        dealing_holds(*dealing, *identifier),
    ensures
        r == dealt_share(*dealing, *identifier),
{
    SigningShare { inner: *dealing.shares[&identifier.inner].value() }
}

/// `PublicKeyPackage::signer_pubkeys`, looked up under the identifier: the
/// public counterpart of the share that the dealing holds there, as the
/// dealer made it from the share.
#[verifier::external_body]
pub(crate) fn verifying_share(dealing: &Dealing, identifier: &Identifier) -> (r: VerifyingShare)
    requires
        dealing_holds(*dealing, *identifier),
    ensures
        r == public_share_of(dealt_share(*dealing, *identifier)),
{
    VerifyingShare { inner: dealing.public.signer_pubkeys()[&identifier.inner] }
}

/// `VerifyingKey::serialize` of `PublicKeyPackage::group_public`: the 32
/// bytes that encode the group's key.
#[verifier::external_body]
pub(crate) fn group_public_bytes(dealing: &Dealing) -> (r: [u8; 32]) {
    let mut bytes = [0u8; 32];
    bytes.copy_from_slice(dealing.public.group_public().serialize().as_slice());
    bytes
}

/// `VerifyingKey::deserialize`: the group's key, from its bytes. It takes
/// the bytes that encode a group element and no others, and the same bytes
/// give the same key.
#[verifier::external_body]
pub(crate) fn parse_group_key(bytes: &[u8; 32]) -> (r: Result<GroupKey, SharingError>)
    ensures
        r is Ok <==> decaf_valid_encoding(bytes@),
        match r {
            Ok(key) => group_key_of(bytes@) == Some(key),
            Err(_) => group_key_of(bytes@) is None,
        },
{
    match frost::keys::VerifyingKey::deserialize(bytes.to_vec()) {
        Ok(inner) => Ok(GroupKey { inner }),
        Err(inner) => Err(SharingError { inner }),
    }
}

/// `VerifyingShare::from` a signing share: its public counterpart.
#[verifier::external_body]
pub(crate) fn public_share(share: &SigningShare) -> (r: VerifyingShare)
    ensures
        r == public_share_of(*share),
{
    VerifyingShare { inner: share.inner.into() }
}

/// `KeyPackage::new`: a key package of these parts, with that threshold.
#[verifier::external_body]
pub(crate) fn new_key_package(
    identifier: Identifier,
    share: &SigningShare,
    public: VerifyingShare,
    group: GroupKey,
    min_signers: u16,
) -> (r: KeyPackage)
    ensures
        r == key_package_of(identifier, *share, public, group, min_signers),
        key_package_threshold(r) == min_signers,
{
    let inner = frost::keys::KeyPackage::new(
        identifier.inner,
        share.inner,
        public.inner,
        group.inner,
        min_signers,
    );
    KeyPackage { inner }
}

/// `PublicKeyPackage::new`: a public key package of these holders' shares,
/// each under its identifier, and of the group's key.
#[verifier::external_body]
pub(crate) fn new_public_key_package(
    holders: Vec<(Identifier, VerifyingShare)>,
    group: GroupKey,
) -> (r: PublicKeyPackage)
    ensures
        r == public_key_package_of(holders@, group),
{
    let signer_pubkeys = holders.into_iter().map(|(i, s)| (i.inner, s.inner)).collect();
    PublicKeyPackage { inner: frost::keys::PublicKeyPackage::new(signer_pubkeys, group.inner) }
}

} // verus!
