//! The configuration of the custodians of a spend key that is shared among
//! them, so that a threshold of them can authorize a spend together.

use vstd::prelude::*;
use decaf377::Fq;
use ed25519_consensus::SigningKey;
use ed25519_consensus::VerificationKey;
use crate::backend::decaf_valid_encoding;
use crate::backend::decompress;
use crate::frost::clone_signing_key;
use crate::frost::clone_verifying_share;
use crate::frost::dealt_share;
use crate::frost::derive_identifier;
use crate::frost::generate_with_dealer;
use crate::frost::group_key_of;
use crate::frost::group_public_bytes;
use crate::frost::identifier_of;
use crate::frost::key_package_of;
use crate::frost::key_package_threshold;
use crate::frost::new_key_package;
use crate::frost::new_public_key_package;
use crate::frost::new_signing_key;
use crate::frost::parse_group_key;
use crate::frost::public_key_of;
use crate::frost::public_key_package_of;
use crate::frost::public_share;
use crate::frost::public_share_of;
use crate::frost::random_fq;
use crate::frost::signing_share;
use crate::frost::verification_key;
use crate::frost::verification_key_bytes;
use crate::frost::verification_key_to_bytes;
use crate::frost::verifying_share;
use crate::frost::Identifier;
use crate::frost::KeyPackage;
use crate::frost::PublicKeyPackage;
use crate::frost::Rng;
use crate::frost::SharingError;
use crate::frost::SigningShare;
use crate::frost::VerifyingShare;

verus! {

/// Why no configuration came about.
pub enum CustodyError {
    /// The key sharing refused: a holder's key gave no identifier, or the
    /// dealer turned the threshold or the holders down.
    Sharing(SharingError),
    /// The bytes of the group's key encode no spend verification key.
    GroupKey,
}

/// The key that sees what the shared spend key can spend: the bytes of the
/// spend verification key, and the nullifier key.
#[derive(Clone, Copy)]
pub struct FullViewingKey {
    pub spend_verification_key: [u8; 32],
    pub nullifier_key: Fq,
}

/// One custodian as the others know it: its verification key, and the public
/// counterpart of its share.
pub struct Holder {
    pub key: VerificationKey,
    pub share: VerifyingShare,
}

/// The bytes of the holders' keys, in order.
pub open spec fn holder_keys(holders: Seq<Holder>) -> Seq<Seq<u8>> {
    Seq::new(holders.len(), |i: int| verification_key_bytes(holders[i].key))
}

/// No two entries are the same.
pub open spec fn distinct(keys: Seq<Seq<u8>>) -> bool {
    forall|i: int, j: int| 0 <= i < j < keys.len() ==> keys[i] != keys[j]
}

/// The bytes of the public halves of the signing keys, in order.
pub open spec fn public_bytes(keys: Seq<SigningKey>) -> Seq<Seq<u8>> {
    Seq::new(keys.len(), |i: int| verification_key_bytes(public_key_of(keys[i])))
}

/// Every key has an identifier in the sharing.
pub open spec fn identified(keys: Seq<Seq<u8>>) -> bool {
    forall|i: int| 0 <= i < keys.len() ==> identifier_of(#[trigger] keys[i]) is Some
}

/// The holders' public shares, each with the identifier of its holder's key.
pub open spec fn shares_by_identifier(holders: Seq<Holder>) -> Seq<(Identifier, VerifyingShare)> {
    Seq::new(
        holders.len(),
        |i: int|
            (identifier_of(verification_key_bytes(holders[i].key)).unwrap(), holders[i].share),
    )
}

/// What one custodian holds.
pub struct Config {
    threshold: u16,
    fvk: FullViewingKey,
    spend_key_share: SigningShare,
    signing_key: SigningKey,
    verifying_shares: Vec<Holder>,
}

/// A list of the same custodians.
fn same_holders(holders: &Vec<Holder>) -> (r: Vec<Holder>)
    ensures
        r@ == holders@,
{
    let mut r: Vec<Holder> = Vec::new();
    let mut j: usize = 0;
    while j < holders.len()
        invariant
            j <= holders.len(),
            r.len() == j,
            forall|k: int| 0 <= k < j ==> r[k] == holders[k],
        decreases holders.len() - j,
    {
        let share = clone_verifying_share(&holders[j].share);
        r.push(Holder { key: holders[j].key, share });
        j += 1;
    }
    assert(r@ =~= holders@);
    r
}

/// Whether two byte strings of 32 bytes are the same.
fn same_bytes(a: &[u8; 32], b: &[u8; 32]) -> (r: bool)
    ensures
        r == (a@ == b@),
{
    let mut i: usize = 0;
    while i < 32
        invariant
            i <= 32,
            forall|k: int| 0 <= k < i ==> a@[k] == b@[k],
        decreases 32 - i,
    {
        if a[i] != b[i] {
            return false;
        }
        i += 1;
    }
    assert(a@ =~= b@);
    true
}

/// Where among the keys one has that public half, if any has.
fn find_key(keys: &Vec<SigningKey>, bytes: &[u8; 32]) -> (r: Option<usize>)
    ensures
        match r {
            Some(j) => j < keys.len() && public_bytes(keys@)[j as int] == bytes@,
            None => forall|k: int| 0 <= k < keys.len() ==> public_bytes(keys@)[k] != bytes@,
        },
{
    let mut j: usize = 0;
    while j < keys.len()
        invariant
            j <= keys.len(),
            forall|k: int| 0 <= k < j ==> public_bytes(keys@)[k] != bytes@,
        decreases keys.len() - j,
    {
        let candidate = verification_key_to_bytes(&verification_key(&keys[j]));
        if same_bytes(&candidate, bytes) {
            return Some(j);
        }
        j += 1;
    }
    None
}

/// Whether one of the keys has that public half.
pub open spec fn holds_key(keys: Seq<SigningKey>, bytes: Seq<u8>) -> bool {
    exists|j: int| 0 <= j < keys.len() && #[trigger] public_bytes(keys)[j] == bytes
}

/// Where among the keys one has that public half.
pub open spec fn place_of(keys: Seq<SigningKey>, bytes: Seq<u8>) -> int {
    choose|j: int| 0 <= j < keys.len() && #[trigger] public_bytes(keys)[j] == bytes
}

/// The keys once one more is drawn: it takes the place of the key with the
/// same public half, or comes last where there is none.
pub open spec fn with_key(keys: Seq<SigningKey>, key: SigningKey) -> Seq<SigningKey> {
    let bytes = verification_key_bytes(public_key_of(key));
    if holds_key(keys, bytes) {
        keys.update(place_of(keys, bytes), key)
    } else {
        keys.push(key)
    }
}

/// What is kept of the keys that were drawn, in the order of drawing: one key
/// for each public half, the last that was drawn with it, at the place of the
/// first.
pub open spec fn kept(drawn: Seq<SigningKey>) -> Seq<SigningKey>
    decreases drawn.len(),
{
    if drawn.len() == 0 {
        Seq::empty()
    } else {
        with_key(kept(drawn.drop_last()), drawn.last())
    }
}

/// Draws a signing key for each of `n` custodians. A key whose public half
/// was drawn before takes the place of the earlier one, so that no two
/// custodians share a public key.
fn draw_keys(rng: &mut Rng, n: u16) -> (keys: Vec<SigningKey>)
    ensures
        exists|drawn: Seq<SigningKey>| drawn.len() == n && keys@ == #[trigger] kept(drawn),
        keys.len() <= n,
        distinct(public_bytes(keys@)),
{
    let mut keys: Vec<SigningKey> = Vec::new();
    let ghost mut drawn: Seq<SigningKey> = Seq::empty();
    let mut i: u16 = 0;
    while i < n
        invariant
            i <= n,
            drawn.len() == i,
            keys@ == kept(drawn),
            keys.len() <= i,
            distinct(public_bytes(keys@)),
        decreases n - i,
    {
        let key = new_signing_key(rng);
        let bytes = verification_key_to_bytes(&verification_key(&key));
        let ghost held = keys@;
        let ghost before = public_bytes(keys@);
        proof {
            assert(drawn.push(key).drop_last() =~= drawn);
            assert(kept(drawn.push(key)) == with_key(held, key));
        }
        match find_key(&keys, &bytes) {
            Some(j) => {
                proof {
                    assert(public_bytes(held)[j as int] == bytes@);
                    assert(holds_key(held, bytes@));
                    assert(place_of(held, bytes@) == j);
                }
                keys.set(j, key);
                assert(public_bytes(keys@) =~= before);
            },
            None => {
                assert(!holds_key(held, bytes@));
                keys.push(key);
                assert(public_bytes(keys@) =~= before.push(bytes@));
            },
        }
        proof {
            drawn = drawn.push(key);
        }
        i += 1;
    }
    keys
}

/// Derives the identifier of each key's holder, in order.
fn derive_identifiers(keys: &Vec<SigningKey>) -> (r: Result<Vec<Identifier>, CustodyError>)
    ensures
        r is Ok <==> identified(public_bytes(keys@)),
        r matches Ok(identifiers) ==> {
            &&& identifiers.len() == keys.len()
            &&& forall|k: int|
                0 <= k < keys.len() ==> identifier_of(public_bytes(keys@)[k]) == Some(
                    #[trigger] identifiers[k],
                )
        },
        r matches Err(e) ==> e is Sharing,
{
    let mut identifiers: Vec<Identifier> = Vec::new();
    let mut j: usize = 0;
    while j < keys.len()
        invariant
            j <= keys.len(),
            identifiers.len() == j,
            forall|k: int|
                0 <= k < j ==> identifier_of(public_bytes(keys@)[k]) == Some(
                    #[trigger] identifiers[k],
                ),
        decreases keys.len() - j,
    {
        let bytes = verification_key_to_bytes(&verification_key(&keys[j]));
        assert(bytes@ == public_bytes(keys@)[j as int]);
        match derive_identifier(&bytes) {
            Ok(identifier) => identifiers.push(identifier),
            Err(e) => {
                assert(identifier_of(public_bytes(keys@)[j as int]) is None);
                return Err(CustodyError::Sharing(e));
            },
        }
        j += 1;
    }
    assert forall|k: int| 0 <= k < keys.len() implies identifier_of(
        #[trigger] public_bytes(keys@)[k],
    ) is Some by {
        assert(identifier_of(public_bytes(keys@)[k]) == Some(identifiers[k]));
    }
    Ok(identifiers)
}

impl Config {
    /// The number of custodians that it takes to authorize a spend.
    pub closed spec fn threshold_of(&self) -> u16 {
        self.threshold
    }

    /// The full viewing key of the shared spend key.
    pub closed spec fn fvk_of(&self) -> FullViewingKey {
        self.fvk
    }

    /// The key that this custodian signs its messages to the others with.
    pub closed spec fn signing_key_of(&self) -> SigningKey {
        self.signing_key
    }

    /// This custodian's share of the spend key.
    pub closed spec fn share_of(&self) -> SigningShare {
        self.spend_key_share
    }

    /// All custodians, this one among them.
    pub closed spec fn holders(&self) -> Seq<Holder> {
        self.verifying_shares@
    }

    /// The bytes of this custodian's own verification key.
    pub open spec fn own_key(&self) -> Seq<u8> {
        verification_key_bytes(public_key_of(self.signing_key_of()))
    }

    /// The threshold is at least two and at most the number of custodians,
    /// no two custodians share a key, each has an identifier in the sharing,
    /// this custodian is one of them, listed with the public counterpart of
    /// its own share, and the spend verification key is the encoding of a
    /// group element.
    pub open spec fn wf(&self) -> bool {
        &&& 2 <= self.threshold_of() <= self.holders().len()
        &&& distinct(holder_keys(self.holders()))
        &&& identified(holder_keys(self.holders()))
        &&& exists|i: int|
            0 <= i < self.holders().len() && #[trigger] holder_keys(self.holders())[i]
                == self.own_key() && self.holders()[i].share == public_share_of(self.share_of())
        &&& decaf_valid_encoding(self.fvk_of().spend_verification_key@)
    }

    /// Deals a spend key to `n` custodians, `t` of whom can authorize a spend
    /// together: draws a signing key for each, has a dealer share a fresh
    /// spend key among their identifiers, draws the nullifier key, and gives
    /// each custodian its configuration, in the order of the keys.
    ///
    /// Nothing is dealt unless `2 <= t <= n`. All configurations name the
    /// same custodians and the same full viewing key.
    pub fn deal(rng: &mut Rng, t: u16, n: u16) -> (r: Result<Vec<Config>, CustodyError>)
        ensures
            !(2 <= t <= n) ==> r is Err,
            r matches Err(CustodyError::GroupKey) ==> 2 <= t <= n,
            r matches Ok(configs) ==> {
                &&& configs.len() == n
                &&& forall|i: int|
                    0 <= i < configs.len() ==> {
                        &&& (#[trigger] configs[i]).wf()
                        &&& configs[i].threshold_of() == t
                        &&& configs[i].holders().len() == n
                        &&& configs[i].holders() == configs[0].holders()
                        &&& configs[i].fvk_of() == configs[0].fvk_of()
                        &&& configs[i].own_key() == holder_keys(configs[0].holders())[i]
                    }
            },
    {
        let keys = draw_keys(rng, n);
        let identifiers = derive_identifiers(&keys)?;
        let dealing = match generate_with_dealer(n, t, &identifiers, rng) {
            Ok(dealing) => dealing,
            Err(e) => {
                return Err(CustodyError::Sharing(e));
            },
        };
        let mut holders: Vec<Holder> = Vec::new();
        let mut j: usize = 0;
        while j < keys.len()
            invariant
                j <= keys.len(),
                keys.len() == identifiers.len(),
                holders.len() == j,
                forall|k: int|
                    0 <= k < identifiers.len() ==> crate::frost::dealing_holds(
                        dealing,
                        #[trigger] identifiers[k],
                    ),
                forall|k: int|
                    0 <= k < j ==> verification_key_bytes((#[trigger] holders[k]).key)
                        == public_bytes(keys@)[k] && holders[k].share == public_share_of(
                        dealt_share(dealing, identifiers[k]),
                    ),
            decreases keys.len() - j,
        {
            let key = verification_key(&keys[j]);
            let share = verifying_share(&dealing, &identifiers[j]);
            holders.push(Holder { key, share });
            j += 1;
        }
        assert(holder_keys(holders@) =~= public_bytes(keys@));
        let spend_verification_key = group_public_bytes(&dealing);
        if decompress(&spend_verification_key).is_err() {
            return Err(CustodyError::GroupKey);
        }
        let fvk = FullViewingKey { spend_verification_key, nullifier_key: random_fq(rng) };
        let mut configs: Vec<Config> = Vec::new();
        let mut j: usize = 0;
        while j < keys.len()
            invariant
                j <= keys.len(),
                keys.len() == identifiers.len(),
                keys.len() == n,
                2 <= t <= n,
                holders.len() == keys.len(),
                holder_keys(holders@) == public_bytes(keys@),
                forall|k: int|
                    0 <= k < holders.len() ==> (#[trigger] holders[k]).share == public_share_of(
                        dealt_share(dealing, identifiers[k]),
                    ),
                distinct(public_bytes(keys@)),
                identified(public_bytes(keys@)),
                decaf_valid_encoding(fvk.spend_verification_key@),
                configs.len() == j,
                forall|k: int|
                    0 <= k < identifiers.len() ==> crate::frost::dealing_holds(
                        dealing,
                        #[trigger] identifiers[k],
                    ),
                forall|k: int|
                    0 <= k < j ==> {
                        &&& (#[trigger] configs[k]).wf()
                        &&& configs[k].threshold_of() == t
                        &&& configs[k].holders() == holders@
                        &&& configs[k].fvk_of() == fvk
                        &&& configs[k].own_key() == public_bytes(keys@)[k]
                    },
            decreases keys.len() - j,
        {
            let config = Config {
                threshold: t,
                fvk,
                spend_key_share: signing_share(&dealing, &identifiers[j]),
                signing_key: clone_signing_key(&keys[j]),
                verifying_shares: same_holders(&holders),
            };
            assert(holder_keys(config.holders())[j as int] == config.own_key());
            assert(config.holders()[j as int].share == public_share_of(config.share_of()));
            configs.push(config);
            j += 1;
        }
        Ok(configs)
    }

    /// The number of custodians that it takes to authorize a spend.
    pub fn threshold(&self) -> (r: u16)
        ensures
            r == self.threshold_of(),
    {
        self.threshold
    }

    /// The key that this custodian signs its messages to the others with.
    pub fn signing_key(&self) -> (r: &SigningKey)
        ensures
            *r == self.signing_key_of(),
    {
        &self.signing_key
    }

    /// The full viewing key of the shared spend key.
    pub fn fvk(&self) -> (r: &FullViewingKey)
        ensures
            *r == self.fvk_of(),
    {
        &self.fvk
    }

    /// The verification keys of all custodians, in order.
    pub fn verification_keys(&self) -> (r: Vec<VerificationKey>)
        ensures
            r.len() == self.holders().len(),
            forall|i: int| 0 <= i < r.len() ==> r[i] == self.holders()[i].key,
    {
        let mut keys: Vec<VerificationKey> = Vec::new();
        let mut j: usize = 0;
        while j < self.verifying_shares.len()
            invariant
                j <= self.verifying_shares.len(),
                keys.len() == j,
                forall|i: int| 0 <= i < j ==> keys[i] == self.verifying_shares@[i].key,
            decreases self.verifying_shares.len() - j,
        {
            keys.push(self.verifying_shares[j].key);
            j += 1;
        }
        keys
    }

    /// What this custodian signs with: its identifier, its share and the
    /// share's public counterpart, the group's key, and the threshold.
    ///
    /// It is there whenever the custodian's key has an identifier and the
    /// spend verification key is a group key of the sharing, as is so for
    /// every configuration that was dealt.
    pub fn key_package(&self) -> (r: Result<KeyPackage, CustodyError>)
        ensures
            match (
                identifier_of(self.own_key()),
                group_key_of(self.fvk_of().spend_verification_key@),
            ) {
                (Some(identifier), Some(group)) => r matches Ok(package) && package
                    == key_package_of(
                    identifier,
                    self.share_of(),
                    public_share_of(self.share_of()),
                    group,
                    self.threshold_of(),
                ) && key_package_threshold(package) == self.threshold_of(),
                _ => r matches Err(CustodyError::Sharing(_)),
            },
            self.wf() ==> r is Ok,
    {
        let bytes = verification_key_to_bytes(&verification_key(&self.signing_key));
        let identifier = match derive_identifier(&bytes) {
            Ok(identifier) => identifier,
            Err(e) => {
                return Err(CustodyError::Sharing(e));
            },
        };
        let group = match parse_group_key(&self.fvk.spend_verification_key) {
            Ok(group) => group,
            Err(e) => {
                return Err(CustodyError::Sharing(e));
            },
        };
        Ok(
            new_key_package(
                identifier,
                &self.spend_key_share,
                public_share(&self.spend_key_share),
                group,
                self.threshold,
            ),
        )
    }

    /// What anyone checks the custodians' signature shares against: each
    /// custodian's public share under its identifier, and the group's key.
    ///
    /// It is there whenever every custodian's key has an identifier and the
    /// spend verification key is a group key of the sharing, as is so for
    /// every configuration that was dealt.
    pub fn public_key_package(&self) -> (r: Result<PublicKeyPackage, CustodyError>)
        ensures
            match group_key_of(self.fvk_of().spend_verification_key@) {
                Some(group) if identified(holder_keys(self.holders())) => r matches Ok(package)
                    && package == public_key_package_of(
                    shares_by_identifier(self.holders()),
                    group,
                ),
                _ => r matches Err(CustodyError::Sharing(_)),
            },
            self.wf() ==> r is Ok,
    {
        let mut shares: Vec<(Identifier, VerifyingShare)> = Vec::new();
        let mut j: usize = 0;
        while j < self.verifying_shares.len()
            invariant
                j <= self.verifying_shares.len(),
                shares.len() == j,
                forall|k: int|
                    0 <= k < j ==> identifier_of(
                        #[trigger] holder_keys(self.holders())[k],
                    ) is Some,
                forall|k: int|
                    0 <= k < j ==> #[trigger] shares[k] == shares_by_identifier(
                        self.holders(),
                    )[k],
            decreases self.verifying_shares.len() - j,
        {
            let bytes = verification_key_to_bytes(&self.verifying_shares[j].key);
            assert(bytes@ == holder_keys(self.holders())[j as int]);
            match derive_identifier(&bytes) {
                Ok(identifier) => {
                    let share = clone_verifying_share(&self.verifying_shares[j].share);
                    shares.push((identifier, share));
                    assert(shares[j as int] == shares_by_identifier(self.holders())[j as int]);
                },
                Err(e) => {
                    assert(identifier_of(holder_keys(self.holders())[j as int]) is None);
                    return Err(CustodyError::Sharing(e));
                },
            }
            j += 1;
        }
        assert(shares@ =~= shares_by_identifier(self.holders()));
        match parse_group_key(&self.fvk.spend_verification_key) {
            Ok(group) => Ok(new_public_key_package(shares, group)),
            Err(e) => Err(CustodyError::Sharing(e)),
        }
    }
}

} // verus!
