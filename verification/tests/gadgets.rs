use ark_r1cs_std::R1CSVar;
use ark_relations::r1cs::ConstraintSystemRef;
use decaf377::{Element, Fq, Fr};
use shielded_gadgets::auth::{
    AuthorizationKeyVar, RandomizedVerificationKey, SpendAuthRandomizerVar,
};
use shielded_gadgets::backend::{BoolVar, Circuit};
use shielded_gadgets::derive::{NoteCommitmentVar, NullifierKeyVar, NullifierVar, PositionVar};
use shielded_gadgets::error::SynthesisFailure;
use shielded_gadgets::gadgets::{
    element_not_identity, AddressVar, AmountVar, AssetIdVar, NoteVar, ValueVar,
};
use shielded_gadgets::mode::{Kind, Mode};
use shielded_gadgets::note::{Address, Note, Value};
use shielded_gadgets::separator::{NOTECOMMIT_DOMAIN_SEP, NULLIFIER_DOMAIN_SEP};

fn point(k: u64) -> Element {
    Element::GENERATOR * Fr::from(k)
}

fn encoding(k: u64) -> [u8; 32] {
    point(k).vartime_compress().0
}

fn sample_note() -> Note {
    let mut clue_key = [0u8; 32];
    clue_key[0] = 7;
    clue_key[31] = 255;
    Note {
        value: Value { amount: 1_000_000u128, asset_id: Fq::from(77u64) },
        note_blinding: Fq::from(123_456_789u64),
        address: Address::from_components(point(3), encoding(5), clue_key),
    }
}

fn native_commitment(note: &Note) -> Fq {
    poseidon377::hash_6(
        &Fq::from_le_bytes_mod_order(&NOTECOMMIT_DOMAIN_SEP),
        (
            note.note_blinding,
            Fq::from(note.value.amount),
            note.value.asset_id,
            note.address.diversified_generator.vartime_compress_to_field(),
            note.address.transmission_key_s,
            Fq::from_le_bytes_mod_order(&note.address.clue_key),
        ),
    )
}

fn native_nullifier(nk: Fq, commitment: Fq, position: u64) -> Fq {
    poseidon377::hash_3(
        &Fq::from_le_bytes_mod_order(&NULLIFIER_DOMAIN_SEP),
        (nk, commitment, Fq::from(position)),
    )
}

fn commit_in_fresh_circuit(note: &Note) -> Fq {
    let mut c = Circuit::proving();
    let var = NoteVar::new_variable(&mut c, note, Mode::Witness).unwrap();
    let commitment = var.commit(&mut c).unwrap();
    assert!(c.cs.is_satisfied().unwrap());
    commitment.inner().inner.value().unwrap()
}

fn nullifier_in_fresh_circuit(nk: Fq, commitment: Fq, position: u64) -> Fq {
    let mut c = Circuit::proving();
    let nk_var = NullifierKeyVar::new_variable(&mut c, nk, Mode::Witness).unwrap();
    let cm_var = NoteCommitmentVar::new_variable(&mut c, commitment, Mode::Witness).unwrap();
    let pos_var = PositionVar::new_variable(&mut c, position, Mode::Witness).unwrap();
    let nf = nk_var.derive_nullifier(&mut c, &pos_var, &cm_var).unwrap();
    assert!(c.cs.is_satisfied().unwrap());
    nf.inner().inner.value().unwrap()
}

#[test]
fn commitment_is_the_native_hash() {
    let note = sample_note();
    assert_eq!(commit_in_fresh_circuit(&note), native_commitment(&note));
}

#[test]
fn commitment_is_deterministic() {
    let note = sample_note();
    let first = commit_in_fresh_circuit(&note);
    let second = commit_in_fresh_circuit(&note);
    assert_eq!(first, second);
}

#[test]
fn separators_differ() {
    assert_ne!(NOTECOMMIT_DOMAIN_SEP, NULLIFIER_DOMAIN_SEP);
    assert_ne!(
        Fq::from_le_bytes_mod_order(&NOTECOMMIT_DOMAIN_SEP),
        Fq::from_le_bytes_mod_order(&NULLIFIER_DOMAIN_SEP)
    );
}

#[test]
fn separators_are_canonical() {
    assert_eq!(
        Fq::from_le_bytes_mod_order(&NOTECOMMIT_DOMAIN_SEP).to_bytes(),
        NOTECOMMIT_DOMAIN_SEP
    );
    assert_eq!(
        Fq::from_le_bytes_mod_order(&NULLIFIER_DOMAIN_SEP).to_bytes(),
        NULLIFIER_DOMAIN_SEP
    );
}

#[test]
fn commitment_and_nullifier_do_not_collide_on_shared_inputs() {
    let note = sample_note();
    let commitment = commit_in_fresh_circuit(&note);
    let nullifier = nullifier_in_fresh_circuit(note.note_blinding, commitment, 1_000_000);
    assert_ne!(commitment, nullifier);
    let x = Fq::from(9u64);
    let under_commit =
        poseidon377::hash_3(&Fq::from_le_bytes_mod_order(&NOTECOMMIT_DOMAIN_SEP), (x, x, x));
    let under_nullifier =
        poseidon377::hash_3(&Fq::from_le_bytes_mod_order(&NULLIFIER_DOMAIN_SEP), (x, x, x));
    assert_ne!(under_commit, under_nullifier);
}

#[test]
fn commitment_changes_with_the_blinding() {
    let note = sample_note();
    let mut other = note;
    other.note_blinding = Fq::from(123_456_790u64);
    assert_ne!(commit_in_fresh_circuit(&note), commit_in_fresh_circuit(&other));
}

#[test]
fn commitment_changes_with_the_amount() {
    let note = sample_note();
    let mut other = note;
    other.value.amount = 1_000_001;
    assert_ne!(commit_in_fresh_circuit(&note), commit_in_fresh_circuit(&other));
}

#[test]
fn commitment_changes_with_the_asset() {
    let note = sample_note();
    let mut other = note;
    other.value.asset_id = Fq::from(78u64);
    assert_ne!(commit_in_fresh_circuit(&note), commit_in_fresh_circuit(&other));
}

#[test]
fn commitment_changes_with_the_diversified_generator() {
    let note = sample_note();
    let mut other = note;
    other.address.diversified_generator = point(4);
    assert_ne!(commit_in_fresh_circuit(&note), commit_in_fresh_circuit(&other));
}

#[test]
fn commitment_changes_with_the_transmission_key() {
    let note = sample_note();
    let mut other = note;
    other.address = Address::from_components(
        note.address.diversified_generator,
        encoding(6),
        note.address.clue_key,
    );
    assert_ne!(commit_in_fresh_circuit(&note), commit_in_fresh_circuit(&other));
}

#[test]
fn commitment_changes_with_the_clue_key() {
    let note = sample_note();
    let mut other = note;
    other.address.clue_key[0] = 8;
    assert_ne!(commit_in_fresh_circuit(&note), commit_in_fresh_circuit(&other));
}

#[test]
fn commitment_takes_the_inputs_in_order() {
    let note = sample_note();
    let mut swapped = note;
    swapped.note_blinding = note.value.asset_id;
    swapped.value.asset_id = note.note_blinding;
    assert_ne!(commit_in_fresh_circuit(&note), commit_in_fresh_circuit(&swapped));
    assert_eq!(commit_in_fresh_circuit(&swapped), native_commitment(&swapped));
}

#[test]
fn nullifier_is_the_native_hash() {
    let nk = Fq::from(31u64);
    let cm = Fq::from(41u64);
    assert_eq!(nullifier_in_fresh_circuit(nk, cm, 59), native_nullifier(nk, cm, 59));
}

#[test]
fn nullifier_changes_with_each_input() {
    let nk = Fq::from(31u64);
    let cm = Fq::from(41u64);
    let base = nullifier_in_fresh_circuit(nk, cm, 59);
    assert_ne!(base, nullifier_in_fresh_circuit(Fq::from(32u64), cm, 59));
    assert_ne!(base, nullifier_in_fresh_circuit(nk, Fq::from(42u64), 59));
    assert_ne!(base, nullifier_in_fresh_circuit(nk, cm, 60));
    assert_ne!(base, nullifier_in_fresh_circuit(cm, nk, 59));
}

#[test]
fn end_to_end_commit_then_nullify() {
    let note = sample_note();
    let nk = Fq::from(2_718_281u64);
    let position = 4_294_967_296u64;

    let mut c = Circuit::proving();
    let note_var = NoteVar::new_variable(&mut c, &note, Mode::Witness).unwrap();
    let commitment = note_var.commit(&mut c).unwrap();
    let nk_var = NullifierKeyVar::new_variable(&mut c, nk, Mode::Witness).unwrap();
    let pos_var = PositionVar::new_variable(&mut c, position, Mode::Witness).unwrap();
    let nullifier = nk_var.derive_nullifier(&mut c, &pos_var, &commitment).unwrap();
    let first = nullifier.inner().inner.value().unwrap();

    let cm = commitment.inner().inner.value().unwrap();
    assert_eq!(cm, native_commitment(&note));
    assert_eq!(first, native_nullifier(nk, cm, position));

    let second = nullifier_in_fresh_circuit(nk, commit_in_fresh_circuit(&note), position);
    assert_eq!(first.to_bytes(), second.to_bytes());

    let declared_cm = NoteCommitmentVar::new_variable(&mut c, cm, Mode::Input).unwrap();
    let declared_nf = NullifierVar::new_variable(&mut c, first, Mode::Input).unwrap();
    let same_cm = commitment.is_eq(&mut c, &declared_cm).unwrap();
    let same_nf = nullifier.is_eq(&mut c, &declared_nf).unwrap();
    assert_eq!(same_cm.inner.value().unwrap(), true);
    assert_eq!(same_nf.inner.value().unwrap(), true);
    assert_eq!(c.cs.num_instance_variables(), 3);
    assert!(c.cs.is_satisfied().unwrap());
}

#[test]
fn equality_tells_different_values_apart() {
    let mut c = Circuit::proving();
    let a = NoteCommitmentVar::new_variable(&mut c, Fq::from(1u64), Mode::Witness).unwrap();
    let b = NoteCommitmentVar::new_variable(&mut c, Fq::from(2u64), Mode::Input).unwrap();
    assert_eq!(a.is_eq(&mut c, &b).unwrap().inner.value().unwrap(), false);
    assert_eq!(a.is_eq(&mut c, &a).unwrap().inner.value().unwrap(), true);
    let x = NullifierVar::new_variable(&mut c, Fq::from(1u64), Mode::Input).unwrap();
    let y = NullifierVar::new_variable(&mut c, Fq::from(2u64), Mode::Input).unwrap();
    assert_eq!(x.is_eq(&mut c, &y).unwrap().inner.value().unwrap(), false);
    assert_eq!(x.is_eq(&mut c, &x).unwrap().inner.value().unwrap(), true);
    assert!(c.cs.is_satisfied().unwrap());
}

#[test]
fn scalar_gadgets_carry_their_values() {
    let mut c = Circuit::proving();
    let amount = AmountVar::new_variable(&mut c, u128::MAX, Mode::Witness).unwrap();
    let asset = AssetIdVar::new_variable(&mut c, Fq::from(5u64), Mode::Witness).unwrap();
    let value = ValueVar::new_variable(
        &mut c,
        &Value { amount: 12, asset_id: Fq::from(13u64) },
        Mode::Witness,
    )
    .unwrap();
    let position = PositionVar::new_variable(&mut c, u64::MAX, Mode::Witness).unwrap();
    let _ = (amount, asset);
    assert_eq!(value.amount().inner.value().unwrap(), Fq::from(12u64));
    assert_eq!(value.asset_id().inner.value().unwrap(), Fq::from(13u64));
    assert_eq!(position.inner().inner.value().unwrap(), Fq::from(u64::MAX));
    assert_eq!(
        position.inner().inner.value().unwrap().to_bytes()[..8],
        [255u8; 8]
    );
    assert_eq!(c.cs.num_witness_variables(), 5);
    assert_eq!(c.cs.num_instance_variables(), 1);
    assert_eq!(c.cs.num_constraints(), 0);
}

#[test]
fn amount_is_not_reduced() {
    let mut c = Circuit::proving();
    let value = ValueVar::new_variable(
        &mut c,
        &Value { amount: u128::MAX, asset_id: Fq::from(0u64) },
        Mode::Witness,
    )
    .unwrap();
    let mut expected = [0u8; 32];
    for byte in expected.iter_mut().take(16) {
        *byte = 255;
    }
    assert_eq!(value.amount().inner.value().unwrap().to_bytes(), expected);
}

#[test]
fn note_getters_hand_out_the_parts() {
    let note = sample_note();
    let mut c = Circuit::proving();
    let var = NoteVar::new_variable(&mut c, &note, Mode::Witness).unwrap();
    assert_eq!(var.amount().inner.value().unwrap(), Fq::from(1_000_000u64));
    assert_eq!(var.asset_id().inner.value().unwrap(), Fq::from(77u64));
    assert_eq!(var.note_blinding().inner.value().unwrap(), note.note_blinding);
    assert_eq!(var.diversified_generator().element().value().unwrap(), point(3));
    assert_eq!(var.transmission_key().element().value().unwrap(), point(5));
    assert_eq!(var.transmission_key_s().inner.value().unwrap(), note.address.transmission_key_s);
    assert_eq!(
        var.clue_key().inner.value().unwrap(),
        Fq::from_le_bytes_mod_order(&note.address.clue_key)
    );
    assert!(c.cs.is_satisfied().unwrap());
}

#[test]
fn clue_key_is_reduced() {
    let address = Address::from_components(point(1), encoding(2), [255u8; 32]);
    let mut c = Circuit::proving();
    let var = AddressVar::new_variable(&mut c, &address, Mode::Witness).unwrap();
    let carried = var.clue_key().inner.value().unwrap();
    assert_ne!(carried.to_bytes(), [255u8; 32]);
    assert_eq!(carried, Fq::from_le_bytes_mod_order(&[255u8; 32]));
    assert_eq!(
        carried.to_bytes(),
        [
            242, 255, 255, 255, 255, 127, 28, 125, 242, 255, 255, 111, 15, 245, 87, 114, 238, 15,
            44, 81, 117, 21, 216, 22, 157, 154, 187, 43, 50, 218, 75, 13
        ]
    );
}

#[test]
fn address_forms_of_the_transmission_key_agree() {
    for k in [1u64, 2, 5, 1_000_003] {
        let address = Address::from_components(point(9), encoding(k), [1u8; 32]);
        assert_eq!(address.transmission_key_s.to_bytes(), encoding(k));
        let mut c = Circuit::proving();
        let var = AddressVar::new_variable(&mut c, &address, Mode::Witness).unwrap();
        let compressed = var.transmission_key().element().compress_to_field().unwrap();
        assert_eq!(
            compressed.value().unwrap(),
            var.transmission_key_s().inner.value().unwrap()
        );
        assert_eq!(var.diversified_generator().element().value().unwrap(), point(9));
        assert!(c.cs.is_satisfied().unwrap());
    }
}

#[test]
fn address_with_an_independent_field_form_is_taken_as_given() {
    let mut address = Address::from_components(point(9), encoding(4), [1u8; 32]);
    address.transmission_key_s = Fq::from(1u64);
    let mut c = Circuit::proving();
    let var = AddressVar::new_variable(&mut c, &address, Mode::Witness).unwrap();
    assert_eq!(var.transmission_key_s().inner.value().unwrap(), Fq::from(1u64));
    assert_eq!(var.transmission_key().element().value().unwrap(), point(4));
    assert!(c.cs.is_satisfied().unwrap());
}

#[test]
fn invalid_transmission_key_is_refused() {
    let mut bad = [0u8; 32];
    bad[0] = 1;
    let address = Address::from_components(point(9), bad, [1u8; 32]);
    let mut c = Circuit::proving();
    let r = AddressVar::new_variable(&mut c, &address, Mode::Witness);
    assert!(matches!(r, Err(SynthesisFailure::InvalidEncoding)));
    assert_eq!(c.cs.num_witness_variables(), 0);
    let mut note = sample_note();
    note.address = address;
    let r = NoteVar::new_variable(&mut c, &note, Mode::Witness);
    assert!(matches!(r, Err(SynthesisFailure::InvalidEncoding)));
}

#[test]
fn invalid_keys_are_refused() {
    let mut c = Circuit::proving();
    let r = AuthorizationKeyVar::new_variable(&mut c, &[255u8; 32], Mode::Witness);
    assert!(matches!(r, Err(SynthesisFailure::InvalidEncoding)));
    let mut bad = [0u8; 32];
    bad[0] = 7;
    let r = RandomizedVerificationKey::new_variable(&mut c, &bad, Mode::Input);
    assert!(matches!(r, Err(SynthesisFailure::InvalidEncoding)));
    assert_eq!(c.cs.num_witness_variables(), 0);
    assert_eq!(c.cs.num_constraints(), 0);
}

#[test]
fn circuit_without_a_backend_refuses_allocation() {
    let mut c = Circuit { cs: ConstraintSystemRef::None };
    assert!(!c.is_live());
    let r = AmountVar::new_variable(&mut c, 1, Mode::Witness);
    assert!(matches!(
        r,
        Err(SynthesisFailure::Backend(ark_relations::r1cs::SynthesisError::MissingCS))
    ));
    let r = NullifierVar::new_variable(&mut c, Fq::from(1u64), Mode::Input);
    assert!(matches!(r, Err(SynthesisFailure::Backend(_))));
    let r = NoteVar::new_variable(&mut c, &sample_note(), Mode::Witness);
    assert!(matches!(r, Err(SynthesisFailure::Backend(_))));
}

#[test]
fn modes_follow_the_privacy_boundary() {
    let witness_only = [
        Kind::Amount,
        Kind::AssetId,
        Kind::Value,
        Kind::Address,
        Kind::Note,
        Kind::Position,
        Kind::NullifierKey,
        Kind::AuthorizationKey,
        Kind::SpendAuthRandomizer,
    ];
    for kind in witness_only {
        assert!(kind.accepts(Mode::Witness));
        assert!(!kind.accepts(Mode::Input));
        assert!(!kind.accepts(Mode::Constant));
    }
    assert!(Kind::NoteCommitment.accepts(Mode::Witness));
    assert!(Kind::NoteCommitment.accepts(Mode::Input));
    assert!(!Kind::NoteCommitment.accepts(Mode::Constant));
    for kind in [Kind::Nullifier, Kind::RandomizedVerificationKey] {
        assert!(kind.accepts(Mode::Input));
        assert!(!kind.accepts(Mode::Witness));
        assert!(!kind.accepts(Mode::Constant));
    }
}

#[test]
fn supported_modes_succeed() {
    let note = sample_note();
    let mut c = Circuit::proving();
    assert!(c.is_live());
    assert!(!c.is_in_setup());
    assert!(AmountVar::new_variable(&mut c, 1, Mode::Witness).is_ok());
    assert!(AssetIdVar::new_variable(&mut c, Fq::from(1u64), Mode::Witness).is_ok());
    assert!(ValueVar::new_variable(&mut c, &note.value, Mode::Witness).is_ok());
    assert!(AddressVar::new_variable(&mut c, &note.address, Mode::Witness).is_ok());
    assert!(NoteVar::new_variable(&mut c, &note, Mode::Witness).is_ok());
    assert!(NoteCommitmentVar::new_variable(&mut c, Fq::from(1u64), Mode::Witness).is_ok());
    assert!(NoteCommitmentVar::new_variable(&mut c, Fq::from(1u64), Mode::Input).is_ok());
    assert!(PositionVar::new_variable(&mut c, 1, Mode::Witness).is_ok());
    assert!(NullifierKeyVar::new_variable(&mut c, Fq::from(1u64), Mode::Witness).is_ok());
    assert!(NullifierVar::new_variable(&mut c, Fq::from(1u64), Mode::Input).is_ok());
    assert!(AuthorizationKeyVar::new_variable(&mut c, &encoding(1), Mode::Witness).is_ok());
    assert!(RandomizedVerificationKey::new_variable(&mut c, &encoding(1), Mode::Input).is_ok());
    assert!(SpendAuthRandomizerVar::new_variable(&mut c, &Fr::from(1u64), Mode::Witness).is_ok());
    assert_eq!(c.cs.num_instance_variables(), 4);
    assert!(c.cs.is_satisfied().unwrap());
}

#[test]
fn setup_circuit_has_the_shape_and_no_values() {
    let note = sample_note();
    let mut proving = Circuit::proving();
    let mut setup = Circuit::setup();
    assert!(setup.is_in_setup());
    assert!(setup.is_live());
    for c in [&mut proving, &mut setup] {
        let var = NoteVar::new_variable(c, &note, Mode::Witness).unwrap();
        let commitment = var.commit(c).unwrap();
        let nk = NullifierKeyVar::new_variable(c, Fq::from(3u64), Mode::Witness).unwrap();
        let pos = PositionVar::new_variable(c, 4, Mode::Witness).unwrap();
        let nf = nk.derive_nullifier(c, &pos, &commitment).unwrap();
        let ak = AuthorizationKeyVar::new_variable(c, &encoding(11), Mode::Witness).unwrap();
        let r = SpendAuthRandomizerVar::new_variable(c, &Fr::from(12u64), Mode::Witness).unwrap();
        let rk = ak.randomize(c, &r).unwrap();
        let _ = rk.compress_to_field(c).unwrap();
        let flag = BoolVar::new_variable(c, true, Mode::Witness).unwrap();
        element_not_identity(c, &flag, ak.inner()).unwrap();
        if c.is_in_setup() {
            assert!(commitment.inner().inner.value().is_err());
            assert!(nf.inner().inner.value().is_err());
            assert!(rk.inner().element().value().is_err());
            assert!(var.amount().inner.value().is_err());
        } else {
            assert!(commitment.inner().inner.value().is_ok());
            assert!(nf.inner().inner.value().is_ok());
            assert!(rk.inner().element().value().is_ok());
        }
    }
    assert_eq!(proving.cs.num_constraints(), setup.cs.num_constraints());
    assert_eq!(proving.cs.num_witness_variables(), setup.cs.num_witness_variables());
    assert_eq!(proving.cs.num_instance_variables(), setup.cs.num_instance_variables());
    assert!(proving.cs.is_satisfied().unwrap());
}

#[test]
fn identity_is_rejected_only_when_enforced() {
    let identity = [0u8; 32];
    for (enforce, key, satisfied) in [
        (true, identity, false),
        (false, identity, true),
        (true, encoding(1), true),
        (false, encoding(1), true),
        (true, encoding(77), true),
    ] {
        let mut c = Circuit::proving();
        let flag = BoolVar::new_variable(&mut c, enforce, Mode::Witness).unwrap();
        let ak = AuthorizationKeyVar::new_variable(&mut c, &key, Mode::Witness).unwrap();
        assert!(c.cs.is_satisfied().unwrap());
        element_not_identity(&mut c, &flag, ak.inner()).unwrap();
        assert_eq!(c.cs.is_satisfied().unwrap(), satisfied);
    }
}

#[test]
fn identity_check_with_a_constant_flag() {
    for (enforce, satisfied) in [(true, false), (false, true)] {
        let mut c = Circuit::proving();
        let flag = BoolVar::new_variable(&mut c, enforce, Mode::Constant).unwrap();
        let ak = AuthorizationKeyVar::new_variable(&mut c, &[0u8; 32], Mode::Witness).unwrap();
        element_not_identity(&mut c, &flag, ak.inner()).unwrap();
        assert_eq!(c.cs.is_satisfied().unwrap(), satisfied);
    }
}

#[test]
fn randomized_key_is_key_plus_randomizer_times_generator() {
    for (k, r) in [(1u64, 1u64), (5, 7), (1_000_003, 987_654_321), (2, u64::MAX)] {
        let mut c = Circuit::proving();
        let ak = AuthorizationKeyVar::new_variable(&mut c, &encoding(k), Mode::Witness).unwrap();
        let randomizer =
            SpendAuthRandomizerVar::new_variable(&mut c, &Fr::from(r), Mode::Witness).unwrap();
        let rk = ak.randomize(&mut c, &randomizer).unwrap();
        let expected = point(k) + Element::GENERATOR * Fr::from(r);
        assert_eq!(rk.inner().element().value().unwrap(), expected);
        let compressed = rk.compress_to_field(&mut c).unwrap();
        assert_eq!(compressed.inner.value().unwrap(), expected.vartime_compress_to_field());
        assert_ne!(compressed.inner.value().unwrap(), point(k).vartime_compress_to_field());
        assert!(c.cs.is_satisfied().unwrap());
    }
}

#[test]
fn randomized_key_matches_the_signature_scheme() {
    let k = Fr::from(424_242u64);
    let r = Fr::from(171_717u64);
    let key_bytes = (Element::GENERATOR * k).vartime_compress().0;
    let vk =
        decaf377_rdsa::VerificationKey::<decaf377_rdsa::SpendAuth>::try_from(key_bytes).unwrap();
    let expected = vk.randomize(&r).to_bytes();

    let mut c = Circuit::proving();
    let ak = AuthorizationKeyVar::new_variable(&mut c, &vk.to_bytes(), Mode::Witness).unwrap();
    let randomizer = SpendAuthRandomizerVar::new_variable(&mut c, &r, Mode::Witness).unwrap();
    let rk = ak.randomize(&mut c, &randomizer).unwrap();
    assert_eq!(rk.inner().element().value().unwrap().vartime_compress().0, expected);

    let declared = RandomizedVerificationKey::new_variable(&mut c, &expected, Mode::Input).unwrap();
    assert_eq!(
        declared.compress_to_field(&mut c).unwrap().inner.value().unwrap(),
        rk.compress_to_field(&mut c).unwrap().inner.value().unwrap()
    );
    assert!(c.cs.is_satisfied().unwrap());
}

#[test]
fn zero_randomizer_gives_the_key_back() {
    let mut c = Circuit::proving();
    let ak = AuthorizationKeyVar::new_variable(&mut c, &encoding(5), Mode::Witness).unwrap();
    let zero =
        SpendAuthRandomizerVar::new_variable(&mut c, &Fr::from(0u64), Mode::Witness).unwrap();
    let rk = ak.randomize(&mut c, &zero).unwrap();
    let before = ak.compress_to_field(&mut c).unwrap().inner.value().unwrap();
    let after = rk.compress_to_field(&mut c).unwrap().inner.value().unwrap();
    assert_eq!(before, after);
    assert_eq!(after.to_bytes(), encoding(5));
    assert!(c.cs.is_satisfied().unwrap());
}

#[test]
fn authorization_key_compresses_to_its_encoding() {
    let mut c = Circuit::proving();
    let ak = AuthorizationKeyVar::new_variable(&mut c, &encoding(8), Mode::Witness).unwrap();
    let s = ak.compress_to_field(&mut c).unwrap().inner.value().unwrap();
    assert_eq!(s.to_bytes(), encoding(8));
    let generator = AuthorizationKeyVar::new_variable(&mut c, &encoding(1), Mode::Witness).unwrap();
    let s = generator.compress_to_field(&mut c).unwrap().inner.value().unwrap();
    assert_eq!(s, Fq::from(8u64));
}

#[test]
fn randomized_key_equality_looks_at_one_side_only() {
    let mut c = Circuit::proving();
    let a = RandomizedVerificationKey::new_variable(&mut c, &encoding(2), Mode::Input).unwrap();
    let b = RandomizedVerificationKey::new_variable(&mut c, &encoding(3), Mode::Input).unwrap();
    assert_ne!(a.inner().element().value().unwrap(), b.inner().element().value().unwrap());
    assert_eq!(a.is_eq(&mut c, &b).unwrap().inner.value().unwrap(), true);
    assert_eq!(b.is_eq(&mut c, &a).unwrap().inner.value().unwrap(), true);
    assert_eq!(a.is_eq(&mut c, &a).unwrap().inner.value().unwrap(), true);
    assert_eq!(c.cs.num_instance_variables(), 3);
    assert!(c.cs.is_satisfied().unwrap());
}

#[test]
fn randomizer_is_witnessed_byte_by_byte() {
    let mut c = Circuit::proving();
    let r = Fr::from(0x0102_0304u64);
    let _ = SpendAuthRandomizerVar::new_variable(&mut c, &r, Mode::Witness).unwrap();
    assert_eq!(c.cs.num_witness_variables(), 256);
    assert_eq!(c.cs.num_constraints(), 256);
    assert_eq!(r.to_bytes()[..4], [4u8, 3, 2, 1]);
}

#[test]
fn from_components_takes_the_field_form_from_the_bytes() {
    let address = Address::from_components(point(2), encoding(3), [9u8; 32]);
    assert_eq!(address.diversified_generator, point(2));
    assert_eq!(address.transmission_key, encoding(3));
    assert_eq!(address.clue_key, [9u8; 32]);
    assert_eq!(address.transmission_key_s, Fq::from_le_bytes_mod_order(&encoding(3)));
    let reduced = Address::from_components(point(2), [255u8; 32], [9u8; 32]);
    assert_eq!(reduced.transmission_key_s, Fq::from_le_bytes_mod_order(&[255u8; 32]));
}

#[test]
fn separators_come_from_their_labels() {
    let notecommit = blake2b_simd::blake2b(b"penumbra.notecommit");
    let nullifier = blake2b_simd::blake2b(b"penumbra.nullifier");
    assert_eq!(
        Fq::from_le_bytes_mod_order(notecommit.as_bytes()).to_bytes(),
        NOTECOMMIT_DOMAIN_SEP
    );
    assert_eq!(
        Fq::from_le_bytes_mod_order(nullifier.as_bytes()).to_bytes(),
        NULLIFIER_DOMAIN_SEP
    );
}

#[test]
fn generator_randomized_by_two_is_three_generators() {
    let mut c = Circuit::proving();
    let ak = AuthorizationKeyVar::new_variable(&mut c, &encoding(1), Mode::Witness).unwrap();
    let two = SpendAuthRandomizerVar::new_variable(&mut c, &Fr::from(2u64), Mode::Witness)
        .unwrap();
    assert_eq!(Fr::from(2u64).to_bytes()[0], 2);
    assert_eq!(Fr::from(2u64).to_bytes()[1..], [0u8; 31]);
    let rk = ak.randomize(&mut c, &two).unwrap();
    let expected = Element::GENERATOR + Element::GENERATOR + Element::GENERATOR;
    assert_eq!(rk.inner().element().value().unwrap(), expected);
    assert_eq!(rk.inner().element().value().unwrap(), point(3));
    assert!(c.cs.is_satisfied().unwrap());
    assert_eq!(c.cs.num_instance_variables(), 1);
}

#[test]
fn identity_check_with_a_false_flag_succeeds_whatever_the_element() {
    for key in [[0u8; 32], encoding(1), encoding(123)] {
        let mut c = Circuit::proving();
        let flag = BoolVar::new_variable(&mut c, false, Mode::Witness).unwrap();
        let ak = AuthorizationKeyVar::new_variable(&mut c, &key, Mode::Witness).unwrap();
        assert!(element_not_identity(&mut c, &flag, ak.inner()).is_ok());
        assert_eq!(c.cs.is_satisfied().unwrap(), true);
    }
}
