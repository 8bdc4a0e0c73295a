use cubic_circuit::checker::verify_assignment;
use cubic_circuit::chip::MyChip;
use cubic_circuit::circuit::{compute_result, MyCircuit};
use cubic_circuit::error::SynthesisError;
use cubic_circuit::field::Felt;
use cubic_circuit::layout::ColumnKind;
use cubic_circuit::region::{Assignment, Context};
use cubic_circuit::value::{value_add, value_mul, Value};

#[test]
fn witnessed_pass_satisfies_constraints() {
    let config = MyCircuit::configure();
    let x = Felt::from_u64(3);
    let c = Felt::from_u64(5);
    let circ = MyCircuit { constant: c, x: Some(x) };
    let asg = circ.synthesize(config, Context::Prover).unwrap();
    let result = compute_result(x, c);
    assert_eq!(result, Felt::from_u64(35));
    let public = vec![result];
    assert!(verify_assignment(&asg, &public));
}

#[test]
fn arbitrary_witness_satisfies_its_own_claim() {
    let config = MyCircuit::configure();
    let x = Felt {
        l0: 0xdead_beef_0123_4567,
        l1: 0x89ab_cdef_fedc_ba98,
        l2: 0x0f1e_2d3c_4b5a_6978,
        l3: 0x0123_4567_89ab_cdef,
    };
    let c = Felt::from_u64(5);
    let circ = MyCircuit { constant: c, x: Some(x) };
    let asg = circ.synthesize(config, Context::Prover).unwrap();
    let public = vec![compute_result(x, c)];
    assert!(verify_assignment(&asg, &public));
}

#[test]
fn wrong_claim_fails_constraints() {
    let config = MyCircuit::configure();
    let x = Felt::from_u64(4);
    let c = Felt::from_u64(5);
    let circ = MyCircuit { constant: c, x: Some(x) };
    let asg = circ.synthesize(config, Context::Prover).unwrap();
    assert_eq!(compute_result(x, c), Felt::from_u64(73));
    let public = vec![Felt::from_u64(35)];
    assert!(!verify_assignment(&asg, &public));
}

#[test]
fn off_by_one_claim_fails_constraints() {
    let config = MyCircuit::configure();
    let x = Felt::from_u64(3);
    let c = Felt::from_u64(5);
    let circ = MyCircuit { constant: c, x: Some(x) };
    let asg = circ.synthesize(config, Context::Prover).unwrap();
    let public = vec![Felt::from_u64(34)];
    assert!(!verify_assignment(&asg, &public));
}

#[test]
fn missing_witness_is_a_synthesis_error() {
    let config = MyCircuit::configure();
    let circ = MyCircuit { constant: Felt::from_u64(5), x: None };
    let err = circ.synthesize(config, Context::Prover).unwrap_err();
    assert_eq!(err, SynthesisError::MissingValue);
}

#[test]
fn structure_only_pass_never_needs_the_witness() {
    let config = MyCircuit::configure();
    let circ = MyCircuit { constant: Felt::from_u64(5), x: Some(Felt::from_u64(3)) };
    let shape = circ.without_witnesses();
    assert_eq!(shape.x, None);
    let asg = shape.synthesize(config, Context::StructureOnly).unwrap();
    assert_eq!(asg.advice0.len(), 10);
    assert_eq!(asg.advice0[0], Value::Unknown);
    assert_eq!(asg.advice0[9], Value::Unknown);
    // the constant is part of the layout, not of the witness
    assert_eq!(asg.advice0[1], Value::Known(Felt::zero()));
}

#[test]
fn structure_matches_witnessed_layout() {
    let config = MyCircuit::configure();
    let c = Felt::from_u64(5);
    let witnessed = MyCircuit { constant: c, x: Some(Felt::from_u64(3)) }
        .synthesize(config, Context::Prover)
        .unwrap();
    let shape = MyCircuit { constant: c, x: None }
        .synthesize(config, Context::StructureOnly)
        .unwrap();
    assert_eq!(witnessed.regions, shape.regions);
    assert_eq!(witnessed.s_mul, shape.s_mul);
    assert_eq!(witnessed.s_add, shape.s_add);
    assert_eq!(witnessed.copies, shape.copies);
    assert_eq!(witnessed.constants, shape.constants);
    assert_eq!(witnessed.instance, shape.instance);
    assert_eq!(witnessed.advice0.len(), shape.advice0.len());
    assert_eq!(witnessed.advice1.len(), shape.advice1.len());
}

#[test]
fn same_witness_gives_identical_layouts() {
    let config = MyCircuit::configure();
    let circ = MyCircuit { constant: Felt::from_u64(5), x: Some(Felt::from_u64(3)) };
    let a = circ.synthesize(config, Context::Prover).unwrap();
    let b = circ.synthesize(config, Context::Prover).unwrap();
    assert_eq!(a.advice0, b.advice0);
    assert_eq!(a.advice1, b.advice1);
    assert_eq!(a.s_mul, b.s_mul);
    assert_eq!(a.s_add, b.s_add);
    assert_eq!(a.regions, b.regions);
    assert_eq!(a.copies, b.copies);
    assert_eq!(a.constants, b.constants);
    assert_eq!(a.instance, b.instance);
}

#[test]
fn rows_without_selectors_constrain_nothing() {
    let chip = MyChip::new(MyCircuit::configure());
    let mut asg = Assignment::new(Context::Prover, 1);
    chip.load_private(&mut asg, Some(Felt::from_u64(7))).unwrap();
    chip.load_constant(&mut asg, Felt::from_u64(9)).unwrap();
    assert!(asg.s_mul.iter().all(|b| !b));
    assert!(asg.s_add.iter().all(|b| !b));
    // arbitrary, unrelated advice values: no gate fires, nothing fails
    let public: Vec<Felt> = vec![];
    assert!(verify_assignment(&asg, &public));
}

#[test]
fn exposing_the_final_cell_succeeds_where_an_intermediate_fails() {
    let chip = MyChip::new(MyCircuit::configure());
    let x_val = Felt::from_u64(3);
    let c_val = Felt::from_u64(5);
    let claimed = compute_result(x_val, c_val);

    let mut asg = Assignment::new(Context::Prover, 1);
    let x = chip.load_private(&mut asg, Some(x_val)).unwrap();
    let k = chip.load_constant(&mut asg, c_val).unwrap();
    let x2 = chip.mul(&mut asg, x, x).unwrap();
    let x3 = chip.mul(&mut asg, x2, x).unwrap();
    let x3_x = chip.add(&mut asg, x3, x).unwrap();
    let res = chip.add(&mut asg, x3_x, k).unwrap();
    chip.expose_public(&mut asg, res, 0).unwrap();
    assert!(verify_assignment(&asg, &vec![claimed]));

    // same computation, but the intermediate sum exposed instead
    let mut swapped = Assignment::new(Context::Prover, 1);
    let x = chip.load_private(&mut swapped, Some(x_val)).unwrap();
    let k = chip.load_constant(&mut swapped, c_val).unwrap();
    let x2 = chip.mul(&mut swapped, x, x).unwrap();
    let x3 = chip.mul(&mut swapped, x2, x).unwrap();
    let x3_x = chip.add(&mut swapped, x3, x).unwrap();
    let _res = chip.add(&mut swapped, x3_x, k).unwrap();
    chip.expose_public(&mut swapped, x3_x, 0).unwrap();
    assert!(!verify_assignment(&swapped, &vec![claimed]));
}

#[test]
fn expose_public_checks_the_instance_arity() {
    let chip = MyChip::new(MyCircuit::configure());
    let mut asg = Assignment::new(Context::Prover, 1);
    let h = chip.load_private(&mut asg, Some(Felt::from_u64(3))).unwrap();
    let err = chip.expose_public(&mut asg, h, 1).unwrap_err();
    assert_eq!(err, SynthesisError::PublicRowOutOfRange);
}

#[test]
fn unknown_operands_propagate_without_fabricating_values() {
    let known = Value::Known(Felt::from_u64(6));
    assert_eq!(value_mul(Value::Unknown, known), Value::Unknown);
    assert_eq!(value_add(known, Value::Unknown), Value::Unknown);
    assert_eq!(
        value_mul(known, Value::Known(Felt::from_u64(7))),
        Value::Known(Felt::from_u64(42))
    );
    assert_eq!(
        value_add(known, Value::Known(Felt::from_u64(7))),
        Value::Known(Felt::from_u64(13))
    );
}

#[test]
fn configure_declares_the_fixed_shape() {
    let config = MyCircuit::configure();
    assert_eq!(config.advice0.index, 0);
    assert_eq!(config.advice0.kind, ColumnKind::Private);
    assert_eq!(config.advice1.index, 1);
    assert_eq!(config.advice1.kind, ColumnKind::Private);
    assert_eq!(config.instance.kind, ColumnKind::Public);
    assert_eq!(config.constant.kind, ColumnKind::Fixed);
    assert_ne!(config.s_mul.index, config.s_add.index);
    let chip = MyChip::new(config);
    assert_eq!(*chip.config(), config);
}

#[test]
fn field_helpers_encode_small_integers() {
    let five = Felt::from_u64(5);
    assert_eq!(five, Felt { l0: 5, l1: 0, l2: 0, l3: 0 });
    assert_eq!(Felt::zero(), Felt::from_u64(0));
    assert_ne!(five, Felt::from_u64(6));
}
