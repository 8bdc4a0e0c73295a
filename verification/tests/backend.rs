use cubic_circuit::circuit::compute_result;
use cubic_circuit::field::Felt;

use halo2_proofs::circuit::{AssignedCell, Layouter, SimpleFloorPlanner};
use halo2_proofs::pasta::{EqAffine, Fp};
use halo2_proofs::plonk::{
    create_proof, keygen_pk, keygen_vk, verify_proof, Advice, Circuit, Column, ConstraintSystem,
    Error, Fixed, Instance, Selector, SingleVerifier,
};
use halo2_proofs::poly::commitment::Params;
use halo2_proofs::poly::Rotation;
use halo2_proofs::transcript::{Blake2bRead, Blake2bWrite, Challenge255};
use rand::rngs::OsRng;

fn to_fp(f: Felt) -> Fp {
    Fp::from_raw([f.l0, f.l1, f.l2, f.l3])
}

#[derive(Clone, Debug)]
struct BackendConfig {
    advice: [Column<Advice>; 2],
    instance: Column<Instance>,
    s_mul: Selector,
    s_add: Selector,
}

#[derive(Default)]
struct BackendCircuit {
    constant: Fp,
    x: Option<Fp>,
    expose_intermediate: bool,
}

impl BackendCircuit {
    fn configure_chip(
        meta: &mut ConstraintSystem<Fp>,
        advice: [Column<Advice>; 2],
        instance: Column<Instance>,
        constant: Column<Fixed>,
    ) -> BackendConfig {
        meta.enable_constant(constant);
        meta.enable_equality(instance);
        for adv in advice.iter() {
            meta.enable_equality(*adv);
        }
        let s_mul = meta.selector();
        let s_add = meta.selector();
        meta.create_gate("mul/add", |meta| {
            let lhs = meta.query_advice(advice[0], Rotation::cur());
            let rhs = meta.query_advice(advice[1], Rotation::cur());
            let out = meta.query_advice(advice[0], Rotation::next());
            let s_mul = meta.query_selector(s_mul);
            let s_add = meta.query_selector(s_add);
            vec![
                s_mul * (lhs.clone() * rhs.clone() - out.clone()),
                s_add * (lhs + rhs - out),
            ]
        });
        BackendConfig { advice, instance, s_mul, s_add }
    }
}

type Num = AssignedCell<Fp, Fp>;

fn load_private(
    config: &BackendConfig,
    mut layouter: impl Layouter<Fp>,
    v: Option<Fp>,
) -> Result<Num, Error> {
    layouter.assign_region(
        || "load private",
        |mut region| {
            region.assign_advice(|| "private value", config.advice[0], 0, || {
                v.ok_or(Error::Synthesis)
            })
        },
    )
}

fn load_constant(
    config: &BackendConfig,
    mut layouter: impl Layouter<Fp>,
    v: Fp,
) -> Result<Num, Error> {
    layouter.assign_region(
        || "load constant",
        |mut region| region.assign_advice_from_constant(|| "constant", config.advice[0], 0, v),
    )
}

fn mul(
    config: &BackendConfig,
    mut layouter: impl Layouter<Fp>,
    a: Num,
    b: Num,
) -> Result<Num, Error> {
    layouter.assign_region(
        || "mul",
        |mut region| {
            config.s_mul.enable(&mut region, 0)?;
            a.copy_advice(|| "lhs", &mut region, config.advice[0], 0)?;
            b.copy_advice(|| "rhs", &mut region, config.advice[1], 0)?;
            let v = a.value().and_then(|a| b.value().map(|b| *a * *b));
            region.assign_advice(|| "a * b", config.advice[0], 1, || v.ok_or(Error::Synthesis))
        },
    )
}

fn add(
    config: &BackendConfig,
    mut layouter: impl Layouter<Fp>,
    a: Num,
    b: Num,
) -> Result<Num, Error> {
    layouter.assign_region(
        || "add",
        |mut region| {
            config.s_add.enable(&mut region, 0)?;
            a.copy_advice(|| "lhs", &mut region, config.advice[0], 0)?;
            b.copy_advice(|| "rhs", &mut region, config.advice[1], 0)?;
            let v = a.value().and_then(|a| b.value().map(|b| *a + *b));
            region.assign_advice(|| "a + b", config.advice[0], 1, || v.ok_or(Error::Synthesis))
        },
    )
}

impl Circuit<Fp> for BackendCircuit {
    type Config = BackendConfig;
    type FloorPlanner = SimpleFloorPlanner;

    fn without_witnesses(&self) -> Self {
        Self { expose_intermediate: self.expose_intermediate, ..Self::default() }
    }

    fn configure(meta: &mut ConstraintSystem<Fp>) -> Self::Config {
        let advice = [meta.advice_column(), meta.advice_column()];
        let instance = meta.instance_column();
        let constant = meta.fixed_column();
        BackendCircuit::configure_chip(meta, advice, instance, constant)
    }

    fn synthesize(
        &self,
        config: Self::Config,
        mut layouter: impl Layouter<Fp>,
    ) -> Result<(), Error> {
        let x = load_private(&config, layouter.namespace(|| "load x"), self.x)?;
        let constant = load_constant(&config, layouter.namespace(|| "load constant"), self.constant)?;
        let x_2 = mul(&config, layouter.namespace(|| "x2"), x.clone(), x.clone())?;
        let x_3 = mul(&config, layouter.namespace(|| "x3"), x_2, x.clone())?;
        let x_3_x = add(&config, layouter.namespace(|| "x3_x"), x_3, x)?;
        let x_3_x_5 = add(&config, layouter.namespace(|| "x3_x_5"), x_3_x.clone(), constant)?;
        let exposed = if self.expose_intermediate { x_3_x } else { x_3_x_5 };
        layouter.constrain_instance(exposed.cell(), config.instance, 0)
    }
}

fn prove_then_verify(circuit: BackendCircuit, claimed: Fp) -> bool {
    let params: Params<EqAffine> = Params::new(4);
    let vk = keygen_vk(&params, &circuit).unwrap();
    let pk = keygen_pk(&params, vk, &circuit).unwrap();
    let mut transcript = Blake2bWrite::<_, _, Challenge255<_>>::init(vec![]);
    create_proof(&params, &pk, &[circuit], &[&[&[claimed]]], OsRng, &mut transcript).unwrap();
    let proof = transcript.finalize();
    assert!(!proof.is_empty());
    let strategy = SingleVerifier::new(&params);
    let mut transcript = Blake2bRead::<_, _, Challenge255<_>>::init(&proof[..]);
    verify_proof(&params, pk.get_vk(), strategy, &[&[&[claimed]]], &mut transcript).is_ok()
}

#[test]
fn backend_accepts_the_library_computed_claim() {
    let x = Felt::from_u64(3);
    let c = Felt::from_u64(5);
    let claimed = to_fp(compute_result(x, c));
    assert_eq!(claimed, Fp::from(35));
    let circuit = BackendCircuit {
        constant: to_fp(c),
        x: Some(to_fp(x)),
        expose_intermediate: false,
    };
    assert!(prove_then_verify(circuit, claimed));
}

#[test]
fn backend_rejects_a_false_claim() {
    // 4^3 + 4 + 5 = 73, so a claim of 35 must not verify
    let circuit = BackendCircuit {
        constant: Fp::from(5),
        x: Some(Fp::from(4)),
        expose_intermediate: false,
    };
    assert!(!prove_then_verify(circuit, Fp::from(35)));
}

#[test]
fn backend_rejects_an_intermediate_exposure() {
    // binding x^3 + x instead of the final sum must not verify the claim
    let circuit = BackendCircuit {
        constant: Fp::from(5),
        x: Some(Fp::from(3)),
        expose_intermediate: true,
    };
    assert!(!prove_then_verify(circuit, Fp::from(35)));
}
