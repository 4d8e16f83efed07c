use group::ff::Field;
use hailo::{derive_public_inputs, Fe};
use halo2_proofs::circuit::{AssignedCell, Layouter, SimpleFloorPlanner, Value};
use halo2_proofs::dev::MockProver;
use halo2_proofs::pasta::{EqAffine, Fp};
use halo2_proofs::plonk::{
    create_proof, keygen_pk, keygen_vk, verify_proof, Advice, Circuit, Column, ConstraintSystem,
    Error, Expression, Instance, Selector, SingleVerifier,
};
use halo2_proofs::poly::commitment::Params;
use halo2_proofs::poly::Rotation;
use halo2_proofs::transcript::{Blake2bRead, Blake2bWrite, Challenge255};
use rand_core::OsRng;

#[derive(Clone, Debug)]
struct MixerConfig {
    advice: [Column<Advice>; 3],
    instance: Column<Instance>,
    s_hash: Selector,
    s_bool: Selector,
    s_swap: Selector,
}

#[derive(Clone, Debug, Default)]
struct MixerCircuit {
    nullifier: Value<Fp>,
    secret: Value<Fp>,
    path_elements: Vec<Value<Fp>>,
    path_indices: Vec<Value<Fp>>,
}

fn assign_hash(
    config: &MixerConfig,
    layouter: &mut impl Layouter<Fp>,
    a: Value<Fp>,
    b: Value<Fp>,
) -> Result<AssignedCell<Fp, Fp>, Error> {
    layouter.assign_region(
        || "hash",
        |mut region| {
            config.s_hash.enable(&mut region, 0)?;
            region.assign_advice(|| "lhs", config.advice[0], 0, || a)?;
            region.assign_advice(|| "rhs", config.advice[1], 0, || b)?;
            region.assign_advice(|| "out", config.advice[2], 0, || a * b)
        },
    )
}

fn assign_level(
    config: &MixerConfig,
    layouter: &mut impl Layouter<Fp>,
    node: &AssignedCell<Fp, Fp>,
    sibling: Value<Fp>,
    bit: Value<Fp>,
) -> Result<AssignedCell<Fp, Fp>, Error> {
    layouter.assign_region(
        || "level",
        |mut region| {
            config.s_bool.enable(&mut region, 0)?;
            config.s_swap.enable(&mut region, 0)?;
            config.s_hash.enable(&mut region, 1)?;
            let node_cell = node.copy_advice(|| "node", &mut region, config.advice[0], 0)?;
            region.assign_advice(|| "sibling", config.advice[1], 0, || sibling)?;
            region.assign_advice(|| "bit", config.advice[2], 0, || bit)?;
            let node_v = node_cell.value().copied();
            let left = bit
                .zip(node_v.zip(sibling))
                .map(|(b, (n, s))| (Fp::ONE - b) * n + b * s);
            let right = bit
                .zip(node_v.zip(sibling))
                .map(|(b, (n, s))| (Fp::ONE - b) * s + b * n);
            region.assign_advice(|| "left", config.advice[0], 1, || left)?;
            region.assign_advice(|| "right", config.advice[1], 1, || right)?;
            region.assign_advice(|| "parent", config.advice[2], 1, || left * right)
        },
    )
}

impl Circuit<Fp> for MixerCircuit {
    type Config = MixerConfig;
    type FloorPlanner = SimpleFloorPlanner;

    fn without_witnesses(&self) -> Self {
        Self {
            nullifier: Value::unknown(),
            secret: Value::unknown(),
            path_elements: vec![Value::unknown(); self.path_elements.len()],
            path_indices: vec![Value::unknown(); self.path_indices.len()],
        }
    }

    fn configure(meta: &mut ConstraintSystem<Fp>) -> MixerConfig {
        let advice = [
            meta.advice_column(),
            meta.advice_column(),
            meta.advice_column(),
        ];
        let instance = meta.instance_column();
        for column in advice {
            meta.enable_equality(column);
        }
        meta.enable_equality(instance);
        let s_hash = meta.selector();
        let s_bool = meta.selector();
        let s_swap = meta.selector();
        meta.create_gate("hash", |meta| {
            let s = meta.query_selector(s_hash);
            let a = meta.query_advice(advice[0], Rotation::cur());
            let b = meta.query_advice(advice[1], Rotation::cur());
            let c = meta.query_advice(advice[2], Rotation::cur());
            vec![s * (a * b - c)]
        });
        meta.create_gate("bool", |meta| {
            let s = meta.query_selector(s_bool);
            let bit = meta.query_advice(advice[2], Rotation::cur());
            vec![s * bit.clone() * (Expression::Constant(Fp::ONE) - bit)]
        });
        meta.create_gate("swap", |meta| {
            let s = meta.query_selector(s_swap);
            let node = meta.query_advice(advice[0], Rotation::cur());
            let sibling = meta.query_advice(advice[1], Rotation::cur());
            let bit = meta.query_advice(advice[2], Rotation::cur());
            let left = meta.query_advice(advice[0], Rotation::next());
            let right = meta.query_advice(advice[1], Rotation::next());
            let one = Expression::Constant(Fp::ONE);
            let left_expected =
                (one.clone() - bit.clone()) * node.clone() + bit.clone() * sibling.clone();
            let right_expected = (one - bit.clone()) * sibling + bit * node;
            vec![
                s.clone() * (left - left_expected),
                s * (right - right_expected),
            ]
        });
        MixerConfig {
            advice,
            instance,
            s_hash,
            s_bool,
            s_swap,
        }
    }

    fn synthesize(
        &self,
        config: MixerConfig,
        mut layouter: impl Layouter<Fp>,
    ) -> Result<(), Error> {
        if self.path_elements.len() != self.path_indices.len() {
            return Err(Error::Synthesis);
        }
        let nullifier_hash = assign_hash(&config, &mut layouter, self.nullifier, self.nullifier)?;
        layouter.constrain_instance(nullifier_hash.cell(), config.instance, 0)?;
        let commitment = assign_hash(&config, &mut layouter, self.nullifier, self.secret)?;
        let mut node = commitment;
        for i in 0..self.path_elements.len() {
            node = assign_level(
                &config,
                &mut layouter,
                &node,
                self.path_elements[i],
                self.path_indices[i],
            )?;
        }
        layouter.constrain_instance(node.cell(), config.instance, 1)
    }
}

fn fp_of(e: &Fe) -> Fp {
    Fp::from_raw([e.l0, e.l1, e.l2, e.l3])
}

fn witnessed_circuit(
    nullifier: u64,
    secret: u64,
    path_elements: &[u64],
    path_indices: &[u64],
) -> MixerCircuit {
    MixerCircuit {
        nullifier: Value::known(Fp::from(nullifier)),
        secret: Value::known(Fp::from(secret)),
        path_elements: path_elements
            .iter()
            .map(|v| Value::known(Fp::from(*v)))
            .collect(),
        path_indices: path_indices
            .iter()
            .map(|v| Value::known(Fp::from(*v)))
            .collect(),
    }
}

fn reference_instance() -> Vec<Fp> {
    let inputs = derive_public_inputs(
        Fe::from_u64(0x456),
        Fe::from_u64(0xabc),
        vec![2, 5, 7, 14, 23].into_iter().map(Fe::from_u64).collect(),
        vec![0, 0, 1, 1, 0].into_iter().map(Fe::from_u64).collect(),
    )
    .unwrap();
    inputs.iter().map(fp_of).collect()
}

fn reference_circuit() -> MixerCircuit {
    witnessed_circuit(0x456, 0xabc, &[2, 5, 7, 14, 23], &[0, 0, 1, 1, 0])
}

#[test]
fn mock_prover_accepts_the_reference_witness() {
    let prover = MockProver::run(7, &reference_circuit(), vec![reference_instance()]).unwrap();
    assert!(prover.verify().is_ok());
}

#[test]
fn mock_prover_rejects_a_tampered_sibling() {
    let circuit = witnessed_circuit(0x456, 0xabc, &[2, 5, 8, 14, 23], &[0, 0, 1, 1, 0]);
    let prover = MockProver::run(7, &circuit, vec![reference_instance()]).unwrap();
    assert!(prover.verify().is_err());
}

#[test]
fn mock_prover_rejects_a_nonboolean_bit() {
    let circuit = witnessed_circuit(0x456, 0xabc, &[2, 5, 7, 14, 23], &[0, 2, 1, 1, 0]);
    let prover = MockProver::run(7, &circuit, vec![reference_instance()]).unwrap();
    assert!(prover.verify().is_err());
}

#[test]
fn proof_verifies_with_instances_in_protocol_order() {
    let params: Params<EqAffine> = Params::new(7);
    let empty = reference_circuit().without_witnesses();
    let vk = keygen_vk(&params, &empty).unwrap();
    let pk = keygen_pk(&params, vk.clone(), &empty).unwrap();
    let instance = reference_instance();

    let mut transcript = Blake2bWrite::<_, _, Challenge255<_>>::init(vec![]);
    create_proof(
        &params,
        &pk,
        &[reference_circuit()],
        &[&[&instance]],
        OsRng,
        &mut transcript,
    )
    .unwrap();
    let proof = transcript.finalize();

    let strategy = SingleVerifier::new(&params);
    let mut reader = Blake2bRead::<_, _, Challenge255<_>>::init(&proof[..]);
    assert!(verify_proof(&params, &vk, strategy, &[&[&instance]], &mut reader).is_ok());

    let swapped = vec![instance[1], instance[0]];
    let strategy = SingleVerifier::new(&params);
    let mut reader = Blake2bRead::<_, _, Challenge255<_>>::init(&proof[..]);
    assert!(verify_proof(&params, &vk, strategy, &[&[&swapped]], &mut reader).is_err());
}

#[test]
fn setup_parameters_survive_a_byte_round_trip() {
    let params: Params<EqAffine> = Params::new(7);
    let mut bytes = vec![];
    params.write(&mut bytes).unwrap();
    let restored: Params<EqAffine> = Params::read(&mut &bytes[..]).unwrap();

    let empty = reference_circuit().without_witnesses();
    let instance = reference_instance();

    // Keys and proof from the deserialized copy ...
    let vk_restored = keygen_vk(&restored, &empty).unwrap();
    let pk_restored = keygen_pk(&restored, vk_restored.clone(), &empty).unwrap();
    let mut transcript = Blake2bWrite::<_, _, Challenge255<_>>::init(vec![]);
    create_proof(
        &restored,
        &pk_restored,
        &[reference_circuit()],
        &[&[&instance]],
        OsRng,
        &mut transcript,
    )
    .unwrap();
    let proof = transcript.finalize();

    // ... verify against keys from the original parameters, and the other way.
    let vk_original = keygen_vk(&params, &empty).unwrap();
    let strategy = SingleVerifier::new(&params);
    let mut reader = Blake2bRead::<_, _, Challenge255<_>>::init(&proof[..]);
    assert!(verify_proof(&params, &vk_original, strategy, &[&[&instance]], &mut reader).is_ok());

    let strategy = SingleVerifier::new(&restored);
    let mut reader = Blake2bRead::<_, _, Challenge255<_>>::init(&proof[..]);
    assert!(verify_proof(&restored, &vk_restored, strategy, &[&[&instance]], &mut reader).is_ok());
}
