//! Tests of the binary-operation sub-circuit against the mock prover:
//! a witness tuple that matches a table row satisfies the lookup, and a
//! perturbed result leaves it unsatisfied.

use std::rc::Rc;

use halo2_proofs::circuit::Layouter;
use halo2_proofs::circuit::SimpleFloorPlanner;
use halo2_proofs::dev::MockProver;
use halo2_proofs::pasta::Fp;
use halo2_proofs::plonk::Circuit;
use halo2_proofs::plonk::ConstraintSystem;
use halo2_proofs::plonk::Error;
use vm_tables::backend::Cs;
use vm_tables::binop::BinOpCircuit;
use vm_tables::binop::BinOpConfig;
use vm_tables::table::BinaryOperationTable;
use vm_tables::table::LookupTable;
use vm_tables::table::RegisterTable;
use vm_tables::table::UnaryOperationTable;

/// The engine-facing shell around the library's circuit.
struct Harness {
    inner: BinOpCircuit,
}

/// The engine requires its configuration to be cloneable; the library's
/// configuration is shared behind a reference count instead.
#[derive(Clone)]
struct SharedConfig(Rc<BinOpConfig>);

impl Circuit<Fp> for Harness {
    type Config = SharedConfig;
    type FloorPlanner = SimpleFloorPlanner;

    fn without_witnesses(&self) -> Self {
        Harness {
            inner: self.inner.without_witnesses(),
        }
    }

    fn configure(meta: &mut ConstraintSystem<Fp>) -> SharedConfig {
        let mut cs = Cs { inner: meta };
        SharedConfig(Rc::new(BinOpCircuit::configure(&mut cs)))
    }

    fn synthesize(&self, config: SharedConfig, mut layouter: impl Layouter<Fp>) -> Result<(), Error> {
        self.inner
            .synthesize_sub(&config.0, &mut layouter)
            .map_err(|_| Error::Synthesis)
    }
}

const K: u32 = 12;

#[test]
fn matching_witness_satisfies_lookup() {
    let circuit = Harness {
        inner: BinOpCircuit::new(1, 3, 5, 8),
    };
    let prover = MockProver::<Fp>::run(K, &circuit, vec![]).unwrap();
    assert!(prover.verify().is_ok());
}

#[test]
fn perturbed_result_fails_lookup() {
    let circuit = Harness {
        inner: BinOpCircuit::new(1, 3, 5, 9),
    };
    let prover = MockProver::<Fp>::run(K, &circuit, vec![]).unwrap();
    assert!(prover.verify().is_err());
}

#[test]
fn saturating_sub_witness_satisfies_lookup() {
    let circuit = Harness {
        inner: BinOpCircuit::new(3, 2, 5, 0),
    };
    let prover = MockProver::<Fp>::run(K, &circuit, vec![]).unwrap();
    assert!(prover.verify().is_ok());
}

#[test]
fn wrapping_sub_witness_fails_lookup() {
    // The table saturates SUB at zero, so the wrapped result 2 - 5 has no
    // row.
    let circuit = Harness {
        inner: BinOpCircuit::new(3, 2, 5, 253),
    };
    let prover = MockProver::<Fp>::run(K, &circuit, vec![]).unwrap();
    assert!(prover.verify().is_err());
}

#[test]
fn unknown_tag_fails_lookup() {
    let circuit = Harness {
        inner: BinOpCircuit::new(16, 0, 0, 0),
    };
    let prover = MockProver::<Fp>::run(K, &circuit, vec![]).unwrap();
    assert!(prover.verify().is_err());
}

#[test]
fn tag_expressions_carry_the_code() {
    for (k, t) in vm_tables::tag::BinOpTag::all().iter().enumerate() {
        let expected = format!("Constant({:?})", Fp::from((k + 1) as u64));
        assert_eq!(format!("{:?}", t.expr()), expected);
    }
    let minus = vm_tables::tag::UnaryOpTag::MINUS;
    assert_eq!(
        format!("{:?}", minus.expr()),
        format!("Constant({:?})", Fp::from(2))
    );
}

#[test]
fn register_table_columns_and_annotations_align() {
    let mut meta = ConstraintSystem::<Fp>::default();
    let table = {
        let mut cs = Cs { inner: &mut meta };
        RegisterTable::construct(&mut cs)
    };
    let columns = table.columns();
    let annotations = table.annotations();
    assert_eq!(columns.len(), 2);
    assert_eq!(columns[0].inner, table.index.inner.into());
    assert_eq!(columns[1].inner, table.value.inner.into());
    assert_eq!(annotations, vec!["index".to_string(), "value".to_string()]);
    // Only the value column is witnessed, and it is the value column
    // itself that comes back.
    let advice = table.advice_columns();
    assert_eq!(advice.len(), 1);
    assert_eq!(advice[0].inner, table.value.inner);
}

#[test]
fn construct_allocates_distinct_columns() {
    let mut meta = ConstraintSystem::<Fp>::default();
    let mut cs = Cs { inner: &mut meta };
    let binary = BinaryOperationTable::construct(&mut cs);
    let unary = UnaryOperationTable::construct(&mut cs);
    let binary_cols = [binary.tag, binary.lhs, binary.rhs, binary.res];
    for (i, a) in binary_cols.iter().enumerate() {
        for (j, b) in binary_cols.iter().enumerate() {
            assert_eq!(i == j, a == b);
        }
    }
    let unary_cols = [unary.tag.inner, unary.operand.inner, unary.res.inner];
    for (i, a) in unary_cols.iter().enumerate() {
        for (j, b) in unary_cols.iter().enumerate() {
            assert_eq!(i == j, a == b);
        }
    }
}

#[test]
fn binop_table_annotations() {
    let mut meta = ConstraintSystem::<Fp>::default();
    let table = {
        let mut cs = Cs { inner: &mut meta };
        BinaryOperationTable::construct(&mut cs)
    };
    assert_eq!(
        table.annotations(),
        vec![
            "tag".to_string(),
            "lhs".to_string(),
            "rhs".to_string(),
            "value".to_string()
        ]
    );
}
