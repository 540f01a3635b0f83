//! The binary-operation sub-circuit.
//!
//! It declares one witness column per row field (tag, lhs, rhs, res) and a
//! selector, and registers a lookup relation binding the witnessed tuple
//! at each selected row to the rows of the precomputed binary-operation
//! table.  The lookup is set membership, not positional: a witness row is
//! valid exactly when its tuple appears verbatim among the table's rows.
//! A mismatching witness is not detected while the circuit is synthesized;
//! it surfaces only when the produced proof is checked.

use crate::backend::AdviceColumn;
use crate::backend::Cells;
use crate::backend::Cs;
use crate::backend::RegionCtx;
use crate::backend::assign_advice_cell;
use crate::backend::constant_expr;
use crate::backend::enable_selector;
use crate::backend::expr_difference;
use crate::backend::expr_product;
use crate::backend::expr_sum;
use crate::backend::known_field_value;
use crate::backend::new_advice_column;
use crate::backend::new_complex_selector;
use crate::backend::advice_column_id;
use crate::backend::cs_advice_count;
use crate::backend::cs_fixed_count;
use crate::backend::cs_selector_count;
use crate::backend::is_simple_selector;
use crate::backend::known_value_of;
use crate::backend::query_advice_cur;
use crate::backend::query_selector_expr;
use crate::backend::region_advice_cells;
use crate::backend::region_enabled;
use crate::backend::region_fixed_cells;
use crate::backend::selector_id;
use crate::backend::table_column_id;
use crate::rows::generate_binop_table;
use crate::table::AssignError;
use crate::table::BinaryOperationTable;
use crate::table::RegisterTable;
use halo2_proofs::circuit::Layouter;
use halo2_proofs::circuit::Value;
use halo2_proofs::pasta::Fp;
use halo2_proofs::plonk::Error;
use halo2_proofs::plonk::Expression;
use halo2_proofs::plonk::Selector;
use halo2_proofs::plonk::TableColumn;
use vstd::prelude::*;

verus! {

/// The bit-range of the operands covered by the loaded table: operands
/// run over `[0, 2^BINOP_TABLE_RANGE)`.
pub const BINOP_TABLE_RANGE: u8 = 4;

/// Configuration of the binary-operation sub-circuit: its four witness
/// columns, the selector that marks the rows carrying a witnessed
/// operation, and the tables it looks up into.
pub struct BinOpConfig {
    tag_column: AdviceColumn,
    lhs_column: AdviceColumn,
    rhs_column: AdviceColumn,
    res_column: AdviceColumn,
    q_enable: Selector,
    binop_table: BinaryOperationTable,
    register_table: RegisterTable,
}

/// The tables a binary-operation sub-circuit is wired against.
pub struct BinOpConfigArgs {
    binop_table: BinaryOperationTable,
    register_table: RegisterTable,
}

impl BinOpConfigArgs {
    /// The binary-operation table handed in.
    pub closed spec fn spec_binop_table(&self) -> BinaryOperationTable {
        self.binop_table
    }

    /// The register table handed in.
    pub closed spec fn spec_register_table(&self) -> RegisterTable {
        self.register_table
    }
}

impl BinOpConfig {
    /// The binary-operation table this configuration looks up into.
    pub closed spec fn spec_binop_table(&self) -> BinaryOperationTable {
        self.binop_table
    }

    /// The register table this configuration is wired against.
    pub closed spec fn spec_register_table(&self) -> RegisterTable {
        self.register_table
    }

    /// The witness column carrying the operation tag.
    pub closed spec fn spec_tag_column(&self) -> AdviceColumn {
        self.tag_column
    }

    /// The witness column carrying the left operand.
    pub closed spec fn spec_lhs_column(&self) -> AdviceColumn {
        self.lhs_column
    }

    /// The witness column carrying the right operand.
    pub closed spec fn spec_rhs_column(&self) -> AdviceColumn {
        self.rhs_column
    }

    /// The witness column carrying the result.
    pub closed spec fn spec_res_column(&self) -> AdviceColumn {
        self.res_column
    }

    /// The selector marking the rows that carry a witnessed operation.
    pub closed spec fn spec_selector(&self) -> Selector {
        self.q_enable
    }

    /// Allocates four fresh witness columns (tag, lhs, rhs, res, in
    /// allocation order) and a fresh complex selector, and registers the
    /// lookup relation from the witnessed `(tag, lhs, rhs, res)` tuple to
    /// the binary table's four columns, in that column order.  The
    /// configuration returned holds exactly the tables it was given.
    pub fn new(cs: &mut Cs<'_>, args: BinOpConfigArgs) -> (c: Self)
        ensures
            c.spec_binop_table() == args.spec_binop_table(),
            c.spec_register_table() == args.spec_register_table(),
            advice_column_id(c.spec_tag_column()) == cs_advice_count(*old(cs)),
            advice_column_id(c.spec_lhs_column()) == cs_advice_count(*old(cs)) + 1,
            advice_column_id(c.spec_rhs_column()) == cs_advice_count(*old(cs)) + 2,
            advice_column_id(c.spec_res_column()) == cs_advice_count(*old(cs)) + 3,
            cs_advice_count(*final(cs)) == cs_advice_count(*old(cs)) + 4,
            selector_id(c.spec_selector()) == cs_selector_count(*old(cs)),
            !is_simple_selector(c.spec_selector()),
            cs_selector_count(*final(cs)) == cs_selector_count(*old(cs)) + 1,
            cs_fixed_count(*final(cs)) == cs_fixed_count(*old(cs)),
    {
        let BinOpConfigArgs { binop_table, register_table } = args;
        let tag_column = new_advice_column(cs);
        let lhs_column = new_advice_column(cs);
        let rhs_column = new_advice_column(cs);
        let res_column = new_advice_column(cs);
        let q_enable = new_complex_selector(cs);
        register_binop_lookup(
            cs,
            &tag_column,
            &lhs_column,
            &rhs_column,
            &res_column,
            q_enable,
            &binop_table,
        );
        BinOpConfig {
            tag_column,
            lhs_column,
            rhs_column,
            res_column,
            q_enable,
            binop_table,
            register_table,
        }
    }

    /// Generates the full precomputed binary-operation table for the
    /// configured range and loads it into the fixed columns.  The row set
    /// handed over is pinned by `generate_binop_table`'s contract, and
    /// what reaches the scope's cells by the table's `assign_rows`;
    /// success of the scope itself is the engine's to decide.
    pub fn load_binop_table(&self, layouter: &mut impl Layouter<Fp>) -> Result<(), AssignError> {
        let precomputed = generate_binop_table(BINOP_TABLE_RANGE);
        self.binop_table.load(layouter, precomputed)
    }

    /// What one witnessed operation adds to a region's witness cells:
    /// the four field values at row 0 of the configuration's columns, in
    /// write order.
    pub open spec fn spec_witness_cells(
        &self,
        tag: u64,
        lhs: u64,
        rhs: u64,
        res: u64,
        cells: Map<(AdviceColumn, usize), Value<Fp>>,
    ) -> Map<(AdviceColumn, usize), Value<Fp>> {
        cells.insert((self.spec_tag_column(), 0), known_value_of(tag)).insert(
            (self.spec_lhs_column(), 0),
            known_value_of(lhs),
        ).insert((self.spec_rhs_column(), 0), known_value_of(rhs)).insert(
            (self.spec_res_column(), 0),
            known_value_of(res),
        )
    }

    /// Writes one witnessed operation `(tag, lhs, rhs, res)` at row 0 of
    /// the open region and enables the lookup selector there.  On success
    /// the region's witness cells are the old cells plus exactly those
    /// four, the selector is enabled at row 0, and no fixed cell is
    /// touched; a refused write aborts the row.
    pub fn load_binop_row(
        &self,
        region: &mut RegionCtx<'_, '_>,
        tag: u64,
        lhs: u64,
        rhs: u64,
        res: u64,
    ) -> (r: Result<(), AssignError>)
        ensures
            r is Ok ==> region_advice_cells(*final(region)) == self.spec_witness_cells(
                tag,
                lhs,
                rhs,
                res,
                region_advice_cells(*old(region)),
            ),
            r is Ok ==> region_enabled(*final(region)) == region_enabled(*old(region)).insert(
                (self.spec_selector(), 0),
            ),
            r is Ok ==> region_fixed_cells(*final(region)) == region_fixed_cells(*old(region)),
    {
        match self.assign_witness_row(region, tag, lhs, rhs, res) {
            Ok(u) => Ok(u),
            Err(_) => Err(AssignError::ColumnWrite),
        }
    }

    /// Writes the four witness cells and the selector of one operation
    /// row, aborting on the first refused write.
    pub(crate) fn assign_witness_row(
        &self,
        region: &mut RegionCtx<'_, '_>,
        tag: u64,
        lhs: u64,
        rhs: u64,
        res: u64,
    ) -> (r: Result<(), Error>)
        ensures
            r is Ok ==> region_advice_cells(*final(region)) == self.spec_witness_cells(
                tag,
                lhs,
                rhs,
                res,
                region_advice_cells(*old(region)),
            ),
            r is Ok ==> region_enabled(*final(region)) == region_enabled(*old(region)).insert(
                (self.spec_selector(), 0),
            ),
            r is Ok ==> region_fixed_cells(*final(region)) == region_fixed_cells(*old(region)),
    {
        let offset: usize = 0;
        enable_selector(region, self.q_enable, offset)?;
        assign_advice_cell(region, &self.tag_column, offset, known_field_value(tag))?;
        assign_advice_cell(region, &self.lhs_column, offset, known_field_value(lhs))?;
        assign_advice_cell(region, &self.rhs_column, offset, known_field_value(rhs))?;
        assign_advice_cell(region, &self.res_column, offset, known_field_value(res))?;
        Ok(())
    }
}

/// One gated lookup input: `q * column + (1 - q) * dflt`.  Where the
/// selector is off, the input reads `dflt`; the defaults of the four
/// fields form the table's first row `(ADD, 0, 0, 0)`, so unselected rows
/// always look up an existing row.
fn gated_input(
    vc: &mut Cells<'_, '_>,
    q: Selector,
    col: &AdviceColumn,
    dflt: u64,
) -> Expression<Fp>
    requires
        !is_simple_selector(q),
{
    let q_on = query_selector_expr(vc, q);
    let witness = query_advice_cur(vc, col);
    let selected = expr_product(q_on, witness);
    let q_off = expr_difference(constant_expr(1), query_selector_expr(vc, q));
    let unselected = expr_product(q_off, constant_expr(dflt));
    expr_sum(selected, unselected)
}

/// The column-wise correspondence of the lookup: the witnessed tag is
/// bound to the table's tag column, lhs to lhs, rhs to rhs and res to
/// res, each at the current row.  The table side of each pair is fixed by
/// the contract; the input expressions embed query handles whose identity
/// depends on the engine's query state, so their contents cannot be
/// stated here — the tests exercise them instead.
pub(crate) fn binop_lookup_map(
    vc: &mut Cells<'_, '_>,
    tag_column: &AdviceColumn,
    lhs_column: &AdviceColumn,
    rhs_column: &AdviceColumn,
    res_column: &AdviceColumn,
    q: Selector,
    table: &BinaryOperationTable,
) -> (r: Vec<(Expression<Fp>, TableColumn)>)
    requires
        !is_simple_selector(q),
    ensures
        r@.len() == 4,
        r@[0].1 == table.tag,
        r@[1].1 == table.lhs,
        r@[2].1 == table.rhs,
        r@[3].1 == table.res,
{
    let mut pairs: Vec<(Expression<Fp>, TableColumn)> = Vec::new();
    pairs.push((gated_input(vc, q, tag_column, 1), table.tag));
    pairs.push((gated_input(vc, q, lhs_column, 0), table.lhs));
    pairs.push((gated_input(vc, q, rhs_column, 0), table.rhs));
    pairs.push((gated_input(vc, q, res_column, 0), table.res));
    pairs
}

/// Relies on ConstraintSystem::lookup: registers the lookup relation
/// whose input-to-table pairing is built by the verified
/// `binop_lookup_map`.  The engine panics on a simple selector inside a
/// lookup input, so such a selector is excluded; registering a lookup
/// allocates no column or selector.
#[verifier::external_body]
fn register_binop_lookup(
    cs: &mut Cs<'_>,
    tag_column: &AdviceColumn,
    lhs_column: &AdviceColumn,
    rhs_column: &AdviceColumn,
    res_column: &AdviceColumn,
    q: Selector,
    table: &BinaryOperationTable,
)
    requires
        !is_simple_selector(q),
    ensures
        cs_fixed_count(*final(cs)) == cs_fixed_count(*old(cs)),
        cs_advice_count(*final(cs)) == cs_advice_count(*old(cs)),
        cs_selector_count(*final(cs)) == cs_selector_count(*old(cs)),
{
    cs.inner.lookup(|vc| {
        let mut cells = Cells { inner: vc };
        binop_lookup_map(&mut cells, tag_column, lhs_column, rhs_column, res_column, q, table)
    });
}

/// One traced binary operation, witnessed as the row
/// `(tag, lhs, rhs, res)`.
pub struct BinOpCircuit {
    tag: u64,
    lhs: u64,
    rhs: u64,
    res: u64,
}

impl BinOpCircuit {
    /// The witnessed tag code.
    pub closed spec fn spec_tag(&self) -> u64 {
        self.tag
    }

    /// The witnessed left operand.
    pub closed spec fn spec_lhs(&self) -> u64 {
        self.lhs
    }

    /// The witnessed right operand.
    pub closed spec fn spec_rhs(&self) -> u64 {
        self.rhs
    }

    /// The witnessed result.
    pub closed spec fn spec_res(&self) -> u64 {
        self.res
    }

    /// A circuit instance witnessing that applying the operation coded
    /// `op` to `lhs` and `rhs` yields `res`.
    pub fn new(op: u64, lhs: u64, rhs: u64, res: u64) -> (c: Self)
        ensures
            c.spec_tag() == op,
            c.spec_lhs() == lhs,
            c.spec_rhs() == rhs,
            c.spec_res() == res,
    {
        BinOpCircuit { tag: op, lhs, rhs, res }
    }

    /// The shape of the circuit without its witness: every field zero.
    /// The zero tag names no operation, which is what distinguishes an
    /// unwitnessed row from every real operation.
    pub fn without_witnesses(&self) -> (c: Self)
        ensures
            c.spec_tag() == 0,
            c.spec_lhs() == 0,
            c.spec_rhs() == 0,
            c.spec_res() == 0,
    {
        BinOpCircuit { tag: 0, lhs: 0, rhs: 0, res: 0 }
    }

    /// Builds the sub-circuit's configuration: constructs the two tables
    /// on freshly allocated columns and wires the lookup against them.
    /// The binary table takes the next four lookup-table columns, the
    /// register table the next fixed and witness columns, and the
    /// sub-circuit the four witness columns and the selector after those,
    /// so all allocated columns are pairwise distinct.
    pub fn configure(cs: &mut Cs<'_>) -> (c: BinOpConfig)
        ensures
            table_column_id(c.spec_binop_table().tag) == cs_fixed_count(*old(cs)),
            table_column_id(c.spec_binop_table().lhs) == cs_fixed_count(*old(cs)) + 1,
            table_column_id(c.spec_binop_table().rhs) == cs_fixed_count(*old(cs)) + 2,
            table_column_id(c.spec_binop_table().res) == cs_fixed_count(*old(cs)) + 3,
            crate::backend::fixed_column_id(c.spec_register_table().index) == cs_fixed_count(
                *old(cs),
            ) + 4,
            advice_column_id(c.spec_register_table().value) == cs_advice_count(*old(cs)),
            advice_column_id(c.spec_tag_column()) == cs_advice_count(*old(cs)) + 1,
            advice_column_id(c.spec_lhs_column()) == cs_advice_count(*old(cs)) + 2,
            advice_column_id(c.spec_rhs_column()) == cs_advice_count(*old(cs)) + 3,
            advice_column_id(c.spec_res_column()) == cs_advice_count(*old(cs)) + 4,
            !is_simple_selector(c.spec_selector()),
            cs_fixed_count(*final(cs)) == cs_fixed_count(*old(cs)) + 5,
            cs_advice_count(*final(cs)) == cs_advice_count(*old(cs)) + 5,
            cs_selector_count(*final(cs)) == cs_selector_count(*old(cs)) + 1,
    {
        let binop_table = BinaryOperationTable::construct(cs);
        let register_table = RegisterTable::construct(cs);
        BinOpConfig::new(cs, BinOpConfigArgs { binop_table, register_table })
    }

    /// Synthesis of the sub-circuit: loads the full precomputed table
    /// once, then assigns this instance's witness row — its four fields
    /// at row 0 of the witness columns, with the selector enabled there.
    /// What each opened scope receives is stated on the table's
    /// `assign_rows` and the configuration's `load_binop_row`; nothing
    /// more is statable over the generic layouter.
    pub fn synthesize_sub(
        &self,
        config: &BinOpConfig,
        layouter: &mut impl Layouter<Fp>,
    ) -> Result<(), AssignError> {
        config.load_binop_table(layouter)?;
        match assign_witness_region(layouter, config, self.tag, self.lhs, self.rhs, self.res) {
            Ok(u) => Ok(u),
            Err(_) => Err(AssignError::ColumnWrite),
        }
    }

    /// Full synthesis: delegates to `synthesize_sub`.
    pub fn synthesize(
        &self,
        config: BinOpConfig,
        layouter: &mut impl Layouter<Fp>,
    ) -> Result<(), AssignError> {
        self.synthesize_sub(&config, layouter)
    }
}

/// Relies on Layouter::assign_region: opens the witness region and hands
/// it to the verified row writer.
#[verifier::external_body]
fn assign_witness_region(
    layouter: &mut impl Layouter<Fp>,
    config: &BinOpConfig,
    tag: u64,
    lhs: u64,
    rhs: u64,
    res: u64,
) -> Result<(), Error> {
    layouter.assign_region(
        || "bin_op",
        |mut region| config.assign_witness_row(
            &mut RegionCtx { inner: &mut region },
            tag,
            lhs,
            rhs,
            res,
        ),
    )
}

} // verus!
