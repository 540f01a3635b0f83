//! The fixed lookup tables of the virtual machine.
//!
//! Each table owns a fixed set of columns of the constraint system and a
//! deterministic loading procedure that writes its precomputed rows into
//! those columns, column by column, row by row.  A failed cell write
//! aborts the whole load; there is no partial-row recovery.  The row
//! writers state exactly which cells they add to the open scope, over the
//! cells model of the trusted bindings.

use crate::backend::AdviceColumn;
use crate::backend::AnyColumn;
use crate::backend::Cells;
use crate::backend::Cs;
use crate::backend::FixedColumn;
use crate::backend::RegionCtx;
use crate::backend::TableCtx;
use crate::backend::advice_as_any;
use crate::backend::advice_column_id;
use crate::backend::any_as_advice;
use crate::backend::any_of_advice;
use crate::backend::any_of_fixed;
use crate::backend::assign_advice_cell;
use crate::backend::assign_fixed_cell;
use crate::backend::assign_table_cell;
use crate::backend::cs_advice_count;
use crate::backend::cs_fixed_count;
use crate::backend::cs_selector_count;
use crate::backend::fixed_as_any;
use crate::backend::fixed_column_id;
use crate::backend::is_advice_column;
use crate::backend::known_field_value;
use crate::backend::known_value_of;
use crate::backend::new_advice_column;
use crate::backend::new_fixed_column;
use crate::backend::new_table_column;
use crate::backend::query_any_cur;
use crate::backend::region_advice_cells;
use crate::backend::region_enabled;
use crate::backend::region_fixed_cells;
use crate::backend::table_cells;
use crate::backend::table_column_id;
use halo2_proofs::circuit::Layouter;
use halo2_proofs::circuit::Value;
use halo2_proofs::pasta::Fp;
use halo2_proofs::plonk::Error;
use halo2_proofs::plonk::Expression;
use halo2_proofs::plonk::TableColumn;
use vstd::prelude::*;

verus! {

broadcast use vstd::string::to_string_from_display_ensures_for_str;

/// The library's account of a failed table or witness load: the engine
/// refused a column write, aborting the current load.
#[derive(Clone, Copy, Debug, PartialEq, Eq, Structural)]
pub enum AssignError {
    ColumnWrite,
}

/// The witnessed subsequence of a column list: the columns of witness
/// kind, in their original order, as witness-column handles.
pub open spec fn spec_advice_subsequence(cols: Seq<AnyColumn>) -> Seq<AdviceColumn>
    decreases cols.len(),
{
    if cols.len() <= 0 {
        Seq::empty()
    } else {
        let rest = spec_advice_subsequence(cols.drop_last());
        if is_advice_column(cols.last()) {
            rest.push(crate::backend::advice_view_of(cols.last()))
        } else {
            rest
        }
    }
}

/// The capability a fixed-column table offers to a lookup argument: its
/// columns in a fixed order, one human-readable annotation per column, and
/// one symbolic query expression per column.  Columns and annotations must
/// stay aligned: both lists have the table's column count, in the same
/// order.
pub trait LookupTable {
    /// The columns the table owns, in table order, as the engine's
    /// generic column view.
    spec fn spec_columns(&self) -> Seq<AnyColumn>;

    /// Every column of the table, in table order.
    fn columns(&self) -> (r: Vec<AnyColumn>)
        ensures
            r@ == self.spec_columns(),
    ;

    /// One annotation per column, in the same order as `columns`.
    fn annotations(&self) -> (r: Vec<String>)
        ensures
            r@.len() == self.spec_columns().len(),
    ;

    /// The witnessed subset of the table's columns: exactly the columns
    /// of witness kind, in table order.
    fn advice_columns(&self) -> (r: Vec<AdviceColumn>)
        ensures
            r@ == spec_advice_subsequence(self.spec_columns()),
    {
        let cols = self.columns();
        let mut picked: Vec<AdviceColumn> = Vec::new();
        let mut i: usize = 0;
        #[verifier::loop_isolation(false)]
        while i < cols.len()
            invariant
                i <= cols@.len(),
                picked@ == spec_advice_subsequence(cols@.take(i as int)),
            decreases cols@.len() - i,
        {
            match any_as_advice(&cols[i]) {
                Some(c) => picked.push(c),
                None => (),
            }
            proof {
                assert(cols@.take(i as int + 1).drop_last() =~= cols@.take(i as int));
                assert(cols@.take(i as int + 1).last() == cols@[i as int]);
            }
            i = i + 1;
        }
        proof {
            assert(cols@.take(cols@.len() as int) =~= cols@);
        }
        picked
    }

    /// One query expression per column at the current table row, in table
    /// order; these define the right-hand side of a lookup relation.  The
    /// expressions embed query handles whose identity depends on the
    /// engine's query state, so their contents cannot be stated here.
    fn table_exprs(&self, vc: &mut Cells<'_, '_>) -> (r: Vec<Expression<Fp>>)
        ensures
            r@.len() == self.spec_columns().len(),
    {
        let cols = self.columns();
        let mut exprs: Vec<Expression<Fp>> = Vec::new();
        let mut i: usize = 0;
        while i < cols.len()
            invariant
                i <= cols@.len(),
                cols@.len() == self.spec_columns().len(),
                exprs@.len() == i,
            decreases cols@.len() - i,
        {
            let e = query_any_cur(vc, &cols[i]);
            exprs.push(e);
            i = i + 1;
        }
        exprs
    }
}

/// The precomputed table of every binary operation: one row
/// `(tag, lhs, rhs, res)` per operand pair and tag.  Its columns are
/// lookup-table columns of the engine, which keeps them reserved for the
/// lookup argument.
pub struct BinaryOperationTable {
    pub tag: TableColumn,
    pub lhs: TableColumn,
    pub rhs: TableColumn,
    pub res: TableColumn,
}

/// The cells of a lookup-table scope after the rows of the binary table
/// are written over `cells`, in generation order: row `i` puts its four
/// bytes at offset `i` of the tag, lhs, rhs and res columns.
pub open spec fn spec_binop_cells_after(
    t: BinaryOperationTable,
    rows: Seq<[u8; 4]>,
    cells: Map<(TableColumn, usize), u64>,
) -> Map<(TableColumn, usize), u64>
    decreases rows.len(),
{
    if rows.len() <= 0 {
        cells
    } else {
        let prev = spec_binop_cells_after(t, rows.drop_last(), cells);
        let i = (rows.len() - 1) as usize;
        let row = rows.last();
        prev.insert((t.tag, i), row@[0] as u64).insert((t.lhs, i), row@[1] as u64).insert(
            (t.rhs, i),
            row@[2] as u64,
        ).insert((t.res, i), row@[3] as u64)
    }
}

impl BinaryOperationTable {
    /// Allocates the table's four columns, freshly and in order: tag,
    /// lhs, rhs, res are pairwise distinct.
    pub fn construct(cs: &mut Cs<'_>) -> (t: Self)
        ensures
            table_column_id(t.tag) == cs_fixed_count(*old(cs)),
            table_column_id(t.lhs) == cs_fixed_count(*old(cs)) + 1,
            table_column_id(t.rhs) == cs_fixed_count(*old(cs)) + 2,
            table_column_id(t.res) == cs_fixed_count(*old(cs)) + 3,
            cs_fixed_count(*final(cs)) == cs_fixed_count(*old(cs)) + 4,
            cs_advice_count(*final(cs)) == cs_advice_count(*old(cs)),
            cs_selector_count(*final(cs)) == cs_selector_count(*old(cs)),
    {
        BinaryOperationTable {
            tag: new_table_column(cs),
            lhs: new_table_column(cs),
            rhs: new_table_column(cs),
            res: new_table_column(cs),
        }
    }

    /// Writes row `i` of `rows` into row `i` of the four columns, for
    /// every row in order.  On success the scope's cells are the old
    /// cells plus exactly those writes; the first refused write aborts
    /// the load with an error.
    pub(crate) fn assign_rows(&self, t: &mut TableCtx<'_, '_>, rows: &Vec<[u8; 4]>) -> (r: Result<
        (),
        Error,
    >)
        ensures
            r is Ok ==> table_cells(*final(t)) == spec_binop_cells_after(
                *self,
                rows@,
                table_cells(*old(t)),
            ),
    {
        let mut offset: usize = 0;
        #[verifier::loop_isolation(false)]
        while offset < rows.len()
            invariant
                offset <= rows@.len(),
                table_cells(*t) == spec_binop_cells_after(
                    *self,
                    rows@.take(offset as int),
                    table_cells(*old(t)),
                ),
            decreases rows@.len() - offset,
        {
            let row = rows[offset];
            assign_table_cell(t, self.tag, offset, row[0] as u64)?;
            assign_table_cell(t, self.lhs, offset, row[1] as u64)?;
            assign_table_cell(t, self.rhs, offset, row[2] as u64)?;
            assign_table_cell(t, self.res, offset, row[3] as u64)?;
            proof {
                assert(rows@.take(offset as int + 1).drop_last() =~= rows@.take(offset as int));
                assert(rows@.take(offset as int + 1).last() == rows@[offset as int]);
            }
            offset = offset + 1;
        }
        proof {
            assert(rows@.take(rows@.len() as int) =~= rows@);
        }
        Ok(())
    }

    /// Loads the precomputed rows into the table's columns, in order.
    /// What reaches the scope's cells is stated on `assign_rows`, which
    /// the opened scope is handed to; success of the scope itself is the
    /// engine's to decide.
    pub fn load(&self, layouter: &mut impl Layouter<Fp>, precomputed: Vec<[u8; 4]>) -> Result<
        (),
        AssignError,
    > {
        match load_binop_rows(layouter, self, &precomputed) {
            Ok(u) => Ok(u),
            Err(_) => Err(AssignError::ColumnWrite),
        }
    }

    /// The annotation of each column, in table order.
    pub fn annotations(&self) -> (r: Vec<String>)
        ensures
            r@.len() == 4,
            r@[0]@ == "tag"@,
            r@[1]@ == "lhs"@,
            r@[2]@ == "rhs"@,
            r@[3]@ == "value"@,
    {
        let mut v: Vec<String> = Vec::new();
        v.push("tag".to_string());
        v.push("lhs".to_string());
        v.push("rhs".to_string());
        v.push("value".to_string());
        v
    }
}

/// Relies on Layouter::assign_table: opens the binary table's assignment
/// scope and hands it to the verified row writer.
#[verifier::external_body]
fn load_binop_rows(
    layouter: &mut impl Layouter<Fp>,
    t: &BinaryOperationTable,
    rows: &Vec<[u8; 4]>,
) -> Result<(), Error> {
    layouter.assign_table(
        || "binop table",
        |mut tb| t.assign_rows(&mut TableCtx { inner: &mut tb }, rows),
    )
}

/// The precomputed table of every unary operation: one row
/// `(tag, operand, res)` per operand value and tag.
pub struct UnaryOperationTable {
    pub tag: FixedColumn,
    pub operand: FixedColumn,
    pub res: FixedColumn,
}

/// The fixed cells of a region after the rows of the unary table are
/// written over `cells`, in order: row `i` puts the field encodings of
/// its three bytes at offset `i` of the tag, operand and res columns.
pub open spec fn spec_unary_cells_after(
    t: UnaryOperationTable,
    rows: Seq<[u8; 3]>,
    cells: Map<(FixedColumn, usize), Value<Fp>>,
) -> Map<(FixedColumn, usize), Value<Fp>>
    decreases rows.len(),
{
    if rows.len() <= 0 {
        cells
    } else {
        let prev = spec_unary_cells_after(t, rows.drop_last(), cells);
        let i = (rows.len() - 1) as usize;
        let row = rows.last();
        prev.insert((t.tag, i), known_value_of(row@[0] as u64)).insert(
            (t.operand, i),
            known_value_of(row@[1] as u64),
        ).insert((t.res, i), known_value_of(row@[2] as u64))
    }
}

impl UnaryOperationTable {
    /// Allocates the table's three columns, freshly and in order: tag,
    /// operand, res are pairwise distinct.
    pub fn construct(cs: &mut Cs<'_>) -> (t: Self)
        ensures
            fixed_column_id(t.tag) == cs_fixed_count(*old(cs)),
            fixed_column_id(t.operand) == cs_fixed_count(*old(cs)) + 1,
            fixed_column_id(t.res) == cs_fixed_count(*old(cs)) + 2,
            cs_fixed_count(*final(cs)) == cs_fixed_count(*old(cs)) + 3,
            cs_advice_count(*final(cs)) == cs_advice_count(*old(cs)),
            cs_selector_count(*final(cs)) == cs_selector_count(*old(cs)),
    {
        UnaryOperationTable {
            tag: new_fixed_column(cs),
            operand: new_fixed_column(cs),
            res: new_fixed_column(cs),
        }
    }

    /// Writes row `i` of `rows` into row `i` of the three columns, for
    /// every row in order.  On success the region's fixed cells are the
    /// old cells plus exactly those writes, and no witness cell or
    /// selector is touched; the first refused write aborts the load with
    /// an error.
    pub(crate) fn assign_rows(&self, r: &mut RegionCtx<'_, '_>, rows: &Vec<[u8; 3]>) -> (res:
        Result<(), Error>)
        ensures
            res is Ok ==> region_fixed_cells(*final(r)) == spec_unary_cells_after(
                *self,
                rows@,
                region_fixed_cells(*old(r)),
            ),
            res is Ok ==> region_advice_cells(*final(r)) == region_advice_cells(*old(r)),
            res is Ok ==> region_enabled(*final(r)) == region_enabled(*old(r)),
    {
        let mut offset: usize = 0;
        #[verifier::loop_isolation(false)]
        while offset < rows.len()
            invariant
                offset <= rows@.len(),
                region_fixed_cells(*r) == spec_unary_cells_after(
                    *self,
                    rows@.take(offset as int),
                    region_fixed_cells(*old(r)),
                ),
                region_advice_cells(*r) == region_advice_cells(*old(r)),
                region_enabled(*r) == region_enabled(*old(r)),
            decreases rows@.len() - offset,
        {
            let row = rows[offset];
            assign_fixed_cell(r, &self.tag, offset, known_field_value(row[0] as u64))?;
            assign_fixed_cell(r, &self.operand, offset, known_field_value(row[1] as u64))?;
            assign_fixed_cell(r, &self.res, offset, known_field_value(row[2] as u64))?;
            proof {
                assert(rows@.take(offset as int + 1).drop_last() =~= rows@.take(offset as int));
                assert(rows@.take(offset as int + 1).last() == rows@[offset as int]);
            }
            offset = offset + 1;
        }
        proof {
            assert(rows@.take(rows@.len() as int) =~= rows@);
        }
        Ok(())
    }

    /// Loads the precomputed rows into the table's columns, in order.
    /// What reaches the region's cells is stated on `assign_rows`.
    pub fn load(&self, layouter: &mut impl Layouter<Fp>, precomputed: Vec<[u8; 3]>) -> Result<
        (),
        AssignError,
    > {
        match load_unaryop_rows(layouter, self, &precomputed) {
            Ok(u) => Ok(u),
            Err(_) => Err(AssignError::ColumnWrite),
        }
    }
}

/// Relies on Layouter::assign_region: opens the unary table's region and
/// hands it to the verified row writer.
#[verifier::external_body]
fn load_unaryop_rows(
    layouter: &mut impl Layouter<Fp>,
    t: &UnaryOperationTable,
    rows: &Vec<[u8; 3]>,
) -> Result<(), Error> {
    layouter.assign_region(
        || "unaryop table",
        |mut region| t.assign_rows(&mut RegionCtx { inner: &mut region }, rows),
    )
}

/// The table of block-exit transitions `(tag, cond, from, to)`.  Row
/// population is not yet defined for this table: loading it leaves it
/// empty, so any witness row that references it cannot satisfy its lookup.
pub struct BlockExitTable {
    pub tag: FixedColumn,
    pub cond: FixedColumn,
    pub from: FixedColumn,
    pub to: FixedColumn,
}

impl BlockExitTable {
    /// Allocates the table's four columns, freshly and in order.
    pub fn construct(cs: &mut Cs<'_>) -> (t: Self)
        ensures
            fixed_column_id(t.tag) == cs_fixed_count(*old(cs)),
            fixed_column_id(t.cond) == cs_fixed_count(*old(cs)) + 1,
            fixed_column_id(t.from) == cs_fixed_count(*old(cs)) + 2,
            fixed_column_id(t.to) == cs_fixed_count(*old(cs)) + 3,
            cs_fixed_count(*final(cs)) == cs_fixed_count(*old(cs)) + 4,
            cs_advice_count(*final(cs)) == cs_advice_count(*old(cs)),
            cs_selector_count(*final(cs)) == cs_selector_count(*old(cs)),
    {
        BlockExitTable {
            tag: new_fixed_column(cs),
            cond: new_fixed_column(cs),
            from: new_fixed_column(cs),
            to: new_fixed_column(cs),
        }
    }

    /// Loads the table; no rows are defined yet, so the table stays empty.
    pub fn load(&self, layouter: &mut impl Layouter<Fp>) -> Result<(), AssignError> {
        match load_no_rows(layouter) {
            Ok(u) => Ok(u),
            Err(_) => Err(AssignError::ColumnWrite),
        }
    }
}

/// The table of call transitions `(from, to)`.  Row population is not yet
/// defined for this table either; loading it leaves it empty.
pub struct CallTable {
    pub from: FixedColumn,
    pub to: FixedColumn,
}

impl CallTable {
    /// Allocates the table's two columns, freshly and in order.
    pub fn construct(cs: &mut Cs<'_>) -> (t: Self)
        ensures
            fixed_column_id(t.from) == cs_fixed_count(*old(cs)),
            fixed_column_id(t.to) == cs_fixed_count(*old(cs)) + 1,
            cs_fixed_count(*final(cs)) == cs_fixed_count(*old(cs)) + 2,
            cs_advice_count(*final(cs)) == cs_advice_count(*old(cs)),
            cs_selector_count(*final(cs)) == cs_selector_count(*old(cs)),
    {
        CallTable { from: new_fixed_column(cs), to: new_fixed_column(cs) }
    }

    /// Loads the table; no rows are defined yet, so the table stays empty.
    pub fn load(&self, layouter: &mut impl Layouter<Fp>) -> Result<(), AssignError> {
        match load_no_rows(layouter) {
            Ok(u) => Ok(u),
            Err(_) => Err(AssignError::ColumnWrite),
        }
    }
}

/// The row writer of a table with no defined rows: it writes nothing and
/// leaves the scope's cells as they were.
pub(crate) fn assign_no_rows(t: &mut TableCtx<'_, '_>) -> (r: Result<(), Error>)
    ensures
        table_cells(*final(t)) == table_cells(*old(t)),
        r is Ok,
{
    Ok(())
}

/// Relies on Layouter::assign_table: opens an assignment scope for a table
/// whose row set is empty.
#[verifier::external_body]
fn load_no_rows(layouter: &mut impl Layouter<Fp>) -> Result<(), Error> {
    layouter.assign_table(
        || "blockexit table",
        |mut tb| assign_no_rows(&mut TableCtx { inner: &mut tb }),
    )
}

/// The register table: a fixed column of register indices and a witness
/// column of the values bound to them in the current instance.
///
/// An engine with multi-phase commitments would allocate the value column
/// in a later phase, so that its values are committed only after a first
/// commitment round; the engine bound here has a single phase, so the
/// value column is an ordinary witness column.
pub struct RegisterTable {
    pub index: FixedColumn,
    pub value: AdviceColumn,
}

impl RegisterTable {
    /// Allocates the two columns: a fresh fixed column for the indices
    /// and a fresh witness column for the values.
    pub fn construct(cs: &mut Cs<'_>) -> (t: Self)
        ensures
            fixed_column_id(t.index) == cs_fixed_count(*old(cs)),
            advice_column_id(t.value) == cs_advice_count(*old(cs)),
            cs_fixed_count(*final(cs)) == cs_fixed_count(*old(cs)) + 1,
            cs_advice_count(*final(cs)) == cs_advice_count(*old(cs)) + 1,
            cs_selector_count(*final(cs)) == cs_selector_count(*old(cs)),
    {
        RegisterTable { index: new_fixed_column(cs), value: new_advice_column(cs) }
    }

    /// Writes one register binding `(index, value)` at the given row
    /// offset.  On success the region's cells are the old cells plus the
    /// index value in the index column and the register value in the
    /// value column, both at that offset; no selector is touched.
    fn assign(&self, region: &mut RegionCtx<'_, '_>, offset: usize, row: (Value<Fp>, Value<Fp>))
        -> (r: Result<(), AssignError>)
        ensures
            r is Ok ==> region_fixed_cells(*final(region)) == region_fixed_cells(
                *old(region),
            ).insert((self.index, offset), row.0),
            r is Ok ==> region_advice_cells(*final(region)) == region_advice_cells(
                *old(region),
            ).insert((self.value, offset), row.1),
            r is Ok ==> region_enabled(*final(region)) == region_enabled(*old(region)),
    {
        let (index_value, register_value) = row;
        match self.assign_cells(region, offset, index_value, register_value) {
            Ok(u) => Ok(u),
            Err(_) => Err(AssignError::ColumnWrite),
        }
    }

    /// Writes the two cells of one register binding, aborting on the
    /// first refused write.
    fn assign_cells(
        &self,
        region: &mut RegionCtx<'_, '_>,
        offset: usize,
        index_value: Value<Fp>,
        register_value: Value<Fp>,
    ) -> (r: Result<(), Error>)
        ensures
            r is Ok ==> region_fixed_cells(*final(region)) == region_fixed_cells(
                *old(region),
            ).insert((self.index, offset), index_value),
            r is Ok ==> region_advice_cells(*final(region)) == region_advice_cells(
                *old(region),
            ).insert((self.value, offset), register_value),
            r is Ok ==> region_enabled(*final(region)) == region_enabled(*old(region)),
    {
        assign_fixed_cell(region, &self.index, offset, index_value)?;
        assign_advice_cell(region, &self.value, offset, register_value)?;
        Ok(())
    }
}

impl LookupTable for RegisterTable {
    open spec fn spec_columns(&self) -> Seq<AnyColumn> {
        seq![any_of_fixed(self.index), any_of_advice(self.value)]
    }

    fn columns(&self) -> (r: Vec<AnyColumn>) {
        let mut v: Vec<AnyColumn> = Vec::new();
        v.push(fixed_as_any(&self.index));
        v.push(advice_as_any(&self.value));
        proof {
            assert(v@ =~= self.spec_columns());
        }
        v
    }

    fn annotations(&self) -> (r: Vec<String>)
        ensures
            r@[0]@ == "index"@,
            r@[1]@ == "value"@,
    {
        let mut v: Vec<String> = Vec::new();
        v.push("index".to_string());
        v.push("value".to_string());
        v
    }
}

} // verus!
