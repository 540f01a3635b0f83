//! Trusted bindings to the constraint-system engine.
//!
//! Everything the library needs from the external proving backend passes
//! through here: column allocation, symbolic queries, expression
//! construction and cell assignment.  Each binding is a thin wrapper whose
//! contract Verus believes; the values written into cells are always
//! computed by verified code before they reach a wrapper.
//!
//! The engine's state is modelled by uninterpreted names: each allocator
//! handle carries counters (`cs_fixed_count`, `cs_advice_count`,
//! `cs_selector_count`) and each column an identity drawn from them, so
//! freshness and distinctness of allocated columns are stated; each open
//! assignment scope carries a map from `(column, offset)` to the value
//! written there (`table_cells`, `region_fixed_cells`,
//! `region_advice_cells`, `region_enabled`), so the loading procedures can
//! state exactly which cells they write.  Handles whose engine type is
//! generic over the field are carried in opaque structs of this crate with
//! a public `inner` field, so that the unverified driver around the
//! library can wrap and unwrap them.

use halo2_proofs::circuit::Region;
use halo2_proofs::circuit::Table;
use halo2_proofs::circuit::Value;
use halo2_proofs::pasta::Fp;
use halo2_proofs::plonk::Advice;
use halo2_proofs::plonk::Any;
use halo2_proofs::plonk::Column;
use halo2_proofs::plonk::ConstraintSystem;
use halo2_proofs::plonk::Error;
use halo2_proofs::plonk::Expression;
use halo2_proofs::plonk::Fixed;
use halo2_proofs::plonk::Selector;
use halo2_proofs::plonk::TableColumn;
use halo2_proofs::plonk::VirtualCells;
use halo2_proofs::poly::Rotation;
use vstd::prelude::*;

verus! {

#[verifier::external_type_specification]
#[verifier::external_body]
pub struct ExFp(Fp);

#[verifier::external_type_specification]
#[verifier::external_body]
pub struct ExTableColumn(TableColumn);

#[verifier::external_type_specification]
#[verifier::external_body]
pub struct ExSelector(Selector);

#[verifier::external_type_specification]
#[verifier::external_body]
pub struct ExError(Error);

#[verifier::external_type_specification]
#[verifier::external_body]
#[verifier::reject_recursive_types(F)]
pub struct ExExpression<F>(Expression<F>);

#[verifier::external_type_specification]
#[verifier::external_body]
#[verifier::reject_recursive_types(V)]
pub struct ExValue<V>(Value<V>);

/// Opaque handle on one of the engine's fixed columns.
#[verifier::external_body]
pub struct FixedColumn {
    pub inner: Column<Fixed>,
}

/// Opaque handle on one of the engine's witness columns.
#[verifier::external_body]
pub struct AdviceColumn {
    pub inner: Column<Advice>,
}

/// Opaque handle on one of the engine's columns of either kind.
#[verifier::external_body]
pub struct AnyColumn {
    pub inner: Column<Any>,
}

/// Opaque handle on the engine's constraint system during configuration.
#[verifier::external_body]
pub struct Cs<'a> {
    pub inner: &'a mut ConstraintSystem<Fp>,
}

/// Opaque handle on an open region of the circuit layout.
#[verifier::external_body]
pub struct RegionCtx<'a, 'r> {
    pub inner: &'a mut Region<'r, Fp>,
}

/// Opaque handle on an open lookup-table assignment scope.
#[verifier::external_body]
pub struct TableCtx<'a, 'r> {
    pub inner: &'a mut Table<'r, Fp>,
}

/// Opaque handle on the engine's symbolic query context.
#[verifier::external_body]
pub struct Cells<'a, 'vc> {
    pub inner: &'a mut VirtualCells<'vc, Fp>,
}

/// How many fixed columns the constraint system has allocated; the
/// engine's allocator is a counter, and lookup-table columns draw from
/// the same counter.
pub uninterp spec fn cs_fixed_count(cs: Cs<'_>) -> nat;

/// How many witness columns the constraint system has allocated.
pub uninterp spec fn cs_advice_count(cs: Cs<'_>) -> nat;

/// How many selectors the constraint system has allocated.
pub uninterp spec fn cs_selector_count(cs: Cs<'_>) -> nat;

/// The identity of a fixed column: its position in allocation order.
pub uninterp spec fn fixed_column_id(c: FixedColumn) -> nat;

/// The identity of a witness column: its position in allocation order.
pub uninterp spec fn advice_column_id(c: AdviceColumn) -> nat;

/// The identity of a lookup-table column: the position of its backing
/// fixed column in allocation order.
pub uninterp spec fn table_column_id(c: TableColumn) -> nat;

/// The identity of a selector: its position in allocation order.
pub uninterp spec fn selector_id(s: Selector) -> nat;

/// Whether a selector is one of the engine's simple selectors.  The
/// engine refuses simple selectors inside lookup inputs and expression
/// arithmetic; this library only ever allocates complex selectors.
pub uninterp spec fn is_simple_selector(s: Selector) -> bool;

/// Whether an expression contains a simple selector anywhere; the
/// engine's expression arithmetic panics on such operands.
pub uninterp spec fn has_simple_selector(e: Expression<Fp>) -> bool;

/// The cells written so far in a lookup-table assignment scope, as a map
/// from `(column, offset)` to the integer whose field encoding was
/// written.
pub uninterp spec fn table_cells(t: TableCtx<'_, '_>) -> Map<(TableColumn, usize), u64>;

/// The fixed-column cells written so far in a region.
pub uninterp spec fn region_fixed_cells(r: RegionCtx<'_, '_>) -> Map<
    (FixedColumn, usize),
    Value<Fp>,
>;

/// The witness-column cells written so far in a region.
pub uninterp spec fn region_advice_cells(r: RegionCtx<'_, '_>) -> Map<
    (AdviceColumn, usize),
    Value<Fp>,
>;

/// The selector positions enabled so far in a region.
pub uninterp spec fn region_enabled(r: RegionCtx<'_, '_>) -> Set<(Selector, usize)>;

/// The generic column view of a fixed column: same identity, fixed kind.
pub uninterp spec fn any_of_fixed(c: FixedColumn) -> AnyColumn;

/// The generic column view of a witness column: same identity, witness
/// kind.
pub uninterp spec fn any_of_advice(c: AdviceColumn) -> AnyColumn;

/// Whether a generic column is a witness column.
pub uninterp spec fn is_advice_column(c: AnyColumn) -> bool;

/// The witness column behind a generic column of witness kind.
pub uninterp spec fn advice_view_of(c: AnyColumn) -> AdviceColumn;

/// The constant expression that holds the field encoding of an integer:
/// a function of the integer alone.
pub uninterp spec fn const_expr_of(v: u64) -> Expression<Fp>;

/// The witnessed field encoding of an integer: a function of the integer
/// alone.
pub uninterp spec fn known_value_of(v: u64) -> Value<Fp>;

/// Relies on ConstraintSystem::fixed_column: allocates the next fixed
/// column, a plain counter.
#[verifier::external_body]
pub(crate) fn new_fixed_column(cs: &mut Cs<'_>) -> (r: FixedColumn)
    ensures
        fixed_column_id(r) == cs_fixed_count(*old(cs)),
        cs_fixed_count(*final(cs)) == cs_fixed_count(*old(cs)) + 1,
        cs_advice_count(*final(cs)) == cs_advice_count(*old(cs)),
        cs_selector_count(*final(cs)) == cs_selector_count(*old(cs)),
{
    FixedColumn { inner: cs.inner.fixed_column() }
}

/// Relies on ConstraintSystem::advice_column: allocates the next witness
/// column, a plain counter.
#[verifier::external_body]
pub(crate) fn new_advice_column(cs: &mut Cs<'_>) -> (r: AdviceColumn)
    ensures
        advice_column_id(r) == cs_advice_count(*old(cs)),
        cs_advice_count(*final(cs)) == cs_advice_count(*old(cs)) + 1,
        cs_fixed_count(*final(cs)) == cs_fixed_count(*old(cs)),
        cs_selector_count(*final(cs)) == cs_selector_count(*old(cs)),
{
    AdviceColumn { inner: cs.inner.advice_column() }
}

/// Relies on ConstraintSystem::lookup_table_column: allocates the next
/// fixed column, reserved for the table side of lookup arguments; it
/// draws from the same counter as plain fixed columns.
#[verifier::external_body]
pub(crate) fn new_table_column(cs: &mut Cs<'_>) -> (r: TableColumn)
    ensures
        table_column_id(r) == cs_fixed_count(*old(cs)),
        cs_fixed_count(*final(cs)) == cs_fixed_count(*old(cs)) + 1,
        cs_advice_count(*final(cs)) == cs_advice_count(*old(cs)),
        cs_selector_count(*final(cs)) == cs_selector_count(*old(cs)),
{
    cs.inner.lookup_table_column()
}

/// Relies on ConstraintSystem::complex_selector: allocates the next
/// selector, marked complex, so it may appear inside lookup input
/// expressions.
#[verifier::external_body]
pub(crate) fn new_complex_selector(cs: &mut Cs<'_>) -> (r: Selector)
    ensures
        selector_id(r) == cs_selector_count(*old(cs)),
        !is_simple_selector(r),
        cs_selector_count(*final(cs)) == cs_selector_count(*old(cs)) + 1,
        cs_fixed_count(*final(cs)) == cs_fixed_count(*old(cs)),
        cs_advice_count(*final(cs)) == cs_advice_count(*old(cs)),
{
    cs.inner.complex_selector()
}

/// Relies on the Into<Column<Any>> conversion for fixed columns: the
/// same column seen generically, deterministically.
#[verifier::external_body]
pub(crate) fn fixed_as_any(c: &FixedColumn) -> (r: AnyColumn)
    ensures
        r == any_of_fixed(*c),
        !is_advice_column(r),
{
    AnyColumn { inner: c.inner.into() }
}

/// Relies on the Into<Column<Any>> conversion for witness columns: the
/// same column seen generically, deterministically.
#[verifier::external_body]
pub(crate) fn advice_as_any(c: &AdviceColumn) -> (r: AnyColumn)
    ensures
        r == any_of_advice(*c),
        is_advice_column(r),
        advice_view_of(r) == *c,
{
    AnyColumn { inner: c.inner.into() }
}

/// Relies on the TryInto<Column<Advice>> conversion: succeeds exactly
/// when the column is a witness column, giving back that column.
#[verifier::external_body]
pub(crate) fn any_as_advice(c: &AnyColumn) -> (r: Option<AdviceColumn>)
    ensures
        r is Some <==> is_advice_column(*c),
        is_advice_column(*c) ==> r == Some(advice_view_of(*c)),
{
    match c.inner.try_into() {
        Ok(col) => Some(AdviceColumn { inner: col }),
        Err(_) => None,
    }
}

/// Relies on VirtualCells::query_any at the current row.  A column query
/// contains no selector.
#[verifier::external_body]
pub(crate) fn query_any_cur(vc: &mut Cells<'_, '_>, c: &AnyColumn) -> (r: Expression<Fp>)
    ensures
        !has_simple_selector(r),
{
    vc.inner.query_any(c.inner, Rotation::cur())
}

/// Relies on VirtualCells::query_advice at the current row.  A column
/// query contains no selector.
#[verifier::external_body]
pub(crate) fn query_advice_cur(vc: &mut Cells<'_, '_>, c: &AdviceColumn) -> (r: Expression<Fp>)
    ensures
        !has_simple_selector(r),
{
    vc.inner.query_advice(c.inner, Rotation::cur())
}

/// Relies on VirtualCells::query_selector: a bare selector expression,
/// simple exactly when the selector is.
#[verifier::external_body]
pub(crate) fn query_selector_expr(vc: &mut Cells<'_, '_>, s: Selector) -> (r: Expression<Fp>)
    ensures
        has_simple_selector(r) == is_simple_selector(s),
{
    vc.inner.query_selector(s)
}

/// Relies on Expression::Constant and Fp::from: the constant expression
/// holding the field encoding of the integer; it contains no selector.
#[verifier::external_body]
pub(crate) fn constant_expr(v: u64) -> (r: Expression<Fp>)
    ensures
        r == const_expr_of(v),
        !has_simple_selector(r),
{
    Expression::Constant(Fp::from(v))
}

/// Relies on the Add impl of Expression, which panics on an operand
/// containing a simple selector: such operands are excluded.
#[verifier::external_body]
pub(crate) fn expr_sum(a: Expression<Fp>, b: Expression<Fp>) -> (r: Expression<Fp>)
    requires
        !has_simple_selector(a),
        !has_simple_selector(b),
    ensures
        !has_simple_selector(r),
{
    a + b
}

/// Relies on the Mul impl of Expression, which panics on an operand
/// containing a simple selector: such operands are excluded.
#[verifier::external_body]
pub(crate) fn expr_product(a: Expression<Fp>, b: Expression<Fp>) -> (r: Expression<Fp>)
    requires
        !has_simple_selector(a),
        !has_simple_selector(b),
    ensures
        !has_simple_selector(r),
{
    a * b
}

/// Relies on the Sub impl of Expression, which panics on an operand
/// containing a simple selector: such operands are excluded.
#[verifier::external_body]
pub(crate) fn expr_difference(a: Expression<Fp>, b: Expression<Fp>) -> (r: Expression<Fp>)
    requires
        !has_simple_selector(a),
        !has_simple_selector(b),
    ensures
        !has_simple_selector(r),
{
    a - b
}

/// Relies on Value::known and Fp::from: the witnessed field encoding of
/// the integer, a function of the integer alone.
#[verifier::external_body]
pub(crate) fn known_field_value(v: u64) -> (r: Value<Fp>)
    ensures
        r == known_value_of(v),
{
    Value::known(Fp::from(v))
}

/// Relies on Table::assign_cell: writes the field encoding of the integer
/// into one cell of a lookup-table column.  On success the scope's cells
/// are the old cells plus exactly this one; a refused write is returned
/// as an error.
#[verifier::external_body]
pub(crate) fn assign_table_cell(
    t: &mut TableCtx<'_, '_>,
    col: TableColumn,
    offset: usize,
    v: u64,
) -> (r: Result<(), Error>)
    ensures
        r is Ok ==> table_cells(*final(t)) == table_cells(*old(t)).insert((col, offset), v),
{
    t.inner.assign_cell(|| "table cell", col, offset, || Value::known(Fp::from(v)))
}

/// Relies on Region::assign_advice: writes the value into one cell of a
/// witness column at the given row offset.  On success the region's
/// witness cells are the old cells plus exactly this one; fixed cells and
/// selectors are untouched.
#[verifier::external_body]
pub(crate) fn assign_advice_cell(
    r: &mut RegionCtx<'_, '_>,
    col: &AdviceColumn,
    offset: usize,
    v: Value<Fp>,
) -> (res: Result<(), Error>)
    ensures
        res is Ok ==> region_advice_cells(*final(r)) == region_advice_cells(*old(r)).insert(
            (*col, offset),
            v,
        ),
        res is Ok ==> region_fixed_cells(*final(r)) == region_fixed_cells(*old(r)),
        res is Ok ==> region_enabled(*final(r)) == region_enabled(*old(r)),
{
    r.inner.assign_advice(|| "advice cell", col.inner, offset, || v)?;
    Ok(())
}

/// Relies on Region::assign_fixed: writes the value into one cell of a
/// fixed column at the given row offset.  On success the region's fixed
/// cells are the old cells plus exactly this one; witness cells and
/// selectors are untouched.
#[verifier::external_body]
pub(crate) fn assign_fixed_cell(
    r: &mut RegionCtx<'_, '_>,
    col: &FixedColumn,
    offset: usize,
    v: Value<Fp>,
) -> (res: Result<(), Error>)
    ensures
        res is Ok ==> region_fixed_cells(*final(r)) == region_fixed_cells(*old(r)).insert(
            (*col, offset),
            v,
        ),
        res is Ok ==> region_advice_cells(*final(r)) == region_advice_cells(*old(r)),
        res is Ok ==> region_enabled(*final(r)) == region_enabled(*old(r)),
{
    r.inner.assign_fixed(|| "fixed cell", col.inner, offset, || v)?;
    Ok(())
}

/// Relies on Selector::enable: turns the selector on at the given row
/// offset of the region; cells of both kinds are untouched.
#[verifier::external_body]
pub(crate) fn enable_selector(
    r: &mut RegionCtx<'_, '_>,
    s: Selector,
    offset: usize,
) -> (res: Result<(), Error>)
    ensures
        res is Ok ==> region_enabled(*final(r)) == region_enabled(*old(r)).insert((s, offset)),
        res is Ok ==> region_fixed_cells(*final(r)) == region_fixed_cells(*old(r)),
        res is Ok ==> region_advice_cells(*final(r)) == region_advice_cells(*old(r)),
{
    s.enable(r.inner, offset)
}

} // verus!
