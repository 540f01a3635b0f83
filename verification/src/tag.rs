//! Operator tag enumerations.
//!
//! Each tag is a closed set of operator identifiers with a canonical
//! non-zero integer code.  Codes start at 1 so that a default-zero witness
//! row can never collide with a real operation.  The same code function is
//! used both when the tables are generated and when a sub-circuit encodes a
//! witnessed operation, which is what makes the lookup able to match at all.

use crate::backend::const_expr_of;
use crate::backend::constant_expr;
use halo2_proofs::pasta::Fp;
use halo2_proofs::plonk::Expression;
use vstd::prelude::*;

verus! {

/// The identifiers of the machine's binary operations.
#[allow(non_camel_case_types)]
#[derive(Clone, Copy, Debug, PartialEq, Eq, Structural)]
pub enum BinOpTag {
    ADD,
    MUL,
    SUB,
    DIV,
    MOD,
    LT,
    GT,
    LE,
    GE,
    SHL,
    SHR,
    AND,
    XOR,
    OR,
    EQ,
}

impl BinOpTag {
    /// The canonical code of the tag: 1 for ADD up to 15 for EQ,
    /// following declaration order.
    pub open spec fn spec_code(self) -> u8 {
        match self {
            BinOpTag::ADD => 1,
            BinOpTag::MUL => 2,
            BinOpTag::SUB => 3,
            BinOpTag::DIV => 4,
            BinOpTag::MOD => 5,
            BinOpTag::LT => 6,
            BinOpTag::GT => 7,
            BinOpTag::LE => 8,
            BinOpTag::GE => 9,
            BinOpTag::SHL => 10,
            BinOpTag::SHR => 11,
            BinOpTag::AND => 12,
            BinOpTag::XOR => 13,
            BinOpTag::OR => 14,
            BinOpTag::EQ => 15,
        }
    }

    /// Returns the canonical integer code of this tag.
    pub fn code(self) -> (c: u8)
        ensures
            c == self.spec_code(),
            1 <= c <= 15,
    {
        match self {
            BinOpTag::ADD => 1,
            BinOpTag::MUL => 2,
            BinOpTag::SUB => 3,
            BinOpTag::DIV => 4,
            BinOpTag::MOD => 5,
            BinOpTag::LT => 6,
            BinOpTag::GT => 7,
            BinOpTag::LE => 8,
            BinOpTag::GE => 9,
            BinOpTag::SHL => 10,
            BinOpTag::SHR => 11,
            BinOpTag::AND => 12,
            BinOpTag::XOR => 13,
            BinOpTag::OR => 14,
            BinOpTag::EQ => 15,
        }
    }

    /// The tags in declaration order; position k holds the tag of code k + 1.
    pub open spec fn spec_all() -> Seq<BinOpTag> {
        seq![
            BinOpTag::ADD,
            BinOpTag::MUL,
            BinOpTag::SUB,
            BinOpTag::DIV,
            BinOpTag::MOD,
            BinOpTag::LT,
            BinOpTag::GT,
            BinOpTag::LE,
            BinOpTag::GE,
            BinOpTag::SHL,
            BinOpTag::SHR,
            BinOpTag::AND,
            BinOpTag::XOR,
            BinOpTag::OR,
            BinOpTag::EQ,
        ]
    }

    /// Returns every binary tag exactly once, in declaration order.
    pub fn all() -> (v: Vec<BinOpTag>)
        ensures
            v@ == BinOpTag::spec_all(),
            v@.len() == 15,
    {
        let mut v: Vec<BinOpTag> = Vec::new();
        v.push(BinOpTag::ADD);
        v.push(BinOpTag::MUL);
        v.push(BinOpTag::SUB);
        v.push(BinOpTag::DIV);
        v.push(BinOpTag::MOD);
        v.push(BinOpTag::LT);
        v.push(BinOpTag::GT);
        v.push(BinOpTag::LE);
        v.push(BinOpTag::GE);
        v.push(BinOpTag::SHL);
        v.push(BinOpTag::SHR);
        v.push(BinOpTag::AND);
        v.push(BinOpTag::XOR);
        v.push(BinOpTag::OR);
        v.push(BinOpTag::EQ);
        proof {
            assert(v@ =~= BinOpTag::spec_all());
        }
        v
    }

    /// The tag as a constant expression of the constraint system,
    /// carrying exactly its integer code.  This is the same code that the
    /// table generator writes into the tag column, which is what lets the
    /// lookup match.
    pub fn expr(self) -> (r: Expression<Fp>)
        ensures
            r == const_expr_of(self.spec_code() as u64),
    {
        constant_expr(self.code() as u64)
    }
}

/// Every binary tag has exactly one code and the coding is injective:
/// two tags with the same code are the same tag.
pub proof fn lemma_binop_code_injective(a: BinOpTag, b: BinOpTag)
    ensures
        a.spec_code() == b.spec_code() ==> a == b,
{
}

/// The tag listed at position k of the declaration order carries code k + 1,
/// so every code in 1..=15 names exactly one enumerated tag.
pub proof fn lemma_binop_code_is_position(k: int)
    requires
        0 <= k < 15,
    ensures
        BinOpTag::spec_all()[k].spec_code() == k + 1,
{
}

/// The identifiers of the machine's unary operations.
#[allow(non_camel_case_types)]
#[derive(Clone, Copy, Debug, PartialEq, Eq, Structural)]
pub enum UnaryOpTag {
    PLUS,
    MINUS,
    NEG,
}

impl UnaryOpTag {
    /// The canonical code of the tag: PLUS is 1, MINUS 2, NEG 3.
    pub open spec fn spec_code(self) -> u8 {
        match self {
            UnaryOpTag::PLUS => 1,
            UnaryOpTag::MINUS => 2,
            UnaryOpTag::NEG => 3,
        }
    }

    /// Returns the canonical integer code of this tag.
    pub fn code(self) -> (c: u8)
        ensures
            c == self.spec_code(),
            1 <= c <= 3,
    {
        match self {
            UnaryOpTag::PLUS => 1,
            UnaryOpTag::MINUS => 2,
            UnaryOpTag::NEG => 3,
        }
    }

    /// The tag as a constant expression of the constraint system,
    /// carrying exactly its integer code.
    pub fn expr(self) -> (r: Expression<Fp>)
        ensures
            r == const_expr_of(self.spec_code() as u64),
    {
        constant_expr(self.code() as u64)
    }
}

/// Unary codes are injective as well.
pub proof fn lemma_unary_code_injective(a: UnaryOpTag, b: UnaryOpTag)
    ensures
        a.spec_code() == b.spec_code() ==> a == b,
{
}

/// The identifiers of the block-exit transitions.
#[allow(non_camel_case_types)]
#[derive(Clone, Copy, Debug, PartialEq, Eq, Structural)]
pub enum BlockExitTag {
    JUMP,
    CONDJUMP,
    RET,
}

impl BlockExitTag {
    /// The canonical code of the tag: JUMP is 1, CONDJUMP 2, RET 3.
    pub open spec fn spec_code(self) -> u8 {
        match self {
            BlockExitTag::JUMP => 1,
            BlockExitTag::CONDJUMP => 2,
            BlockExitTag::RET => 3,
        }
    }

    /// Returns the canonical integer code of this tag.
    pub fn code(self) -> (c: u8)
        ensures
            c == self.spec_code(),
            1 <= c <= 3,
    {
        match self {
            BlockExitTag::JUMP => 1,
            BlockExitTag::CONDJUMP => 2,
            BlockExitTag::RET => 3,
        }
    }

    /// The tag as a constant expression of the constraint system,
    /// carrying exactly its integer code.
    pub fn expr(self) -> (r: Expression<Fp>)
        ensures
            r == const_expr_of(self.spec_code() as u64),
    {
        constant_expr(self.code() as u64)
    }
}

} // verus!
