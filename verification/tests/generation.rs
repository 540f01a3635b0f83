//! Tests of the exhaustive binary-operation table generation.

use vm_tables::rows::generate_binop_table;
use vm_tables::tag::BinOpTag;
use vm_tables::tag::UnaryOpTag;

#[test]
fn generate_binop_table_test() {
    generate_binop_table(4);
}

#[test]
fn table_size_matches_range() {
    assert_eq!(generate_binop_table(4).len(), 16 * 16 * 15);
    assert_eq!(generate_binop_table(1).len(), 2 * 2 * 15);
    assert_eq!(generate_binop_table(0).len(), 15);
}

#[test]
fn range_zero_has_single_operand_value() {
    let rows = generate_binop_table(0);
    assert_eq!(rows.len(), 15);
    for (k, row) in rows.iter().enumerate() {
        assert_eq!(row[0] as usize, k + 1);
        assert_eq!(row[1], 0);
        assert_eq!(row[2], 0);
    }
}

#[test]
fn generation_is_idempotent() {
    let first = generate_binop_table(4);
    let second = generate_binop_table(4);
    assert_eq!(first, second);
    let first_small = generate_binop_table(2);
    let second_small = generate_binop_table(2);
    assert_eq!(first_small, second_small);
}

#[test]
fn add_row_for_three_plus_five() {
    let rows = generate_binop_table(4);
    assert!(rows.contains(&[1, 3, 5, 8]));
    assert!(!rows.contains(&[1, 3, 5, 9]));
}

#[test]
fn sub_row_saturates_at_zero() {
    let rows = generate_binop_table(4);
    assert!(rows.contains(&[3, 2, 5, 0]));
    let matches: Vec<&[u8; 4]> = rows
        .iter()
        .filter(|r| r[0] == 3 && r[1] == 2 && r[2] == 5)
        .collect();
    assert_eq!(matches.len(), 1);
    assert_eq!(matches[0][3], 0);
}

#[test]
fn div_and_mod_by_zero_give_zero() {
    let rows = generate_binop_table(4);
    for x in 0u8..16 {
        assert!(rows.contains(&[4, x, 0, 0]));
        assert!(rows.contains(&[5, x, 0, 0]));
    }
}

#[test]
fn every_key_appears_exactly_once() {
    let rows = generate_binop_table(2);
    for x in 0u8..4 {
        for y in 0u8..4 {
            for code in 1u8..=15 {
                let matches: Vec<&[u8; 4]> = rows
                    .iter()
                    .filter(|r| r[0] == code && r[1] == x && r[2] == y)
                    .collect();
                assert_eq!(matches.len(), 1);
            }
        }
    }
}

#[test]
fn rows_follow_generation_order() {
    let rows = generate_binop_table(4);
    // Outer loop x, middle loop y, inner loop over tags in declaration
    // order: the ADD row of (x, y) = (3, 5) sits at ((3 * 16) + 5) * 15.
    assert_eq!(rows[(3 * 16 + 5) * 15], [1, 3, 5, 8]);
    for (k, row) in rows.iter().take(15).enumerate() {
        assert_eq!(row[0] as usize, k + 1);
    }
}

#[test]
fn arithmetic_rows_match_semantics() {
    let rows = generate_binop_table(4);
    assert!(rows.contains(&[1, 15, 15, 30])); // ADD is unreduced
    assert!(rows.contains(&[2, 15, 15, 225])); // MUL
    assert!(rows.contains(&[3, 9, 4, 5])); // SUB
    assert!(rows.contains(&[4, 13, 4, 3])); // DIV truncates toward zero
    assert!(rows.contains(&[5, 13, 4, 1])); // MOD
}

#[test]
fn comparison_rows_are_boolean() {
    let rows = generate_binop_table(4);
    assert!(rows.contains(&[6, 3, 5, 1])); // LT
    assert!(rows.contains(&[7, 3, 5, 0])); // GT
    assert!(rows.contains(&[8, 5, 5, 1])); // LE
    assert!(rows.contains(&[9, 4, 5, 0])); // GE
    assert!(rows.contains(&[15, 7, 7, 1])); // EQ
    assert!(rows.contains(&[15, 7, 8, 0]));
}

#[test]
fn shift_rows_truncate_to_byte() {
    let rows = generate_binop_table(4);
    assert!(rows.contains(&[10, 3, 2, 12])); // SHL: 3 << 2
    assert!(rows.contains(&[10, 15, 7, 128])); // SHL: 15 << 7 mod 256
    assert!(rows.contains(&[10, 1, 8, 0])); // SHL: shifted out entirely
    assert!(rows.contains(&[11, 12, 2, 3])); // SHR: 12 >> 2
    assert!(rows.contains(&[11, 1, 1, 0])); // SHR: shifted out
}

#[test]
fn bitwise_rows_match_semantics() {
    let rows = generate_binop_table(4);
    assert!(rows.contains(&[12, 12, 10, 8])); // AND
    assert!(rows.contains(&[13, 12, 10, 6])); // XOR
    assert!(rows.contains(&[14, 12, 10, 14])); // OR
}

#[test]
fn binary_tag_codes_start_at_one_in_order() {
    let tags = BinOpTag::all();
    assert_eq!(tags.len(), 15);
    for (k, t) in tags.iter().enumerate() {
        assert_eq!(t.code() as usize, k + 1);
    }
    assert_eq!(BinOpTag::ADD.code(), 1);
    assert_eq!(BinOpTag::EQ.code(), 15);
}

#[test]
fn unary_tag_codes_start_at_one() {
    assert_eq!(UnaryOpTag::PLUS.code(), 1);
    assert_eq!(UnaryOpTag::MINUS.code(), 2);
    assert_eq!(UnaryOpTag::NEG.code(), 3);
}
