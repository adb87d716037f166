//! Tests of the single instructions: loads, stores, arithmetic, comparison
//! and jumps, with their bounds checks and error kinds.

use mix::instructions::{decode, Opcode, ADD, CMP, DIV, HLT, JL, JMP, JZ, LDA, STA, SUB};
use mix::machine::{Mix, MixError};

#[test]
fn test_lda_works() {
    let mut mix = Mix::new();
    mix.set_memory(0, 123).unwrap();

    mix.lda(0).unwrap();

    assert_eq!(mix.read_a(), 123);
}

#[test]
fn test_lda_out_of_range_address() {
    let mut mix = Mix::new();
    assert!(mix.lda(5000).is_err());
}

#[test]
fn test_sta_works() {
    let mut mix = Mix::new();
    mix.load_a(123);
    mix.sta(0).unwrap();
    assert_eq!(mix.read_memory(0).unwrap(), 123);
}

#[test]
fn test_sta_out_of_range_address() {
    let mut mix = Mix::new();
    assert!(mix.sta(5000).is_err());
}

#[test]
fn test_add_sums_accumulator_and_memory() {
    let mut mix = Mix::new();
    mix.load_a(5);
    mix.set_memory(11, 7).unwrap();
    mix.add(11).unwrap();
    assert_eq!(mix.read_a(), 12);
}

#[test]
fn test_add_wraps_on_overflow() {
    let mut mix = Mix::new();
    mix.load_a(i32::MAX);
    mix.set_memory(0, 1).unwrap();
    mix.add(0).unwrap();
    assert_eq!(mix.read_a(), i32::MIN);
}

#[test]
fn test_sub_subtracts_memory_from_accumulator() {
    let mut mix = Mix::new();
    mix.load_a(5);
    mix.set_memory(11, 7).unwrap();
    mix.sub(11).unwrap();
    assert_eq!(mix.read_a(), -2);
}

#[test]
fn test_sub_wraps_on_overflow() {
    let mut mix = Mix::new();
    mix.load_a(i32::MIN);
    mix.set_memory(0, 1).unwrap();
    mix.sub(0).unwrap();
    assert_eq!(mix.read_a(), i32::MAX);
}

#[test]
fn test_div_truncates_toward_zero() {
    let mut mix = Mix::new();
    mix.set_memory(0, 2).unwrap();
    mix.load_a(-7);
    mix.div(0).unwrap();
    assert_eq!(mix.read_a(), -3);

    mix.set_memory(0, -2).unwrap();
    mix.load_a(7);
    mix.div(0).unwrap();
    assert_eq!(mix.read_a(), -3);

    mix.set_memory(0, 2).unwrap();
    mix.load_a(7);
    mix.div(0).unwrap();
    assert_eq!(mix.read_a(), 3);
}

#[test]
fn test_div_wraps_the_overflowing_quotient() {
    let mut mix = Mix::new();
    mix.set_memory(0, -1).unwrap();
    mix.load_a(i32::MIN);
    mix.div(0).unwrap();
    assert_eq!(mix.read_a(), i32::MIN);
}

#[test]
fn test_div_by_zero_fails_and_keeps_accumulator() {
    let mut mix = Mix::new();
    mix.load_a(5);
    mix.set_memory(10, 0).unwrap();
    assert_eq!(mix.div(10), Err(MixError::DivideByZero));
    assert_eq!(mix.read_a(), 5);
}

#[test]
fn test_div_out_of_range_address() {
    let mut mix = Mix::new();
    mix.load_a(5);
    assert_eq!(mix.div(4000), Err(MixError::OutOfRange));
    assert_eq!(mix.read_a(), 5);
}

#[test]
fn test_cmp_sets_comparison_flag() {
    let mut mix = Mix::new();
    mix.load_a(10);
    mix.set_memory(20, 3).unwrap();
    mix.cmp(20).unwrap();
    assert_eq!(mix.get_comparison(), 7);

    mix.load_a(3);
    mix.set_memory(20, 10).unwrap();
    mix.cmp(20).unwrap();
    assert_eq!(mix.get_comparison(), -7);

    mix.load_a(10);
    mix.set_memory(20, 10).unwrap();
    mix.cmp(20).unwrap();
    assert_eq!(mix.get_comparison(), 0);
}

#[test]
fn test_jmp_moves_the_program_counter() {
    let mut mix = Mix::new();
    mix.jmp(100).unwrap();
    assert_eq!(mix.get_location(), 100);
    assert_eq!(mix.jmp(4000), Err(MixError::OutOfRange));
    assert_eq!(mix.get_location(), 100);
}

#[test]
fn test_jz_redirects_only_on_zero_accumulator() {
    let mut mix = Mix::new();
    mix.load_a(0);
    mix.jz(50).unwrap();
    assert_eq!(mix.get_location(), 50);

    mix.load_a(1);
    mix.jz(60).unwrap();
    assert_eq!(mix.get_location(), 50);

    mix.load_a(0);
    assert_eq!(mix.jz(4000), Err(MixError::OutOfRange));
    assert_eq!(mix.get_location(), 50);

    mix.load_a(1);
    mix.jz(4000).unwrap();
    assert_eq!(mix.get_location(), 50);
}

#[test]
fn test_jl_redirects_only_on_negative_accumulator() {
    let mut mix = Mix::new();
    mix.load_a(-1);
    mix.jl(50).unwrap();
    assert_eq!(mix.get_location(), 50);

    mix.load_a(0);
    mix.jl(60).unwrap();
    assert_eq!(mix.get_location(), 50);

    mix.load_a(-1);
    assert_eq!(mix.jl(4000), Err(MixError::OutOfRange));
    assert_eq!(mix.get_location(), 50);
}

#[test]
fn test_decode_names_every_instruction_and_nothing_else() {
    assert_eq!(decode(HLT), Some(Opcode::Halt));
    assert_eq!(decode(LDA), Some(Opcode::LoadA));
    assert_eq!(decode(STA), Some(Opcode::StoreA));
    assert_eq!(decode(ADD), Some(Opcode::Add));
    assert_eq!(decode(SUB), Some(Opcode::Sub));
    assert_eq!(decode(DIV), Some(Opcode::Div));
    assert_eq!(decode(JMP), Some(Opcode::Jump));
    assert_eq!(decode(JZ), Some(Opcode::JumpZero));
    assert_eq!(decode(JL), Some(Opcode::JumpNeg));
    assert_eq!(decode(CMP), Some(Opcode::Compare));
    assert_eq!(decode(10), None);
    assert_eq!(decode(42), None);
    assert_eq!(decode(-1), None);
}
