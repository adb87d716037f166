//! Tests of the machine state: register and memory accessors, their bounds
//! checks, program loading, and the program counter.

use mix::machine::{Mix, MixError, INDEX_REGISTER_COUNT, MEMORY_SIZE};

#[test]
fn test_new_machine_is_zeroed() {
    let mix = Mix::new();
    assert_eq!(mix.read_a(), 0);
    assert_eq!(mix.read_x(), 0);
    assert_eq!(mix.get_comparison(), 0);
    assert_eq!(mix.get_location(), 0);
    for k in 0..INDEX_REGISTER_COUNT {
        assert_eq!(mix.read_i(k).unwrap(), 0);
    }
    assert_eq!(mix.read_memory(0).unwrap(), 0);
    assert_eq!(mix.read_memory(MEMORY_SIZE - 1).unwrap(), 0);
}

#[test]
fn test_write_read_round_trip() {
    let mut mix = Mix::new();
    mix.set_memory(0, 7).unwrap();
    assert_eq!(mix.read_memory(0).unwrap(), 7);
    mix.set_memory(1234, -99).unwrap();
    assert_eq!(mix.read_memory(1234).unwrap(), -99);
    mix.set_memory(MEMORY_SIZE - 1, i32::MIN).unwrap();
    assert_eq!(mix.read_memory(MEMORY_SIZE - 1).unwrap(), i32::MIN);
}

#[test]
fn test_out_of_range_access_fails_and_mutates_nothing() {
    let mut mix = Mix::new();
    mix.set_memory(0, 7).unwrap();
    mix.set_location(2).unwrap();

    assert_eq!(mix.set_memory(MEMORY_SIZE, 9), Err(MixError::OutOfRange));
    assert_eq!(mix.set_memory(5000, 9), Err(MixError::OutOfRange));
    assert_eq!(mix.read_memory(MEMORY_SIZE), Err(MixError::OutOfRange));
    assert_eq!(mix.set_location(MEMORY_SIZE as i32), Err(MixError::OutOfRange));
    assert_eq!(mix.set_location(-1), Err(MixError::OutOfRange));

    assert_eq!(mix.read_memory(0).unwrap(), 7);
    assert_eq!(mix.get_location(), 2);
    assert_eq!(mix.read_a(), 0);
}

#[test]
fn test_register_round_trips() {
    let mut mix = Mix::new();
    mix.load_a(41);
    assert_eq!(mix.read_a(), 41);
    mix.load_x(-17);
    assert_eq!(mix.read_x(), -17);
    mix.set_comparison(-5);
    assert_eq!(mix.get_comparison(), -5);
    for k in 0..INDEX_REGISTER_COUNT {
        mix.load_i(k, k as i32 + 1).unwrap();
    }
    for k in 0..INDEX_REGISTER_COUNT {
        assert_eq!(mix.read_i(k).unwrap(), k as i32 + 1);
    }
}

#[test]
fn test_index_register_out_of_range() {
    let mut mix = Mix::new();
    assert_eq!(mix.load_i(INDEX_REGISTER_COUNT, 5), Err(MixError::IndexOutOfRange));
    assert_eq!(mix.read_i(INDEX_REGISTER_COUNT), Err(MixError::IndexOutOfRange));
    assert_eq!(mix.read_i(100), Err(MixError::IndexOutOfRange));
    for k in 0..INDEX_REGISTER_COUNT {
        assert_eq!(mix.read_i(k).unwrap(), 0);
    }
}

#[test]
fn test_load_program_of_full_memory_length() {
    let mut mix = Mix::new();
    let mut program: Vec<i32> = Vec::new();
    for j in 0..MEMORY_SIZE {
        program.push(j as i32 - 2000);
    }
    mix.load_program(&program).unwrap();
    assert_eq!(mix.read_memory(0).unwrap(), -2000);
    assert_eq!(mix.read_memory(1).unwrap(), -1999);
    assert_eq!(mix.read_memory(2000).unwrap(), 0);
    assert_eq!(mix.read_memory(MEMORY_SIZE - 1).unwrap(), 1999);
}

#[test]
fn test_load_program_too_large_mutates_nothing() {
    let mut mix = Mix::new();
    mix.set_memory(0, 55).unwrap();
    let program: Vec<i32> = vec![1; MEMORY_SIZE + 1];
    assert_eq!(mix.load_program(&program), Err(MixError::ProgramTooLarge));
    assert_eq!(mix.read_memory(0).unwrap(), 55);
    assert_eq!(mix.read_memory(1).unwrap(), 0);
    assert_eq!(mix.read_memory(MEMORY_SIZE - 1).unwrap(), 0);
}

#[test]
fn test_load_program_keeps_words_past_its_end() {
    let mut mix = Mix::new();
    mix.set_memory(3, 77).unwrap();
    mix.load_program(&[9, 8]).unwrap();
    assert_eq!(mix.read_memory(0).unwrap(), 9);
    assert_eq!(mix.read_memory(1).unwrap(), 8);
    assert_eq!(mix.read_memory(3).unwrap(), 77);
}
