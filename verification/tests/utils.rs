use benchmark::utils::chunk_start;
use benchmark::utils::fill_chunk;
use benchmark::utils::fill_rand;
use benchmark::utils::next_value;
use benchmark::utils::CHUNK_SIZE;
use benchmark::utils::SEED_A;
use benchmark::utils::SEED_B;

/// The entries of one chunk, computed step by step.
fn expected_chunk(chunk: usize, seed: u64, len: usize) -> Vec<u64> {
    let mut value: u64 = (chunk as u64 * 1034871 + 10581) * seed;
    for _ in 0..(50 + chunk as u64) {
        value = value.wrapping_mul(192499).wrapping_add(6837199);
    }
    let mut entries: Vec<u64> = Vec::new();
    for _ in 0..len {
        value = value.wrapping_mul(192499).wrapping_add(6837199);
        entries.push(value);
    }
    entries
}

#[test]
fn the_generator_multiplies_and_adds_with_wrapping() {
    assert_eq!(next_value(0), 6837199);
    assert_eq!(next_value(1), 192499 + 6837199);
    assert_eq!(next_value(u64::MAX), 6837199u64.wrapping_sub(192499));
}

#[test]
fn a_chunk_starts_from_its_index_and_the_seed() {
    assert_eq!(chunk_start(0, 100), Some(1058100));
    assert_eq!(chunk_start(1, 100), Some(104545200));
    assert_eq!(chunk_start(3, 0), Some(0));
    assert_eq!(chunk_start(0, u64::MAX), None);
    assert_eq!(chunk_start(usize::MAX, 0), None);
}

#[test]
fn the_first_entries_of_an_operand() {
    let values = fill_rand(3, SEED_A).unwrap();
    assert_eq!(values, vec![12794675473769863823, 8305535746819787404, 9570114581714209459]);
    let values = fill_rand(2, SEED_B).unwrap();
    assert_eq!(values, vec![2516015470051242059, 11196314149774274560]);
}

#[test]
fn each_chunk_of_an_operand_starts_anew() {
    let size: usize = 2 * CHUNK_SIZE + 17;
    let values = fill_rand(size, 100).unwrap();
    assert_eq!(values.len(), size);
    assert_eq!(values[CHUNK_SIZE], 544034812880209864);
    assert_eq!(values[CHUNK_SIZE + 1], 3991338178400923303);
    assert_eq!(values[..CHUNK_SIZE], expected_chunk(0, 100, CHUNK_SIZE)[..]);
    assert_eq!(values[CHUNK_SIZE..2 * CHUNK_SIZE], expected_chunk(1, 100, CHUNK_SIZE)[..]);
    assert_eq!(values[2 * CHUNK_SIZE..], expected_chunk(2, 100, 17)[..]);
}

#[test]
fn an_empty_operand_is_filled_with_nothing() {
    assert_eq!(fill_rand(0, 100), Some(Vec::new()));
    assert_eq!(fill_rand(0, u64::MAX), Some(Vec::new()));
}

#[test]
fn an_operand_whose_chunks_cannot_start_is_not_filled() {
    assert_eq!(fill_rand(1, u64::MAX), None);
    let seed: u64 = u64::MAX / 1045452 + 1;
    assert_eq!(fill_rand(CHUNK_SIZE + 1, seed), None);
    assert!(fill_rand(CHUNK_SIZE, seed).is_some());
    assert!(fill_rand(CHUNK_SIZE + 1, seed - 1).is_some());
}

#[test]
fn one_chunk_is_filled_in_place() {
    let mut entries: Vec<u64> = vec![0; 5];
    fill_chunk(2, &mut entries, 7);
    assert_eq!(entries[0], 1472992587231393398);
    assert_eq!(entries, expected_chunk(2, 7, 5));
}
