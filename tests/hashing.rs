use bloom_filter::hash_numbers::One;
use bloom_filter::hash_numbers::Two;
use bloom_filter::hash_to_indicies::HashToIndices;
use bloom_filter::hash_to_indicies::K;
use bloom_filter::optimal_k;
use bloom_filter::ReHasher;
use hashers::fnv::FNV1aHasher32;
use murmur3::murmur3_32::MurmurHasher;

#[test]
fn re_hasher_different_outputs_hello() {
    let rehasher: ReHasher<MurmurHasher> = ReHasher::new(3);
    let indices = rehasher.hash_to_indices(&"hello", 1000);
    assert_eq!(indices, vec![26, 16, 434]);
    let rehasher: ReHasher<MurmurHasher> = ReHasher::new(4);
    let indices = rehasher.hash_to_indices(&"hello", 1000);
    assert_eq!(indices, vec![26, 16, 434, 927])
}

#[test]
fn re_hasher_different_outputs_there() {
    let rehasher: ReHasher<MurmurHasher> = ReHasher::new(4);
    let indices = rehasher.hash_to_indices(&"there", 1000);
    assert_eq!(indices, vec![774, 836, 27, 178])
}

#[test]
fn optimal_k1() {
    let m = 28756;
    let k = optimal_k(2000, m);
    assert_eq!(k, 10)
}

#[test]
fn optimal_k_for_ten_bits_per_element_in_a_hundred() {
    assert_eq!(optimal_k(1000, 9586), 7);
}

#[test]
fn optimal_k_is_zero_with_fewer_bits_than_elements() {
    assert_eq!(optimal_k(10, 5), 0);
}

#[test]
fn optimal_k_with_one_bit_per_element() {
    assert_eq!(optimal_k(1, 1), 1);
}

#[test]
fn optimal_k_at_the_largest_size() {
    let k = optimal_k(1, u64::MAX as usize);
    assert_eq!(k as u64, 12786308645202655659);
}

#[test]
fn re_hasher_k_and_default() {
    let r: ReHasher<MurmurHasher> = ReHasher::new(7);
    assert_eq!(r.k(), 7);
    let d: ReHasher<MurmurHasher> = ReHasher::default();
    assert_eq!(d.k(), 4);
}

#[test]
fn re_hasher_with_no_rounds_gives_no_indices() {
    let r: ReHasher<MurmurHasher> = ReHasher::new(0);
    assert_eq!(r.hash_to_indices(&"hello", 1000), Vec::<usize>::new());
}

#[test]
fn re_hasher_first_round_is_a_plain_digest() {
    let chained: ReHasher<MurmurHasher> = ReHasher::new(3);
    let single: One<MurmurHasher> = One::default();
    let c = chained.hash_to_indices(&"hello", 1000);
    let s = single.hash_to_indices(&"hello", 1000);
    assert_eq!(c[0], s[0]);
}

#[test]
fn fnv_digest_of_a_string() {
    let one: One<FNV1aHasher32> = One::default();
    assert_eq!(one.hash_to_indices(&"a", 1000), vec![273]);
    assert_eq!(one.hash_to_indices(&"a", 1 << 40), vec![3525695273]);
}

#[test]
fn hashing_a_string_equals_hashing_its_str() {
    let r: ReHasher<MurmurHasher> = ReHasher::new(4);
    let owned = String::from("there");
    assert_eq!(r.hash_to_indices(&owned, 1000), vec![774, 836, 27, 178]);
}

#[test]
fn fixed_arity_k() {
    let two: Two<MurmurHasher, FNV1aHasher32> = Two::default();
    assert_eq!(two.k(), 2);
    let idx = two.hash_to_indices(&"a", 5);
    assert_eq!(idx.len(), 2);
    assert_eq!(idx[1], 3);
    assert!(idx.iter().all(|i| *i < 5));
}

#[test]
fn integers_hash_their_little_endian_bytes() {
    let one: One<FNV1aHasher32> = One::default();
    let m: usize = 1 << 40;
    assert_eq!(one.hash_to_indices(&1u32, m), vec![4218009092]);
    assert_eq!(one.hash_to_indices(&-1i32, m), vec![3809873841]);
    assert_eq!(one.hash_to_indices(&258u64, m), vec![575591084]);
    assert_eq!(one.hash_to_indices(&258usize, m), vec![575591084]);
    assert_eq!(one.hash_to_indices(&258i64, m), vec![575591084]);
}

#[test]
fn other_primitives_hash_their_bytes() {
    let one: One<FNV1aHasher32> = One::default();
    let m: usize = 1 << 40;
    assert_eq!(one.hash_to_indices(&7u8, m), vec![34363494]);
    assert_eq!(one.hash_to_indices(&-1i8, m), vec![2047574606]);
    assert_eq!(one.hash_to_indices(&true, m), vec![67918732]);
    assert_eq!(one.hash_to_indices(&'a', m), vec![4125217764]);
    assert_eq!(one.hash_to_indices(&258u16, m), vec![1551600396]);
    assert_eq!(one.hash_to_indices(&258u128, m), vec![4219665452]);
    assert_eq!(one.hash_to_indices(&258i128, m), vec![4219665452]);
    assert_eq!(one.hash_to_indices(&-1isize, m), vec![1823345245]);
}

#[test]
fn longer_chain_extends_shorter_one() {
    let short: ReHasher<MurmurHasher> = ReHasher::new(2);
    let long: ReHasher<MurmurHasher> = ReHasher::new(6);
    let s = short.hash_to_indices(&"chain", 997);
    let l = long.hash_to_indices(&"chain", 997);
    assert_eq!(l.len(), 6);
    assert_eq!(s[..], l[..2]);
}
