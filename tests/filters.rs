use bloom_filter::w_lock_bloom_filter::all_masks_set;
use bloom_filter::hash_numbers::One;
use bloom_filter::hash_numbers::Two;
use bloom_filter::hash_to_indicies::K;
use bloom_filter::BloomFilter;
use bloom_filter::CountingBloomFilter;
use bloom_filter::CountingWLockBloomFilter;
use bloom_filter::ParamError;
use bloom_filter::ReHasher;
use bloom_filter::WLockBloomFilter;
use hashers::fnv::FNV1aHasher32;
use murmur3::murmur3_32::MurmurHasher;

#[test]
fn k_1_contains() {
    let mut bf: BloomFilter<&str, ReHasher<MurmurHasher>> =
        BloomFilter::new(100000, ReHasher::new(3));
    bf.insert(&"hello");
    assert!(bf.contains(&"hello"))
}

#[test]
fn k_1_does_not_contain() {
    let mut bf: BloomFilter<&str, One<MurmurHasher>> = BloomFilter::new(100000, One::default());
    bf.insert(&"hello");
    assert!(!bf.contains(&"there"))
}

#[test]
fn k_1_false_positives_are_possible() {
    let mut bf: BloomFilter<&str, One<MurmurHasher>> = BloomFilter::new(5, One::default());
    bf.insert(&"a");
    assert!(
        bf.contains(&"l"),
        "With a murmur hasher, a and l should resolve to the same index"
    )
}

#[test]
fn false_positives_can_be_avoided_with_more_k() {
    let mut bf: BloomFilter<&str, One<MurmurHasher>> = BloomFilter::new(5, One::default());
    bf.insert(&"a");
    assert!(
        bf.contains(&"l"),
        "With a murmur hasher, a and l should resolve to the same index"
    );
    let mut bf: BloomFilter<&str, Two<MurmurHasher, FNV1aHasher32>> =
        BloomFilter::new(5, Two::default());
    bf.insert(&"a");
    assert!(
        !bf.contains(&"l"),
        "With two hashers, a and l should have one index be the same,\
         but the other is allowed to be different, permitting avoidance of the false positive"
    )
}

#[test]
fn empty_filter_contains_nothing() {
    let bf: BloomFilter<&str, ReHasher<MurmurHasher>> = BloomFilter::new(1000, ReHasher::new(3));
    assert!(!bf.contains(&"hello"));
    assert!(!bf.contains(&""));
}

#[test]
fn inserted_values_stay_present() {
    let words = ["alpha", "beta", "gamma", "delta", "epsilon", "zeta", "eta", "theta"];
    let mut bf: BloomFilter<&str, ReHasher<MurmurHasher>> = BloomFilter::new(64, ReHasher::new(3));
    for (i, w) in words.iter().enumerate() {
        bf.insert(w);
        for earlier in &words[..=i] {
            assert!(bf.contains(earlier));
        }
    }
}

#[test]
fn inserting_twice_changes_nothing() {
    let probes = ["hello", "there", "a", "l", "x", "yz", ""];
    let mut once: BloomFilter<&str, ReHasher<MurmurHasher>> = BloomFilter::new(50, ReHasher::new(4));
    let mut twice: BloomFilter<&str, ReHasher<MurmurHasher>> = BloomFilter::new(50, ReHasher::new(4));
    once.insert(&"hello");
    twice.insert(&"hello");
    twice.insert(&"hello");
    for p in probes.iter() {
        assert_eq!(once.contains(p), twice.contains(p));
    }
}

#[test]
fn single_bit_filter_reports_everything_after_one_insert() {
    let mut bf: BloomFilter<&str, ReHasher<MurmurHasher>> = BloomFilter::new(1, ReHasher::new(2));
    assert!(!bf.contains(&"anything"));
    bf.insert(&"a");
    assert!(bf.contains(&"anything"));
}

#[test]
fn num_bits_and_k() {
    let bf: BloomFilter<&str, ReHasher<MurmurHasher>> = BloomFilter::new(1234, ReHasher::new(5));
    assert_eq!(bf.num_bits(), 1234);
    assert_eq!(bf.k(), 5);
}

#[test]
fn try_new_refuses_zero_bits() {
    let r: Result<BloomFilter<&str, One<MurmurHasher>>, ParamError> =
        BloomFilter::try_new(0, One::default());
    assert_eq!(r.err(), Some(ParamError::NoBits));
    let r: Result<BloomFilter<&str, One<MurmurHasher>>, ParamError> =
        BloomFilter::try_new(8, One::default());
    assert_eq!(r.map(|f| f.num_bits()).ok(), Some(8));
}

#[test]
fn optimal_with_bits_picks_k() {
    let bf: BloomFilter<&str, ReHasher<MurmurHasher>> =
        BloomFilter::optimal_with_bits(1000, 9586).ok().unwrap();
    assert_eq!(bf.num_bits(), 9586);
    assert_eq!(bf.k(), 7);
    let bf: BloomFilter<&str, ReHasher<MurmurHasher>> =
        BloomFilter::optimal_with_bits(2000, 28756).ok().unwrap();
    assert_eq!(bf.k(), 10);
}

#[test]
fn optimal_with_bits_refuses_degenerate_parameters() {
    let r: Result<BloomFilter<&str, ReHasher<MurmurHasher>>, ParamError> =
        BloomFilter::optimal_with_bits(0, 100);
    assert_eq!(r.err(), Some(ParamError::NoElements));
    let r: Result<BloomFilter<&str, ReHasher<MurmurHasher>>, ParamError> =
        BloomFilter::optimal_with_bits(100, 0);
    assert_eq!(r.err(), Some(ParamError::NoBits));
}

#[test]
fn counting_filter_counts_every_insert() {
    let mut cbf: CountingBloomFilter<&str, One<MurmurHasher>> =
        CountingBloomFilter::new(10, One::default());
    assert_eq!(cbf.count(), 0);
    cbf.insert(&"a");
    cbf.insert(&"b");
    cbf.insert(&"a");
    assert_eq!(cbf.count(), 3);
    assert!(cbf.contains(&"a"));
    assert!(cbf.contains(&"b"));
    assert_eq!(cbf.num_bits(), 10);
    assert_eq!(cbf.k(), 1);
}

#[test]
fn counting_filter_optimal_with_bits() {
    let cbf: CountingBloomFilter<&str, ReHasher<MurmurHasher>> =
        CountingBloomFilter::optimal_with_bits(1000, 9586).ok().unwrap();
    assert_eq!(cbf.num_bits(), 9586);
    assert_eq!(cbf.k(), 7);
    assert_eq!(cbf.count(), 0);
    let r: Result<CountingBloomFilter<&str, ReHasher<MurmurHasher>>, ParamError> =
        CountingBloomFilter::optimal_with_bits(0, 9586);
    assert_eq!(r.err(), Some(ParamError::NoElements));
    let r: Result<CountingBloomFilter<&str, One<MurmurHasher>>, ParamError> =
        CountingBloomFilter::try_new(0, One::default());
    assert_eq!(r.err(), Some(ParamError::NoBits));
}

#[test]
fn w_lock_filter_matches_sequential_filter() {
    let words: Vec<String> = (0..200).map(|i| format!("value-{}", i)).collect();
    let mut seq: BloomFilter<&str, One<MurmurHasher>> = BloomFilter::new(300, One::default());
    let shared: WLockBloomFilter<&str, One<MurmurHasher>> = WLockBloomFilter::new(300, One::default());
    let refs: Vec<&str> = words.iter().map(|s| s.as_str()).collect();
    for w in refs.iter() {
        seq.insert(w);
    }
    let evens: Vec<&str> = refs.iter().step_by(2).cloned().collect();
    let odds: Vec<&str> = refs.iter().skip(1).step_by(2).cloned().collect();
    crossbeam::scope(|scope| {
        let a = &shared;
        let b = &shared;
        let evens = &evens;
        let odds = &odds;
        scope.spawn(move |_| {
            for w in evens.iter() {
                a.insert(w);
            }
        });
        scope.spawn(move |_| {
            for w in odds.iter() {
                b.insert(w);
            }
        });
    })
    .unwrap();
    for w in refs.iter() {
        assert!(shared.contains(w));
    }
    for i in 0..1000 {
        let probe = format!("probe-{}", i);
        let p = probe.as_str();
        assert_eq!(seq.contains(&p), shared.contains(&p));
    }
}

#[test]
fn w_lock_filter_basics() {
    let bf: WLockBloomFilter<&str, ReHasher<MurmurHasher>> = WLockBloomFilter::new(100000, ReHasher::new(3));
    assert_eq!(bf.num_bits(), 100000);
    assert_eq!(bf.k(), 3);
    assert!(!bf.contains(&"hello"));
    bf.insert(&"hello");
    bf.insert(&"there");
    assert!(bf.contains(&"hello"));
    assert!(bf.contains(&"there"));
    assert!(!bf.contains(&"not here"));
    let r: Result<WLockBloomFilter<&str, One<MurmurHasher>>, ParamError> =
        WLockBloomFilter::try_new(0, One::default());
    assert_eq!(r.err(), Some(ParamError::NoBits));
}

#[test]
fn w_lock_filter_optimal_with_bits() {
    let bf: WLockBloomFilter<&str, ReHasher<MurmurHasher>> =
        WLockBloomFilter::optimal_with_bits(1000, 9586).ok().unwrap();
    assert_eq!(bf.num_bits(), 9586);
    assert_eq!(bf.k(), 7);
    let r: Result<WLockBloomFilter<&str, ReHasher<MurmurHasher>>, ParamError> =
        WLockBloomFilter::optimal_with_bits(1000, 0);
    assert_eq!(r.err(), Some(ParamError::NoBits));
}

#[test]
fn counting_w_lock_filter_counts_concurrent_inserts() {
    let cbf: CountingWLockBloomFilter<&str, ReHasher<MurmurHasher>> =
        CountingWLockBloomFilter::optimal_with_bits(1000, 9586).ok().unwrap();
    assert_eq!(cbf.num_bits(), 9586);
    assert_eq!(cbf.k(), 7);
    crossbeam::scope(|scope| {
        for _ in 0..4 {
            let f = &cbf;
            scope.spawn(move |_| {
                for _ in 0..25 {
                    f.insert(&"same");
                }
            });
        }
    })
    .unwrap();
    assert_eq!(cbf.count(), 100);
    assert!(cbf.contains(&"same"));
    let r: Result<CountingWLockBloomFilter<&str, One<MurmurHasher>>, ParamError> =
        CountingWLockBloomFilter::try_new(0, One::default());
    assert_eq!(r.err(), Some(ParamError::NoBits));
}

#[test]
fn integer_values_have_no_false_negatives() {
    let mut bf: BloomFilter<i32, ReHasher<MurmurHasher>> =
        BloomFilter::optimal_with_bits(1000, 14378).ok().unwrap();
    for n in 0..1000 {
        bf.insert(&n);
    }
    for n in 0..1000 {
        assert!(bf.contains(&n));
    }
}

#[test]
fn all_masks_set_decides_on_words_read() {
    assert!(all_masks_set(&vec![3, 4], &vec![1, 4]));
    assert!(!all_masks_set(&vec![3, 4], &vec![1, 8]));
    assert!(all_masks_set(&vec![], &vec![]));
}

#[test]
fn new_filters_report_values_absent() {
    let bf: BloomFilter<&str, Two<MurmurHasher, FNV1aHasher32>> = BloomFilter::new(3, Two::default());
    let wl: WLockBloomFilter<&str, Two<MurmurHasher, FNV1aHasher32>> =
        WLockBloomFilter::new(3, Two::default());
    for p in ["a", "b", "c", "hello", ""].iter() {
        assert!(!bf.contains(p));
        assert!(!wl.contains(p));
    }
}
