use load_tester::LoadTester;

fn run_of(count: u64) -> Vec<u64> {
    (1..=count).collect()
}

#[test]
fn it_works() {
    let mut lt = LoadTester::new();
    lt.bloat(4);
    assert_eq!(lt.get(), [1, 2, 3, 4]);
    lt.bloat(3);
    assert_eq!(lt.get(), [1, 2, 3, 4, 1, 2, 3]);
}

#[test]
fn new_store_is_empty() {
    let lt = LoadTester::new();
    assert_eq!(lt.get(), Vec::<u64>::new());
}

#[test]
fn bloat_four_then_three_then_zero() {
    let mut lt = LoadTester::new();
    lt.bloat(4);
    assert_eq!(lt.get(), [1, 2, 3, 4]);
    lt.bloat(3);
    assert_eq!(lt.get(), [1, 2, 3, 4, 1, 2, 3]);
    lt.bloat(0);
    assert_eq!(lt.get(), [1, 2, 3, 4, 1, 2, 3]);
}

#[test]
fn bloat_one() {
    let mut lt = LoadTester::new();
    lt.bloat(1);
    assert_eq!(lt.get(), [1]);
}

#[test]
fn bloat_zero_on_empty_store() {
    let mut lt = LoadTester::new();
    lt.bloat(0);
    assert!(lt.get().is_empty());
}

#[test]
fn each_call_restarts_at_one() {
    let counts: [u64; 5] = [2, 0, 5, 1, 3];
    let mut lt = LoadTester::new();
    let mut expected: Vec<u64> = Vec::new();
    for c in counts {
        lt.bloat(c);
        expected.extend(run_of(c));
        assert_eq!(lt.get(), expected);
    }
    assert_eq!(lt.get(), [1, 2, 1, 2, 3, 4, 5, 1, 1, 2, 3]);
}

#[test]
fn length_is_sum_of_counts_and_never_decreases() {
    let counts: [u64; 4] = [7, 0, 3, 10];
    let mut lt = LoadTester::new();
    let mut sum: usize = 0;
    let mut previous: usize = 0;
    for c in counts {
        lt.bloat(c);
        sum += c as usize;
        let len = lt.get().len();
        assert_eq!(len, sum);
        assert!(len >= previous);
        previous = len;
    }
    assert_eq!(previous, 20);
}

#[test]
fn earlier_contents_are_kept() {
    let mut lt = LoadTester::new();
    lt.bloat(3);
    let before = lt.get();
    lt.bloat(2);
    let after = lt.get();
    assert_eq!(&after[..before.len()], &before[..]);
    assert_eq!(&after[before.len()..], &[1, 2]);
}

#[test]
fn repeated_reads_agree() {
    let mut lt = LoadTester::new();
    lt.bloat(6);
    let first = lt.get();
    let second = lt.get();
    let third = lt.get();
    assert_eq!(first, second);
    assert_eq!(second, third);
    assert_eq!(first, [1, 2, 3, 4, 5, 6]);
}

#[test]
fn large_run_ends_at_count() {
    let mut lt = LoadTester::new();
    lt.bloat(1000);
    let v = lt.get();
    assert_eq!(v.len(), 1000);
    assert_eq!(v[0], 1);
    assert_eq!(v[999], 1000);
    assert_eq!(v, run_of(1000));
}
