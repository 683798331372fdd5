use fuzz_corpus::corpus::QueueCorpus;
use fuzz_corpus::corpus::RandomCorpus;
use fuzz_corpus::errors::Error;
use fuzz_corpus::rand::XorShiftRand;
use fuzz_corpus::testcase::Testcase;

#[test]
fn test_queuecorpus() {
    let rand = XorShiftRand::new();
    let mut q = QueueCorpus::new(rand, "fancy/path");
    q.add(Testcase::new("fancyfile"));
    let filename = q.get().unwrap().get_filename().to_owned();
    assert_eq!(filename, q.get().unwrap().get_filename());
    assert_eq!(filename, "fancyfile");
}

#[test]
fn single_entry_wraps_on_every_call() {
    let rand = XorShiftRand::new();
    let mut q = QueueCorpus::new(rand, "dir");
    q.add(Testcase::new("fancyfile"));
    assert_eq!(q.get().unwrap().get_filename(), "fancyfile");
    assert_eq!(q.get().unwrap().get_filename(), "fancyfile");
    assert_eq!(q.get_cycles(), 2);
}

#[test]
fn first_pass_order_is_cyclic_from_second_entry() {
    let rand = XorShiftRand::new();
    let mut q = QueueCorpus::new(rand, "dir");
    q.add(Testcase::new("a"));
    q.add(Testcase::new("b"));
    q.add(Testcase::new("c"));
    assert_eq!(q.get().unwrap().get_filename(), "b");
    assert_eq!(q.get().unwrap().get_filename(), "c");
    assert_eq!(q.get().unwrap().get_filename(), "a");
    assert_eq!(q.get_cycles(), 1);
}

#[test]
fn count_tracks_adds_and_removes() {
    let rand = XorShiftRand::new();
    let mut c = RandomCorpus::new(rand, "dir");
    assert_eq!(c.count(), 0);
    c.add(Testcase::new("a"));
    c.add(Testcase::new("b"));
    c.add(Testcase::new("c"));
    assert_eq!(c.count(), 3);
    let snapshot = c.get().unwrap().clone();
    let removed = c.remove(&snapshot);
    assert!(removed.is_some());
    assert_eq!(c.count(), 2);
    let missed = c.remove(&Testcase::new("a"));
    assert!(missed.is_none());
    assert_eq!(c.count(), 2);
    c.add(Testcase::new("d"));
    assert_eq!(c.count(), 3);
}

#[test]
fn selection_on_empty_corpus_fails() {
    let rand = XorShiftRand::new();
    let mut c = RandomCorpus::new(rand, "dir");
    assert!(matches!(c.random_entry(), Err(Error::EmptyCorpus)));
    assert!(matches!(c.get(), Err(Error::EmptyCorpus)));
    let rand = XorShiftRand::new();
    let mut q = QueueCorpus::new(rand, "dir");
    assert!(matches!(q.random_entry(), Err(Error::EmptyCorpus)));
    assert!(matches!(q.get(), Err(Error::EmptyCorpus)));
    assert_eq!(q.get_cycles(), 0);
    assert_eq!(q.get_pos(), 0);
}

#[test]
fn remove_of_never_added_entry_is_absent() {
    let rand = XorShiftRand::new();
    let mut q = QueueCorpus::new(rand, "dir");
    q.add(Testcase::new("a"));
    q.add(Testcase::new("a"));
    let stranger = Testcase::new("a");
    assert!(q.remove(&stranger).is_none());
    assert_eq!(q.count(), 2);
}

#[test]
fn remove_of_removed_entry_is_absent() {
    let rand = XorShiftRand::new();
    let mut q = QueueCorpus::new(rand, "dir");
    q.add(Testcase::new("a"));
    q.add(Testcase::new("b"));
    let snapshot = q.get().unwrap().clone();
    assert!(q.remove(&snapshot).is_some());
    assert_eq!(q.count(), 1);
    assert!(q.remove(&snapshot).is_none());
    assert_eq!(q.count(), 1);
}

#[test]
fn remove_returns_the_exact_entry() {
    let rand = XorShiftRand::new();
    let mut q = QueueCorpus::new(rand, "dir");
    q.add(Testcase::new("a"));
    q.add(Testcase::new("b"));
    q.add(Testcase::new("c"));
    let snapshot = q.get().unwrap().clone();
    let removed = q.remove(&snapshot).unwrap();
    assert_eq!(removed.handle(), snapshot.handle());
    assert_eq!(removed.get_filename(), snapshot.get_filename());
    assert_eq!(q.count(), 2);
}

#[test]
fn two_equal_looking_entries_stay_distinct() {
    let rand = XorShiftRand::new();
    let mut q = QueueCorpus::new(rand, "dir");
    q.add(Testcase::new("same"));
    q.add(Testcase::new("same"));
    let first = q.get().unwrap().clone();
    let removed = q.remove(&first).unwrap();
    assert_eq!(removed.handle(), first.handle());
    assert_eq!(q.count(), 1);
    let left = q.get().unwrap();
    assert_eq!(left.get_filename(), "same");
    assert_ne!(left.handle(), first.handle());
}

#[test]
fn random_entry_returns_an_owned_entry() {
    let rand = XorShiftRand::with_seed(7);
    let mut c = RandomCorpus::new(rand, "dir");
    c.add(Testcase::new("a"));
    c.add(Testcase::new("b"));
    c.add(Testcase::new("c"));
    for _ in 0..32 {
        let name = c.random_entry().unwrap().get_filename().to_owned();
        assert!(name == "a" || name == "b" || name == "c");
    }
    assert_eq!(c.count(), 3);
}

#[test]
fn cycles_never_decrease_and_wrap_increments() {
    let rand = XorShiftRand::new();
    let mut q = QueueCorpus::new(rand, "dir");
    q.add(Testcase::new("a"));
    q.add(Testcase::new("b"));
    let mut last_cycles = q.get_cycles();
    for step in 1..=8 {
        q.get().unwrap();
        let cycles = q.get_cycles();
        assert!(cycles >= last_cycles);
        // with two entries every second call wraps
        if step % 2 == 0 {
            assert_eq!(cycles, last_cycles + 1);
        } else {
            assert_eq!(cycles, last_cycles);
        }
        last_cycles = cycles;
    }
}

#[test]
fn cursor_is_reconciled_after_removal() {
    let rand = XorShiftRand::new();
    let mut q = QueueCorpus::new(rand, "dir");
    q.add(Testcase::new("a"));
    q.add(Testcase::new("b"));
    q.add(Testcase::new("c"));
    q.get().unwrap();
    q.get().unwrap();
    assert_eq!(q.get_pos(), 2);
    let snapshot = q.get().unwrap().clone();
    q.remove(&snapshot).unwrap();
    assert!(q.get_pos() < q.count());
    // the queue keeps serving the remaining entries
    for _ in 0..4 {
        let name = q.get().unwrap().get_filename().to_owned();
        assert!(name == "b" || name == "c" || name == "a");
    }
    assert_eq!(q.count(), 2);
}

#[test]
fn dir_path_is_kept() {
    let rand = XorShiftRand::new();
    let c = RandomCorpus::new(rand, "some/dir");
    assert_eq!(c.dir_path(), "some/dir");
    let rand = XorShiftRand::new();
    let q = QueueCorpus::new(rand, "other/dir");
    assert_eq!(q.dir_path(), "other/dir");
}
