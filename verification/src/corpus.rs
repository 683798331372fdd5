//! The corpora: owned collections of testcases with a scheduling policy.
//!
//! [`RandomCorpus`] stores testcases in a flat, order-preserving sequence
//! and selects uniformly at random on every call — the memoryless baseline
//! policy. [`QueueCorpus`] wraps a `RandomCorpus` and adds a cursor and a
//! completed-cycle counter, yielding round-robin scheduling with bounded
//! revisit latency for every entry.
//!
//! Identity: a corpus stamps each testcase with a fresh positive handle when
//! it takes ownership, and removal locates an entry by that handle, never by
//! value equality of its fields.

use vstd::prelude::*;

use crate::errors::Error;
use crate::rand::Rand;
use crate::testcase::Testcase;
use crate::testcase::same_testcase_payload;

verus! {

/// Whether some entry of `s` carries the handle `h`.
pub open spec fn contains_handle(s: Seq<Testcase>, h: u64) -> bool {
    exists|i: int| 0 <= i < s.len() && (#[trigger] s[i]).spec_handle() == h
}

/// The reference scheduler and storage substrate: an unordered growable
/// collection with uniform-random selection driven by the injected
/// randomness capability.
pub struct RandomCorpus<R: Rand> {
    rand: R,
    entries: Vec<Testcase>,
    dir_path: String,
    next_handle: u64,
    adds: Ghost<nat>,
    removes: Ghost<nat>,
}

impl<R: Rand> RandomCorpus<R> {
    /// The owned testcases, in insertion order.
    pub closed spec fn spec_entries(&self) -> Seq<Testcase> {
        self.entries@
    }

    /// The root directory intended for on-disk testcase files.
    pub closed spec fn spec_dir_path(&self) -> Seq<char> {
        self.dir_path@
    }

    /// The handle the next added testcase will receive.
    pub closed spec fn spec_next_handle(&self) -> u64 {
        self.next_handle
    }

    /// How many `add` calls succeeded over the corpus's lifetime.
    pub closed spec fn spec_adds(&self) -> nat {
        self.adds@
    }

    /// How many `remove` calls succeeded over the corpus's lifetime.
    pub closed spec fn spec_removes(&self) -> nat {
        self.removes@
    }

    /// The state of the injected randomness capability.
    pub closed spec fn spec_rand(&self) -> R {
        self.rand
    }

    /// Well-formedness: every owned entry carries a unique positive handle
    /// below the next free one, and the entry count balances the successful
    /// adds against the successful removes.
    pub open spec fn wf(&self) -> bool {
        &&& 1 <= self.spec_next_handle()
        &&& forall|i: int|
            0 <= i < self.spec_entries().len() ==> 1 <= (
            #[trigger] self.spec_entries()[i]).spec_handle() < self.spec_next_handle()
        &&& forall|i: int, j: int|
            0 <= i < j < self.spec_entries().len() ==> (#[trigger] self.spec_entries()[i]).spec_handle()
                != (#[trigger] self.spec_entries()[j]).spec_handle()
        &&& self.spec_adds() >= self.spec_removes()
        &&& self.spec_entries().len() == self.spec_adds() - self.spec_removes()
    }

    /// Creates an empty corpus over the given randomness capability, rooted
    /// at `dir_path`.
    pub fn new(rand: R, dir_path: &str) -> (c: Self)
        ensures
            c.wf(),
            c.spec_entries().len() == 0,
            c.spec_dir_path() == dir_path@,
            c.spec_next_handle() == 1,
            c.spec_adds() == 0,
            c.spec_removes() == 0,
            c.spec_rand() == rand,
    {
        RandomCorpus {
            rand,
            entries: Vec::new(),
            dir_path: dir_path.to_owned(),
            next_handle: 1,
            adds: Ghost(0),
            removes: Ghost(0),
        }
    }

    /// The number of owned testcases.
    pub fn count(&self) -> (n: usize)
        ensures
            n == self.spec_entries().len(),
    {
        self.entries.len()
    }

    /// The directory root this corpus was created with.
    pub fn dir_path(&self) -> (r: &str)
        ensures
            r@ == self.spec_dir_path(),
    {
        self.dir_path.as_str()
    }

    /// Takes exclusive ownership of `entry`, stamps it with a fresh handle
    /// and appends it; no deduplication, no filename validation.
    pub fn add(&mut self, entry: Testcase)
        requires
            old(self).wf(),
            old(self).spec_next_handle() < u64::MAX,
        ensures
            final(self).wf(),
            final(self).spec_entries().len() == old(self).spec_entries().len() + 1,
            (forall|i: int|
                0 <= i < old(self).spec_entries().len() ==> final(self).spec_entries()[i] == old(self).spec_entries()[i]),
            same_testcase_payload(final(self).spec_entries().last(), entry),
            final(self).spec_entries().last().spec_handle() == old(self).spec_next_handle(),
            final(self).spec_next_handle() == old(self).spec_next_handle() + 1,
            final(self).spec_adds() == old(self).spec_adds() + 1,
            final(self).spec_removes() == old(self).spec_removes(),
            final(self).spec_dir_path() == old(self).spec_dir_path(),
            final(self).spec_rand() == old(self).spec_rand(),
    {
        let mut e = entry;
        e.set_handle(self.next_handle);
        self.next_handle = self.next_handle + 1;
        self.entries.push(e);
        proof {
            self.adds@ = self.adds@ + 1;
        }
    }

    /// Locates the entry carrying `entry`'s handle; if found, detaches and
    /// returns it, decreasing the count by one; otherwise returns `None` and
    /// leaves the corpus unchanged. The matched entry itself is the one
    /// detached. Cost: linear scan.
    pub fn remove(&mut self, entry: &Testcase) -> (removed: Option<Testcase>)
        requires
            old(self).wf(),
        ensures
            final(self).wf(),
            (match removed {
                None => !contains_handle(old(self).spec_entries(), entry.spec_handle()) && *final(self) == *old(self),
                Some(tc) => {
                    &&& tc.spec_handle() == entry.spec_handle()
                    &&& final(self).spec_entries().len() == old(self).spec_entries().len() - 1
                    &&& exists|k: int|
                        0 <= k < old(self).spec_entries().len() && (#[trigger] old(self).spec_entries()[k]) == tc && final(self).spec_entries() == old(self).spec_entries().remove(k)
                    &&& final(self).spec_removes() == old(self).spec_removes() + 1
                    &&& final(self).spec_adds() == old(self).spec_adds()
                    &&& final(self).spec_next_handle() == old(self).spec_next_handle()
                    &&& final(self).spec_dir_path() == old(self).spec_dir_path()
                    &&& final(self).spec_rand() == old(self).spec_rand()
                },
            }),
            removed is Some <==> contains_handle(old(self).spec_entries(), entry.spec_handle()),
    {
        let target = entry.handle();
        let n = self.entries.len();
        let mut i: usize = 0;
        while i < n
            invariant
                old(self).wf(),
                *self == *old(self),
                n == self.entries@.len(),
                target == entry.spec_handle(),
                0 <= i <= n,
                forall|j: int| 0 <= j < i ==> (#[trigger] self.entries@[j]).spec_handle() != target,
            decreases n - i,
        {
            if self.entries[i].handle() == target {
                let tc = self.entries.remove(i);
                proof {
                    self.removes@ = self.removes@ + 1;
                    assert(old(self).spec_entries()[i as int] == tc);
                    assert(self.spec_entries() == old(self).spec_entries().remove(i as int));
                    old(self).spec_entries().remove_ensures(i as int);
                    assert forall|a: int|
                        0 <= a < self.spec_entries().len() implies 1 <= (#[trigger] self.spec_entries()[a]).spec_handle() < self.spec_next_handle() by {
                        if a < i as int {
                            assert(self.spec_entries()[a] == old(self).spec_entries()[a]);
                        } else {
                            assert(self.spec_entries()[a] == old(self).spec_entries()[a + 1]);
                        }
                    }
                    assert forall|a: int, b: int|
                        0 <= a < b < self.spec_entries().len() implies (#[trigger] self.spec_entries()[a]).spec_handle() != (#[trigger] self.spec_entries()[b]).spec_handle() by {
                        let a0 = if a < i as int { a } else { a + 1 };
                        let b0 = if b < i as int { b } else { b + 1 };
                        assert(self.spec_entries()[a] == old(self).spec_entries()[a0]);
                        assert(self.spec_entries()[b] == old(self).spec_entries()[b0]);
                    }
                }
                return Some(tc);
            }
            i = i + 1;
        }
        None
    }

    /// Selects uniformly at random among the current entries using the
    /// injected randomness capability; fails with `EmptyCorpus` when the
    /// corpus owns no entries. The returned reference is to an entry the
    /// corpus currently owns.
    pub fn random_entry(&mut self) -> (r: Result<&Testcase, Error>)
        requires
            old(self).wf(),
        ensures
            final(self).wf(),
            final(self).spec_entries() == old(self).spec_entries(),
            final(self).spec_next_handle() == old(self).spec_next_handle(),
            final(self).spec_adds() == old(self).spec_adds(),
            final(self).spec_removes() == old(self).spec_removes(),
            final(self).spec_dir_path() == old(self).spec_dir_path(),
            old(self).spec_entries().len() == 0 ==> *final(self) == *old(self) && (r == Err::<
                &Testcase,
                Error,
            >(Error::EmptyCorpus)),
            old(self).spec_entries().len() > 0 ==> (match r {
                Ok(tc) => exists|k: int|
                    0 <= k < old(self).spec_entries().len() && *tc == (#[trigger] old(self).spec_entries()[k]),
                Err(_) => false,
            }),
    {
        if self.entries.len() == 0 {
            return Err(Error::EmptyCorpus);
        }
        let bound = self.entries.len() as u64;
        let drawn = self.rand.below(bound);
        assert(drawn < bound);
        let idx = drawn as usize;
        assert(idx < self.entries.len());
        Ok(&self.entries[idx])
    }

    /// The next entry to try under the memoryless policy: an alias for
    /// `random_entry`, an independent uniform draw with replacement.
    pub fn get(&mut self) -> (r: Result<&Testcase, Error>)
        requires
            old(self).wf(),
        ensures
            final(self).wf(),
            final(self).spec_entries() == old(self).spec_entries(),
            final(self).spec_next_handle() == old(self).spec_next_handle(),
            final(self).spec_adds() == old(self).spec_adds(),
            final(self).spec_removes() == old(self).spec_removes(),
            final(self).spec_dir_path() == old(self).spec_dir_path(),
            old(self).spec_entries().len() == 0 ==> *final(self) == *old(self) && (r == Err::<
                &Testcase,
                Error,
            >(Error::EmptyCorpus)),
            old(self).spec_entries().len() > 0 ==> (match r {
                Ok(tc) => exists|k: int|
                    0 <= k < old(self).spec_entries().len() && *tc == (#[trigger] old(self).spec_entries()[k]),
                Err(_) => false,
            }),
    {
        self.random_entry()
    }
}

/// A cyclic ("queue") scheduler built on top of [`RandomCorpus`]: a cursor
/// and a completed-cycle counter yield round-robin selection, the classic
/// coverage-guided-fuzzing strategy that guarantees every corpus entry is
/// eventually retried.
pub struct QueueCorpus<R: Rand> {
    random_corpus: RandomCorpus<R>,
    pos: usize,
    cycles: u64,
}

impl<R: Rand> QueueCorpus<R> {
    /// The underlying storage substrate, as a value.
    pub closed spec fn spec_storage(&self) -> RandomCorpus<R> {
        self.random_corpus
    }

    /// The owned testcases, in insertion order.
    pub closed spec fn spec_entries(&self) -> Seq<Testcase> {
        self.random_corpus.spec_entries()
    }

    /// The root directory intended for on-disk testcase files.
    pub closed spec fn spec_dir_path(&self) -> Seq<char> {
        self.random_corpus.spec_dir_path()
    }

    /// The handle the next added testcase will receive.
    pub closed spec fn spec_next_handle(&self) -> u64 {
        self.random_corpus.spec_next_handle()
    }

    /// How many `add` calls succeeded over the corpus's lifetime.
    pub closed spec fn spec_adds(&self) -> nat {
        self.random_corpus.spec_adds()
    }

    /// How many `remove` calls succeeded over the corpus's lifetime.
    pub closed spec fn spec_removes(&self) -> nat {
        self.random_corpus.spec_removes()
    }

    /// The state of the injected randomness capability.
    pub closed spec fn spec_rand(&self) -> R {
        self.random_corpus.spec_rand()
    }

    /// The cursor into the collection.
    pub closed spec fn spec_pos(&self) -> usize {
        self.pos
    }

    /// The number of completed full passes over the collection.
    pub closed spec fn spec_cycles(&self) -> u64 {
        self.cycles
    }

    /// Well-formedness: the underlying storage is well-formed and the
    /// cursor stays inside the collection — at its resting value `0` while
    /// the corpus is empty, strictly below the count otherwise.
    pub open spec fn wf(&self) -> bool {
        &&& self.spec_storage().wf()
        &&& self.spec_entries().len() == 0 ==> self.spec_pos() == 0
        &&& self.spec_entries().len() > 0 ==> self.spec_pos() < self.spec_entries().len()
    }

    /// Creates an empty queue corpus over the given randomness capability,
    /// rooted at `dir_path`, with the cursor at rest and no completed
    /// cycles.
    pub fn new(rand: R, dir_path: &str) -> (c: Self)
        ensures
            c.wf(),
            c.spec_entries().len() == 0,
            c.spec_dir_path() == dir_path@,
            c.spec_next_handle() == 1,
            c.spec_adds() == 0,
            c.spec_removes() == 0,
            c.spec_rand() == rand,
            c.spec_pos() == 0,
            c.spec_cycles() == 0,
    {
        QueueCorpus { random_corpus: RandomCorpus::new(rand, dir_path), pos: 0, cycles: 0 }
    }

    /// The number of owned testcases.
    pub fn count(&self) -> (n: usize)
        ensures
            n == self.spec_entries().len(),
    {
        self.random_corpus.count()
    }

    /// The directory root this corpus was created with.
    pub fn dir_path(&self) -> (r: &str)
        ensures
            r@ == self.spec_dir_path(),
    {
        self.random_corpus.dir_path()
    }

    /// The number of completed full passes over the collection; it never
    /// decreases across `get` calls.
    pub fn get_cycles(&self) -> (c: u64)
        ensures
            c == self.spec_cycles(),
    {
        self.cycles
    }

    /// The cursor's current value.
    pub fn get_pos(&self) -> (p: usize)
        ensures
            p == self.spec_pos(),
    {
        self.pos
    }

    /// Delegates to the underlying storage; the cursor and cycle counter
    /// are untouched.
    pub fn add(&mut self, entry: Testcase)
        requires
            old(self).wf(),
            old(self).spec_next_handle() < u64::MAX,
        ensures
            final(self).wf(),
            final(self).spec_entries().len() == old(self).spec_entries().len() + 1,
            (forall|i: int|
                0 <= i < old(self).spec_entries().len() ==> final(self).spec_entries()[i] == old(self).spec_entries()[i]),
            same_testcase_payload(final(self).spec_entries().last(), entry),
            final(self).spec_entries().last().spec_handle() == old(self).spec_next_handle(),
            final(self).spec_next_handle() == old(self).spec_next_handle() + 1,
            final(self).spec_adds() == old(self).spec_adds() + 1,
            final(self).spec_removes() == old(self).spec_removes(),
            final(self).spec_dir_path() == old(self).spec_dir_path(),
            final(self).spec_rand() == old(self).spec_rand(),
            final(self).spec_pos() == old(self).spec_pos(),
            final(self).spec_cycles() == old(self).spec_cycles(),
    {
        self.random_corpus.add(entry);
    }

    /// Delegates removal to the underlying storage. Removal does not touch
    /// the cycle counter; the cursor is reconciled against the shrunk
    /// collection by clamping it to the last index (or to `0` when the
    /// corpus empties), so the cursor invariant survives removal during an
    /// active traversal.
    pub fn remove(&mut self, entry: &Testcase) -> (removed: Option<Testcase>)
        requires
            old(self).wf(),
        ensures
            final(self).wf(),
            (match removed {
                None => {
                    &&& !contains_handle(old(self).spec_entries(), entry.spec_handle())
                    &&& final(self).spec_entries() == old(self).spec_entries()
                    &&& final(self).spec_removes() == old(self).spec_removes()
                    &&& final(self).spec_rand() == old(self).spec_rand()
                },
                Some(tc) => {
                    &&& tc.spec_handle() == entry.spec_handle()
                    &&& final(self).spec_entries().len() == old(self).spec_entries().len() - 1
                    &&& exists|k: int|
                        0 <= k < old(self).spec_entries().len() && (#[trigger] old(self).spec_entries()[k]) == tc && final(self).spec_entries() == old(self).spec_entries().remove(k)
                    &&& final(self).spec_removes() == old(self).spec_removes() + 1
                    &&& final(self).spec_rand() == old(self).spec_rand()
                },
            }),
            removed is Some <==> contains_handle(old(self).spec_entries(), entry.spec_handle()),
            final(self).spec_adds() == old(self).spec_adds(),
            final(self).spec_next_handle() == old(self).spec_next_handle(),
            final(self).spec_dir_path() == old(self).spec_dir_path(),
            final(self).spec_cycles() == old(self).spec_cycles(),
            final(self).spec_pos() == (if final(self).spec_entries().len() == 0 {
                0int
            } else if old(self).spec_pos() < final(self).spec_entries().len() {
                old(self).spec_pos() as int
            } else {
                final(self).spec_entries().len() - 1
            }),
    {
        let removed = self.random_corpus.remove(entry);
        let n = self.random_corpus.count();
        if n == 0 {
            self.pos = 0;
        } else if self.pos >= n {
            self.pos = n - 1;
        }
        removed
    }

    /// Selects uniformly at random among the current entries; the cursor
    /// and cycle counter are untouched. Fails with `EmptyCorpus` when the
    /// corpus owns no entries.
    pub fn random_entry(&mut self) -> (r: Result<&Testcase, Error>)
        requires
            old(self).wf(),
        ensures
            final(self).wf(),
            final(self).spec_entries() == old(self).spec_entries(),
            final(self).spec_next_handle() == old(self).spec_next_handle(),
            final(self).spec_adds() == old(self).spec_adds(),
            final(self).spec_removes() == old(self).spec_removes(),
            final(self).spec_dir_path() == old(self).spec_dir_path(),
            final(self).spec_pos() == old(self).spec_pos(),
            final(self).spec_cycles() == old(self).spec_cycles(),
            old(self).spec_entries().len() == 0 ==> *final(self) == *old(self) && (r == Err::<
                &Testcase,
                Error,
            >(Error::EmptyCorpus)),
            old(self).spec_entries().len() > 0 ==> (match r {
                Ok(tc) => exists|k: int|
                    0 <= k < old(self).spec_entries().len() && *tc == (#[trigger] old(self).spec_entries()[k]),
                Err(_) => false,
            }),
    {
        self.random_corpus.random_entry()
    }

    /// The next entry under cyclic scheduling. On a non-empty corpus the
    /// cursor advances by one before the read, wrapping to `0` — and
    /// crediting one completed cycle — whenever it would leave the
    /// collection; the entry at the new cursor is returned. With exactly
    /// one entry every call wraps, so every call credits a cycle. On an
    /// empty corpus the call fails with `EmptyCorpus` and changes nothing.
    pub fn get(&mut self) -> (r: Result<&Testcase, Error>)
        requires
            old(self).wf(),
            old(self).spec_cycles() < u64::MAX,
        ensures
            final(self).wf(),
            queue_step(*old(self), *final(self)),
            old(self).spec_entries().len() == 0 ==> (r == Err::<&Testcase, Error>(
                Error::EmptyCorpus,
            )),
            old(self).spec_entries().len() > 0 ==> (match r {
                Ok(tc) => *tc == old(self).spec_entries()[final(self).spec_pos() as int],
                Err(_) => false,
            }),
    {
        let n = self.random_corpus.count();
        if n == 0 {
            return Err(Error::EmptyCorpus);
        }
        self.pos = self.pos + 1;
        if self.pos >= n {
            self.cycles = self.cycles + 1;
            self.pos = 0;
        }
        let idx = self.pos;
        Ok(&self.random_corpus.entries[idx])
    }
}

/// The capability interface every concrete corpus satisfies: count, add,
/// remove-by-identity, pick-random, pick-next. Only what all scheduling
/// policies share is stated here; the policy-specific behaviour of `get` is
/// stated on each implementing type, whose inherent methods these delegate
/// to.
pub trait Corpus: Sized {
    /// The owned testcases, in insertion order.
    spec fn corpus_entries(&self) -> Seq<Testcase>;

    /// Validity of the corpus's internal state.
    spec fn corpus_wf(&self) -> bool;

    /// Whether a fresh identity handle is still available for one more
    /// entry.
    spec fn corpus_can_add(&self) -> bool;

    /// Whether one more selection step is possible (scheduling counters
    /// have room).
    spec fn corpus_can_get(&self) -> bool;

    /// The number of owned testcases.
    fn count(&self) -> (n: usize)
        requires
            self.corpus_wf(),
        ensures
            n == self.corpus_entries().len(),
    ;

    /// Takes exclusive ownership of `entry` and appends it, stamped with a
    /// handle no current entry carries.
    fn add(&mut self, entry: Testcase)
        requires
            old(self).corpus_wf(),
            old(self).corpus_can_add(),
        ensures
            final(self).corpus_wf(),
            final(self).corpus_entries().len() == old(self).corpus_entries().len() + 1,
            (forall|i: int|
                0 <= i < old(self).corpus_entries().len() ==> final(self).corpus_entries()[i] == old(self).corpus_entries()[i]),
            same_testcase_payload(final(self).corpus_entries().last(), entry),
            !contains_handle(
                old(self).corpus_entries(),
                final(self).corpus_entries().last().spec_handle(),
            ),
    ;

    /// Removes the entry carrying `entry`'s handle, if one is owned,
    /// returning it; otherwise the collection is unchanged.
    fn remove(&mut self, entry: &Testcase) -> (removed: Option<Testcase>)
        requires
            old(self).corpus_wf(),
        ensures
            final(self).corpus_wf(),
            removed is None ==> final(self).corpus_entries() == old(self).corpus_entries(),
            (removed matches Some(tc) ==> {
                &&& tc.spec_handle() == entry.spec_handle()
                &&& final(self).corpus_entries().len() == old(self).corpus_entries().len() - 1
                &&& exists|k: int|
                    0 <= k < old(self).corpus_entries().len() && (#[trigger] old(self).corpus_entries()[k]) == tc && final(self).corpus_entries() == old(self).corpus_entries().remove(k)
            }),
            removed is Some <==> contains_handle(old(self).corpus_entries(), entry.spec_handle()),
    ;

    /// Selects uniformly at random among the current entries; fails with
    /// `EmptyCorpus` on an empty corpus.
    fn random_entry(&mut self) -> (r: Result<&Testcase, Error>)
        requires
            old(self).corpus_wf(),
        ensures
            final(self).corpus_wf(),
            final(self).corpus_entries() == old(self).corpus_entries(),
            old(self).corpus_entries().len() == 0 ==> (r == Err::<&Testcase, Error>(
                Error::EmptyCorpus,
            )),
            old(self).corpus_entries().len() > 0 ==> (match r {
                Ok(tc) => exists|k: int|
                    0 <= k < old(self).corpus_entries().len() && *tc == (#[trigger] old(self).corpus_entries()[k]),
                Err(_) => false,
            }),
    ;

    /// The policy-specific "next thing to try"; it shares `random_entry`'s
    /// empty-collection failure contract and always hands back a currently
    /// owned entry.
    fn get(&mut self) -> (r: Result<&Testcase, Error>)
        requires
            old(self).corpus_wf(),
            old(self).corpus_can_get(),
        ensures
            final(self).corpus_wf(),
            final(self).corpus_entries() == old(self).corpus_entries(),
            old(self).corpus_entries().len() == 0 ==> (r == Err::<&Testcase, Error>(
                Error::EmptyCorpus,
            )),
            old(self).corpus_entries().len() > 0 ==> (match r {
                Ok(tc) => exists|k: int|
                    0 <= k < old(self).corpus_entries().len() && *tc == (#[trigger] old(self).corpus_entries()[k]),
                Err(_) => false,
            }),
    ;
}

impl<R: Rand> Corpus for RandomCorpus<R> {
    #[verifier::inline]
    open spec fn corpus_entries(&self) -> Seq<Testcase> {
        self.spec_entries()
    }

    open spec fn corpus_wf(&self) -> bool {
        self.wf()
    }

    open spec fn corpus_can_add(&self) -> bool {
        self.spec_next_handle() < u64::MAX
    }

    open spec fn corpus_can_get(&self) -> bool {
        true
    }

    fn count(&self) -> (n: usize) {
        RandomCorpus::count(self)
    }

    fn add(&mut self, entry: Testcase) {
        RandomCorpus::add(self, entry);
    }

    fn remove(&mut self, entry: &Testcase) -> (removed: Option<Testcase>) {
        let removed = RandomCorpus::remove(self, entry);
        proof {
            match &removed {
                Some(tc) => {
                    let k = choose|k: int|
                        0 <= k < old(self).spec_entries().len() && (#[trigger] old(
                            self,
                        ).spec_entries()[k]) == *tc && self.spec_entries() == old(
                            self,
                        ).spec_entries().remove(k);
                    assert(old(self).spec_entries()[k] == *tc);
                    assert(self.spec_entries() == old(self).spec_entries().remove(k));
                    assert(exists|j: int|
                        0 <= j < old(self).corpus_entries().len() && (#[trigger] old(
                            self,
                        ).corpus_entries()[j]) == *tc && self.corpus_entries() == old(
                            self,
                        ).corpus_entries().remove(j));
                },
                None => {},
            }
        }
        removed
    }

    fn random_entry(&mut self) -> (r: Result<&Testcase, Error>) {
        RandomCorpus::random_entry(self)
    }

    fn get(&mut self) -> (r: Result<&Testcase, Error>) {
        RandomCorpus::get(self)
    }
}

impl<R: Rand> Corpus for QueueCorpus<R> {
    #[verifier::inline]
    open spec fn corpus_entries(&self) -> Seq<Testcase> {
        self.spec_entries()
    }

    open spec fn corpus_wf(&self) -> bool {
        self.wf()
    }

    open spec fn corpus_can_add(&self) -> bool {
        self.spec_next_handle() < u64::MAX
    }

    open spec fn corpus_can_get(&self) -> bool {
        self.spec_cycles() < u64::MAX
    }

    fn count(&self) -> (n: usize) {
        QueueCorpus::count(self)
    }

    fn add(&mut self, entry: Testcase) {
        QueueCorpus::add(self, entry);
    }

    fn remove(&mut self, entry: &Testcase) -> (removed: Option<Testcase>) {
        let removed = QueueCorpus::remove(self, entry);
        proof {
            match &removed {
                Some(tc) => {
                    let k = choose|k: int|
                        0 <= k < old(self).spec_entries().len() && (#[trigger] old(
                            self,
                        ).spec_entries()[k]) == *tc && self.spec_entries() == old(
                            self,
                        ).spec_entries().remove(k);
                    assert(old(self).spec_entries()[k] == *tc);
                },
                None => {},
            }
        }
        removed
    }

    fn random_entry(&mut self) -> (r: Result<&Testcase, Error>) {
        QueueCorpus::random_entry(self)
    }

    fn get(&mut self) -> (r: Result<&Testcase, Error>) {
        QueueCorpus::get(self)
    }
}

/// How one `get` call moves a queue corpus: the storage is untouched; on a
/// non-empty corpus the cursor advances by one, wrapping to `0` and
/// crediting exactly one completed cycle when it would reach the count.
pub open spec fn queue_step<R: Rand>(pre: QueueCorpus<R>, post: QueueCorpus<R>) -> bool {
    &&& post.spec_entries() == pre.spec_entries()
    &&& post.spec_next_handle() == pre.spec_next_handle()
    &&& post.spec_adds() == pre.spec_adds()
    &&& post.spec_removes() == pre.spec_removes()
    &&& post.spec_dir_path() == pre.spec_dir_path()
    &&& post.spec_rand() == pre.spec_rand()
    &&& if pre.spec_entries().len() == 0 {
        post == pre
    } else if pre.spec_pos() + 1 >= pre.spec_entries().len() {
        post.spec_pos() == 0 && post.spec_cycles() == pre.spec_cycles() + 1
    } else {
        post.spec_pos() == pre.spec_pos() + 1 && post.spec_cycles() == pre.spec_cycles()
    }
}

/// The count of a well-formed corpus equals the number of successful adds
/// minus the number of successful removes over its whole lifetime.
pub proof fn lemma_count_balances_adds_and_removes<R: Rand>(c: &RandomCorpus<R>)
    requires
        c.wf(),
    ensures
        c.spec_entries().len() == c.spec_adds() - c.spec_removes(),
{
}

/// The same balance holds of a queue corpus, whose storage is a
/// `RandomCorpus`.
pub proof fn lemma_queue_count_balances_adds_and_removes<R: Rand>(c: &QueueCorpus<R>)
    requires
        c.wf(),
    ensures
        c.spec_entries().len() == c.spec_adds() - c.spec_removes(),
{
}

/// One `get` call never decreases the cycle counter, and increases it by
/// exactly one precisely when the cursor wraps.
pub proof fn lemma_cycles_step_monotone<R: Rand>(pre: QueueCorpus<R>, post: QueueCorpus<R>)
    requires
        queue_step(pre, post),
    ensures
        pre.spec_cycles() <= post.spec_cycles(),
        post.spec_cycles() == pre.spec_cycles() + (if pre.spec_entries().len() > 0 && pre.spec_pos()
            + 1 >= pre.spec_entries().len() {
            1int
        } else {
            0int
        }),
{
}

/// Across any run of `get` calls — any chain of states each reached from
/// the last by one `get` — the cycle counter is non-decreasing.
pub proof fn lemma_cycles_nondecreasing<R: Rand>(states: Seq<QueueCorpus<R>>, i: int, j: int)
    requires
        forall|k: int| 0 <= k < states.len() - 1 ==> queue_step(#[trigger] states[k], states[k + 1]),
        0 <= i <= j < states.len(),
    ensures
        states[i].spec_cycles() <= states[j].spec_cycles(),
    decreases j - i,
{
    if i < j {
        lemma_cycles_nondecreasing(states, i, j - 1);
        assert(queue_step(states[j - 1], states[j]));
    }
}

} // verus!
