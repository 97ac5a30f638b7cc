//! The content cache: the text of documents, kept in the order in which it
//! came in, under one budget of bytes. To make room, the oldest entries leave
//! first.

use std::collections::VecDeque;
use vstd::hash_map::StringHashMap;
use vstd::prelude::*;
use crate::file_system::document_manager::DocumentMetadata;
use crate::text::byte_len;
use crate::text::text_eq;
use crate::text::utf8_len;

verus! {

/// The text of a document and what is known of it.
#[derive(Clone, Debug, PartialEq, Eq)]
pub struct CacheEntry {
    pub content: String,
    pub metadata: DocumentMetadata,
}

/// The bytes that the entry of `path` takes up.
pub open spec fn size_of(entries: Map<Seq<char>, CacheEntry>, path: Seq<char>) -> nat {
    utf8_len(entries[path].content@)
}

/// The bytes that the entries of the paths in `order` take up together.
pub open spec fn total_size(order: Seq<Seq<char>>, entries: Map<Seq<char>, CacheEntry>) -> nat
    decreases order.len(),
{
    if order.len() == 0 {
        0
    } else {
        size_of(entries, order[0]) + total_size(order.drop_first(), entries)
    }
}

/// `order` without `path`.
pub open spec fn without(order: Seq<Seq<char>>, path: Seq<char>) -> Seq<Seq<char>> {
    if order.contains(path) {
        order.remove(order.index_of(path))
    } else {
        order
    }
}

/// How many entries leave from the head of `order` to make room for `incoming`
/// more bytes under `budget`: as many as it takes until the rest and the
/// newcomer fit, or all of them.
pub open spec fn evict_count(
    order: Seq<Seq<char>>,
    entries: Map<Seq<char>, CacheEntry>,
    incoming: nat,
    budget: nat,
) -> nat
    decreases order.len(),
{
    if order.len() == 0 || total_size(order, entries) + incoming <= budget {
        0
    } else {
        1 + evict_count(order.drop_first(), entries, incoming, budget)
    }
}

/// The queue after `path` came in with `incoming` bytes: the earlier entry of
/// `path` is gone, the oldest entries have left as far as needed, and `path`
/// stands last. For a newcomer that alone is larger than the budget all
/// others leave.
pub open spec fn order_after_insert(
    order: Seq<Seq<char>>,
    entries: Map<Seq<char>, CacheEntry>,
    path: Seq<char>,
    incoming: nat,
    budget: nat,
) -> Seq<Seq<char>> {
    let rest = without(order, path);
    let kept = rest.skip(evict_count(rest, entries.remove(path), incoming, budget) as int);
    kept.push(path)
}

/// The entries after `entry` came in for `path`: those of the paths that stay
/// in the queue, and the new one.
pub open spec fn entries_after_insert(
    order: Seq<Seq<char>>,
    entries: Map<Seq<char>, CacheEntry>,
    path: Seq<char>,
    entry: CacheEntry,
    budget: nat,
) -> Map<Seq<char>, CacheEntry> {
    let after = order_after_insert(order, entries, path, utf8_len(entry.content@), budget);
    Map::new(
        |p: Seq<char>| after.contains(p),
        |p: Seq<char>|
            if p == path {
                entry
            } else {
                entries[p]
            },
    )
}

/// The content cache.
pub struct ContentCache {
    entries: StringHashMap<CacheEntry>,
    queue: VecDeque<String>,
    max_size: u64,
    current_size: u64,
}

impl ContentCache {
    /// The entry held for each cached path.
    pub closed spec fn entries(&self) -> Map<Seq<char>, CacheEntry> {
        self.entries@
    }

    /// The cached paths, oldest first.
    pub closed spec fn order(&self) -> Seq<Seq<char>> {
        self.queue@.map_values(|s: String| s@)
    }

    /// The bytes that the cache accounts for.
    pub closed spec fn used(&self) -> nat {
        self.current_size as nat
    }

    /// The budget of bytes.
    pub closed spec fn budget(&self) -> nat {
        self.max_size as nat
    }

    /// The cache's invariant: the queue names each cached path once, the
    /// account is the sum of the entries' sizes, and the sum is within the
    /// budget, or the cache holds one entry that alone is larger.
    pub open spec fn wf(&self) -> bool {
        &&& self.order().no_duplicates()
        &&& forall|p: Seq<char>| self.entries().contains_key(p) <==> self.order().contains(p)
        &&& self.used() == total_size(self.order(), self.entries())
        &&& (self.used() <= self.budget() || self.order().len() == 1)
    }

    /// An empty cache with a budget of `max_size` bytes.
    pub fn new(max_size: u64) -> (r: Self)
        ensures
            r.wf(),
            r.budget() == max_size,
            r.used() == 0,
            r.order() == Seq::<Seq<char>>::empty(),
            r.entries() == Map::<Seq<char>, CacheEntry>::empty(),
    {
        let r = ContentCache {
            entries: StringHashMap::new(),
            queue: VecDeque::new(),
            max_size,
            current_size: 0,
        };
        assert(r.order() =~= Seq::<Seq<char>>::empty());
        r
    }

    /// The bytes that the cache accounts for.
    pub fn current_size(&self) -> (r: u64)
        ensures
            r == self.used(),
    {
        self.current_size
    }

    /// The budget of bytes.
    pub fn max_size(&self) -> (r: u64)
        ensures
            r == self.budget(),
    {
        self.max_size
    }

    /// The number of cached paths.
    pub fn len(&self) -> (r: usize)
        ensures
            r == self.order().len(),
    {
        self.queue.len()
    }

    /// The cached paths, oldest first.
    pub fn paths(&self) -> (r: Vec<String>)
        ensures
            r.deep_view() == self.order(),
    {
        let mut out: Vec<String> = Vec::new();
        let mut i: usize = 0;
        assert(out.deep_view() =~= self.order().take(0));
        while i < self.queue.len()
            invariant
                i <= self.queue.len(),
                out.deep_view() == self.order().take(i as int),
            decreases self.queue.len() - i,
        {
            let ghost before = out.deep_view();
            let path = self.queue[i].clone();
            assert(path@ == self.order()[i as int]);
            out.push(path);
            assert(out.deep_view() =~= before.push(self.order()[i as int]));
            assert(self.order().take(i + 1) =~= self.order().take(i as int).push(
                self.order()[i as int],
            ));
            i += 1;
        }
        assert(self.order().take(self.queue.len() as int) =~= self.order());
        out
    }

    /// The entry of `path`, if it is cached.
    pub fn get(&self, path: &str) -> (r: Option<&CacheEntry>)
        ensures
            match r {
                Some(entry) => self.entries().contains_key(path@) && *entry == self.entries()[path@],
                None => !self.entries().contains_key(path@),
            },
    {
        self.entries.get(path)
    }

    /// Where `path` stands in the queue.
    fn position(&self, path: &str) -> (r: Option<usize>)
        ensures
            match r {
                Some(i) => i < self.order().len() && self.order()[i as int] == path@,
                None => !self.order().contains(path@),
            },
    {
        let mut i: usize = 0;
        while i < self.queue.len()
            invariant
                i <= self.queue.len(),
                forall|j: int| 0 <= j < i ==> self.order()[j] != path@,
            decreases self.queue.len() - i,
        {
            if text_eq(self.queue[i].as_str(), path) {
                return Some(i);
            }
            i += 1;
        }
        None
    }

    /// Drops the entry of `path`, if there is one, and takes its size off the
    /// account.
    pub fn invalidate(&mut self, path: &str)
        requires
            old(self).wf(),
        ensures
            final(self).wf(),
            final(self).budget() == old(self).budget(),
            final(self).order() == without(old(self).order(), path@),
            final(self).entries() == old(self).entries().remove(path@),
            old(self).used() == if old(self).entries().contains_key(path@) {
                final(self).used() + size_of(old(self).entries(), path@)
            } else {
                final(self).used()
            },
    {
        match self.position(path) {
            None => {
                self.entries.remove(path);
                proof {
                    assert(self.entries() =~= old(self).entries());
                }
            },
            Some(i) => {
                let ghost order = self.order();
                let ghost entries = self.entries();
                proof {
                    assert(order.contains(path@));
                    lemma_index_of_unique(order, i as int);
                    lemma_total_size_remove(order, entries, i as int);
                }
                let size = match self.entries.get(path) {
                    Some(entry) => byte_len(entry.content.as_str()) as u64,
                    None => 0,
                };
                self.queue.remove(i);
                self.entries.remove(path);
                self.current_size = self.current_size - size;
                proof {
                    assert(self.order() =~= order.remove(i as int));
                    lemma_remove_keeps_distinct(order, i as int);
                    assert forall|p: Seq<char>| self.entries().contains_key(p)
                        == self.order().contains(p) by {
                        lemma_contains_remove(order, i as int, p);
                        assert(entries.contains_key(p) == order.contains(p));
                    }
                    assert forall|k: int| 0 <= k < self.order().len() implies entries[
                    #[trigger] self.order()[k]] == self.entries()[self.order()[k]] by {
                        assert(self.order().contains(self.order()[k]));
                    }
                    lemma_total_size_frame(self.order(), entries, self.entries());
                }
            },
        }
    }

    /// Caches `content` for `path` in place of any earlier entry of `path`.
    ///
    /// Before the entry goes in, the oldest entries leave until the rest and the
    /// newcomer fit the budget, or until none is left. The entry goes in
    /// whatever its size: a text that alone is larger than the budget ends up
    /// as the only entry. The account is within the budget whenever the
    /// newcomer alone fits it.
    pub fn cache_content(&mut self, path: String, content: String, metadata: DocumentMetadata)
        requires
            old(self).wf(),
        ensures
            final(self).wf(),
            final(self).budget() == old(self).budget(),
            final(self).order() == order_after_insert(
                old(self).order(),
                old(self).entries(),
                path@,
                utf8_len(content@),
                old(self).budget(),
            ),
            final(self).entries() == entries_after_insert(
                old(self).order(),
                old(self).entries(),
                path@,
                CacheEntry { content, metadata },
                old(self).budget(),
            ),
            final(self).entries().contains_key(path@),
            final(self).entries()[path@] == (CacheEntry { content, metadata }),
            final(self).order().last() == path@,
            utf8_len(content@) <= old(self).budget() ==> final(self).used() <= final(self).budget(),
            utf8_len(content@) > old(self).budget() ==> final(self).order() == seq![path@],
    {
        self.invalidate(path.as_str());
        let incoming = byte_len(content.as_str()) as u64;
        let ghost rest = self.order();
        let ghost rest_entries = self.entries();
        let ghost mut evicted: nat = 0;
        proof {
            assert(rest.skip(0) =~= rest);
            assert(!rest.contains(path@));
        }
        while (incoming > self.max_size || self.current_size > self.max_size - incoming)
            && self.queue.len() > 0
            invariant
                incoming == utf8_len(content@),
                self.max_size == old(self).max_size,
                rest.no_duplicates(),
                self.order().no_duplicates(),
                !rest.contains(path@),
                forall|p: Seq<char>| rest_entries.contains_key(p) <==> rest.contains(p),
                evicted <= rest.len(),
                self.order() == rest.skip(evicted as int),
                forall|p: Seq<char>| self.entries().contains_key(p) <==> self.order().contains(p),
                forall|p: Seq<char>|
                    self.entries().contains_key(p) ==> self.entries()[p] == rest_entries[p],
                self.current_size == total_size(self.order(), rest_entries),
                evict_count(rest, rest_entries, incoming as nat, self.max_size as nat) == evicted
                    + evict_count(
                    self.order(),
                    rest_entries,
                    incoming as nat,
                    self.max_size as nat,
                ),
            ensures
                evict_count(self.order(), rest_entries, incoming as nat, self.max_size as nat)
                    == 0,
                self.queue.len() == 0 || self.current_size + incoming <= self.max_size,
            decreases self.queue.len(),
        {
            let ghost order = self.order();
            let oldest = self.queue.pop_front();
            match oldest {
                Some(p) => {
                    proof {
                        assert(order[0] == p@);
                        assert(order.contains(p@));
                        assert(self.order() =~= order.drop_first());
                        assert(order.drop_first() =~= rest.skip(evicted as int + 1));
                        assert(order.remove(0) =~= order.drop_first());
                        lemma_remove_keeps_distinct(order, 0);
                    }
                    let size = match self.entries.get(p.as_str()) {
                        Some(entry) => byte_len(entry.content.as_str()) as u64,
                        None => 0,
                    };
                    let ghost entries = self.entries();
                    self.entries.remove(p.as_str());
                    self.current_size = self.current_size - size;
                    proof {
                        evicted = evicted + 1;
                        assert forall|q: Seq<char>| self.entries().contains_key(q)
                            == self.order().contains(q) by {
                            lemma_contains_remove(order, 0, q);
                            assert(order.remove(0) =~= order.drop_first());
                            assert(entries.contains_key(q) == order.contains(q));
                        }
                    }
                },
                None => {},
            }
        }
        let ghost kept = self.order();
        let ghost kept_entries = self.entries();
        proof {
            assert(!kept.contains(path@)) by {
                if kept.contains(path@) {
                    let k = choose|k: int| 0 <= k < kept.len() && kept[k] == path@;
                    assert(rest[k + evicted] == path@);
                }
            }
            if self.queue.len() == 0 {
                assert(kept =~= Seq::<Seq<char>>::empty());
            }
        }
        let ghost entry = CacheEntry { content, metadata };
        self.entries.insert(path.clone(), CacheEntry { content, metadata });
        self.queue.push_back(path);
        self.current_size = self.current_size + incoming;
        proof {
            assert(self.order() =~= kept.push(path@));
            assert forall|p: Seq<char>| self.entries().contains_key(p) == self.order().contains(
                p,
            ) by {
                lemma_contains_push(kept, path@, p);
                assert(kept_entries.contains_key(p) == kept.contains(p));
            }
            assert forall|p: Seq<char>| self.entries().contains_key(p) && p
                != path@ implies self.entries()[p] == old(self).entries()[p] by {
                assert(kept_entries.contains_key(p));
                assert(kept_entries[p] == rest_entries[p]);
                assert(kept.contains(p));
                let k = choose|k: int| 0 <= k < kept.len() && kept[k] == p;
                assert(rest[k + evicted] == p);
                assert(rest.contains(p));
                assert(rest_entries.contains_key(p));
            }
            assert(self.entries() =~= entries_after_insert(
                old(self).order(),
                old(self).entries(),
                path@,
                entry,
                old(self).budget(),
            ));
            lemma_push_keeps_distinct(kept, path@);
            assert forall|k: int| 0 <= k < kept.len() implies rest_entries[#[trigger] kept[k]]
                == self.entries()[kept[k]] by {
                assert(kept.contains(kept[k]));
                assert(kept_entries.contains_key(kept[k]));
                assert(rest[k + evicted] == kept[k]);
                assert(rest.contains(kept[k]));
            }
            lemma_total_size_frame(kept, rest_entries, self.entries());
            lemma_total_size_push(kept, self.entries(), path@);
        }
    }
}

/// After an insertion, every other path that is still cached was cached before,
/// with the same entry.
pub proof fn lemma_others_survive_or_leave(
    order: Seq<Seq<char>>,
    entries: Map<Seq<char>, CacheEntry>,
    path: Seq<char>,
    entry: CacheEntry,
    budget: nat,
)
    requires
        order.no_duplicates(),
        forall|p: Seq<char>| entries.contains_key(p) <==> order.contains(p),
    ensures
        forall|p: Seq<char>|
            p != path && #[trigger] entries_after_insert(
                order,
                entries,
                path,
                entry,
                budget,
            ).contains_key(p) ==> entries.contains_key(p) && entries_after_insert(
                order,
                entries,
                path,
                entry,
                budget,
            )[p] == entries[p],
{
    let rest = without(order, path);
    let incoming = utf8_len(entry.content@);
    let after = order_after_insert(order, entries, path, incoming, budget);
    assert forall|p: Seq<char>| p != path && after.contains(p) implies order.contains(p) by {
        let k = evict_count(rest, entries.remove(path), incoming, budget) as int;
        let kept = rest.skip(k);
        lemma_contains_push(kept, path, p);
        lemma_evict_count_bound(rest, entries.remove(path), incoming, budget);
        let i = choose|i: int| 0 <= i < kept.len() && kept[i] == p;
        assert(rest[i + k] == p);
        assert(rest.contains(p));
        if order.contains(path) {
            lemma_contains_remove(order, order.index_of(path), p);
        }
    }
}

/// No more entries leave than the queue holds.
pub proof fn lemma_evict_count_bound(
    order: Seq<Seq<char>>,
    entries: Map<Seq<char>, CacheEntry>,
    incoming: nat,
    budget: nat,
)
    ensures
        evict_count(order, entries, incoming, budget) <= order.len(),
    decreases order.len(),
{
    if order.len() > 0 {
        lemma_evict_count_bound(order.drop_first(), entries, incoming, budget);
    }
}

/// What a queue without duplicates holds after one element left it.
pub proof fn lemma_contains_remove(order: Seq<Seq<char>>, i: int, q: Seq<char>)
    requires
        order.no_duplicates(),
        0 <= i < order.len(),
    ensures
        order.remove(i).contains(q) == (order.contains(q) && q != order[i]),
{
    let rest = order.remove(i);
    if rest.contains(q) {
        let k = choose|k: int| 0 <= k < rest.len() && rest[k] == q;
        let x = if k < i { k } else { k + 1 };
        assert(order[x] == q);
    }
    if order.contains(q) && q != order[i] {
        let k = choose|k: int| 0 <= k < order.len() && order[k] == q;
        let x = if k < i { k } else { k - 1 };
        assert(rest[x] == q);
    }
}

/// What a queue holds after one element joined it.
pub proof fn lemma_contains_push(order: Seq<Seq<char>>, p: Seq<char>, q: Seq<char>)
    ensures
        order.push(p).contains(q) == (order.contains(q) || q == p),
{
    let more = order.push(p);
    if more.contains(q) {
        let k = choose|k: int| 0 <= k < more.len() && more[k] == q;
        if k < order.len() {
            assert(order[k] == q);
        }
    }
    if order.contains(q) {
        let k = choose|k: int| 0 <= k < order.len() && order[k] == q;
        assert(more[k] == q);
    }
    if q == p {
        assert(more[order.len() as int] == q);
    }
}

/// A queue without duplicates stays so when a path that it lacks joins it.
pub proof fn lemma_push_keeps_distinct(order: Seq<Seq<char>>, p: Seq<char>)
    requires
        order.no_duplicates(),
        !order.contains(p),
    ensures
        order.push(p).no_duplicates(),
{
    let more = order.push(p);
    assert forall|a: int, b: int| 0 <= a < more.len() && 0 <= b < more.len() && a
        != b implies more[a] != more[b] by {
        if a < order.len() {
            assert(order.contains(order[a]));
        }
        if b < order.len() {
            assert(order.contains(order[b]));
        }
    }
}

/// In a queue without duplicates, the index of an element is where it stands.
pub proof fn lemma_index_of_unique(order: Seq<Seq<char>>, i: int)
    requires
        order.no_duplicates(),
        0 <= i < order.len(),
    ensures
        order.index_of(order[i]) == i,
{
    let k = order.index_of(order[i]);
    assert(order.contains(order[i]));
    assert(0 <= k < order.len() && order[k] == order[i]);
}

/// A queue without duplicates stays so when an element leaves it, and the
/// element is then gone from it.
pub proof fn lemma_remove_keeps_distinct(order: Seq<Seq<char>>, i: int)
    requires
        order.no_duplicates(),
        0 <= i < order.len(),
    ensures
        order.remove(i).no_duplicates(),
        !order.remove(i).contains(order[i]),
{
    let rest = order.remove(i);
    assert forall|a: int, b: int| 0 <= a < rest.len() && 0 <= b < rest.len() && a
        != b implies rest[a] != rest[b] by {
        let x = if a < i { a } else { a + 1 };
        let y = if b < i { b } else { b + 1 };
        assert(rest[a] == order[x]);
        assert(rest[b] == order[y]);
    }
    if rest.contains(order[i]) {
        let k = choose|k: int| 0 <= k < rest.len() && rest[k] == order[i];
        let x = if k < i { k } else { k + 1 };
        assert(rest[k] == order[x]);
    }
}

/// The total depends on the entries of the queue's own paths only.
pub proof fn lemma_total_size_frame(
    order: Seq<Seq<char>>,
    a: Map<Seq<char>, CacheEntry>,
    b: Map<Seq<char>, CacheEntry>,
)
    requires
        forall|i: int| 0 <= i < order.len() ==> a[#[trigger] order[i]] == b[order[i]],
    ensures
        total_size(order, a) == total_size(order, b),
    decreases order.len(),
{
    if order.len() > 0 {
        let rest = order.drop_first();
        assert forall|i: int| 0 <= i < rest.len() implies a[#[trigger] rest[i]] == b[rest[i]] by {
            assert(rest[i] == order[i + 1]);
        }
        lemma_total_size_frame(rest, a, b);
    }
}

/// Appending a path adds the size of its entry to the total.
pub proof fn lemma_total_size_push(
    order: Seq<Seq<char>>,
    entries: Map<Seq<char>, CacheEntry>,
    path: Seq<char>,
)
    ensures
        total_size(order.push(path), entries) == total_size(order, entries) + size_of(
            entries,
            path,
        ),
    decreases order.len(),
{
    let more = order.push(path);
    if order.len() == 0 {
        assert(more.drop_first() =~= Seq::<Seq<char>>::empty());
        assert(more[0] == path);
        assert(total_size(more.drop_first(), entries) == 0);
    } else {
        assert(more.drop_first() =~= order.drop_first().push(path));
        assert(more[0] == order[0]);
        lemma_total_size_push(order.drop_first(), entries, path);
    }
}

/// Removing the path at `i` takes the size of its entry off the total.
pub proof fn lemma_total_size_remove(
    order: Seq<Seq<char>>,
    entries: Map<Seq<char>, CacheEntry>,
    i: int,
)
    requires
        0 <= i < order.len(),
    ensures
        total_size(order, entries) == total_size(order.remove(i), entries) + size_of(
            entries,
            order[i],
        ),
    decreases order.len(),
{
    if i == 0 {
        assert(order.remove(0) =~= order.drop_first());
    } else {
        assert(order.remove(i).drop_first() =~= order.drop_first().remove(i - 1));
        lemma_total_size_remove(order.drop_first(), entries, i - 1);
    }
}

} // verus!
