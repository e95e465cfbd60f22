//! The latest health check result of every client service.

use crate::health::{HealthCheckResult, HealthStatus};
use crate::text::{join3, same_text, to_json_literal};
use vstd::prelude::*;

verus! {

/// The names of the services occur once each.
pub open spec fn has_unique_names(entries: Seq<(String, HealthCheckResult)>) -> bool {
    forall|i: int, j: int|
        #![trigger entries[i], entries[j]]
        0 <= i < entries.len() && 0 <= j < entries.len() && entries[i].0@ == entries[j].0@ ==> i
            == j
}

/// The place of a name among the entries.
pub open spec fn is_place_of(
    entries: Seq<(String, HealthCheckResult)>,
    name: Seq<char>,
    i: int,
) -> bool {
    0 <= i < entries.len() && entries[i].0@ == name
}

/// The result that each name has among the entries.
pub open spec fn results_of(entries: Seq<(String, HealthCheckResult)>) -> Map<
    Seq<char>,
    crate::health::HealthCheckResultView,
> {
    Map::new(
        |name: Seq<char>| exists|i: int| is_place_of(entries, name, i),
        |name: Seq<char>| entries[choose|i: int| is_place_of(entries, name, i)].1@,
    )
}

/// A name at a known place has the result that stands there.
proof fn lemma_result_at(entries: Seq<(String, HealthCheckResult)>, i: int)
    requires
        has_unique_names(entries),
        0 <= i < entries.len(),
    ensures
        results_of(entries).contains_key(entries[i].0@),
        results_of(entries)[entries[i].0@] == entries[i].1@,
{
    let name = entries[i].0@;
    assert(is_place_of(entries, name, i));
    let j = choose|j: int| is_place_of(entries, name, j);
    assert(is_place_of(entries, name, j));
    assert(entries[i].0@ == entries[j].0@);
}

/// Replacing the result at the place of a name changes that name alone.
proof fn lemma_result_replaced(
    entries: Seq<(String, HealthCheckResult)>,
    i: int,
    entry: (String, HealthCheckResult),
)
    requires
        has_unique_names(entries),
        0 <= i < entries.len(),
        entries[i].0@ == entry.0@,
    ensures
        has_unique_names(entries.update(i, entry)),
        results_of(entries.update(i, entry)) == results_of(entries).insert(entry.0@, entry.1@),
{
    let after = entries.update(i, entry);
    assert forall|j: int, k: int|
        #![trigger after[j], after[k]]
        0 <= j < after.len() && 0 <= k < after.len() && after[j].0@ == after[k].0@ implies j
        == k by {
        assert(after[j].0@ == entries[j].0@);
        assert(after[k].0@ == entries[k].0@);
    }
    assert forall|name: Seq<char>| #[trigger]
        results_of(after).contains_key(name) == results_of(entries).insert(
            entry.0@,
            entry.1@,
        ).contains_key(name) by {
        if results_of(after).contains_key(name) {
            let j = choose|j: int| is_place_of(after, name, j);
            assert(is_place_of(entries, name, j));
        }
        if results_of(entries).contains_key(name) {
            let j = choose|j: int| is_place_of(entries, name, j);
            assert(is_place_of(after, name, j));
        }
        if name == entry.0@ {
            assert(is_place_of(after, name, i));
        }
    }
    assert forall|name: Seq<char>| results_of(after).contains_key(name) implies #[trigger]
        results_of(after)[name] == results_of(entries).insert(entry.0@, entry.1@)[name] by {
        let j = choose|j: int| is_place_of(after, name, j);
        assert(after[j].0@ == name);
        lemma_result_at(after, j);
        if j != i {
            assert(entries[j] == after[j]);
            lemma_result_at(entries, j);
            assert(after[j].0@ != after[i].0@);
        }
    }
    assert(results_of(after) =~= results_of(entries).insert(entry.0@, entry.1@));
}

/// Adding an entry for a name that has none adds that name alone.
proof fn lemma_result_added(
    entries: Seq<(String, HealthCheckResult)>,
    entry: (String, HealthCheckResult),
)
    requires
        has_unique_names(entries),
        forall|i: int| 0 <= i < entries.len() ==> (#[trigger] entries[i]).0@ != entry.0@,
    ensures
        has_unique_names(entries.push(entry)),
        results_of(entries.push(entry)) == results_of(entries).insert(entry.0@, entry.1@),
        !results_of(entries).contains_key(entry.0@),
{
    let after = entries.push(entry);
    let n = entries.len() as int;
    assert(forall|j: int| 0 <= j < n ==> #[trigger] after[j] == entries[j]);
    assert(after[n] == entry);
    assert forall|j: int, k: int|
        #![trigger after[j], after[k]]
        0 <= j < after.len() && 0 <= k < after.len() && after[j].0@ == after[k].0@ implies j
        == k by {
        if j < n && k < n {
            assert(entries[j].0@ == entries[k].0@);
        } else if j < n {
            assert(entries[j].0@ != entry.0@);
        } else if k < n {
            assert(entries[k].0@ != entry.0@);
        }
    }
    if results_of(entries).contains_key(entry.0@) {
        let j = choose|j: int| is_place_of(entries, entry.0@, j);
        assert(entries[j].0@ != entry.0@);
    }
    assert forall|name: Seq<char>| #[trigger]
        results_of(after).contains_key(name) == results_of(entries).insert(
            entry.0@,
            entry.1@,
        ).contains_key(name) by {
        if results_of(after).contains_key(name) {
            let j = choose|j: int| is_place_of(after, name, j);
            if j < n {
                assert(is_place_of(entries, name, j));
            }
        }
        if results_of(entries).contains_key(name) {
            let j = choose|j: int| is_place_of(entries, name, j);
            assert(is_place_of(after, name, j));
        }
        if name == entry.0@ {
            assert(is_place_of(after, name, n));
        }
    }
    assert forall|name: Seq<char>| results_of(after).contains_key(name) implies #[trigger]
        results_of(after)[name] == results_of(entries).insert(entry.0@, entry.1@)[name] by {
        let j = choose|j: int| is_place_of(after, name, j);
        lemma_result_at(after, j);
        if j < n {
            lemma_result_at(entries, j);
        }
    }
    assert(results_of(after) =~= results_of(entries).insert(entry.0@, entry.1@));
}

/// Taking an entry out takes out its name alone.
proof fn lemma_result_removed(entries: Seq<(String, HealthCheckResult)>, i: int)
    requires
        has_unique_names(entries),
        0 <= i < entries.len(),
    ensures
        has_unique_names(entries.remove(i)),
        results_of(entries.remove(i)) == results_of(entries).remove(entries[i].0@),
{
    let after = entries.remove(i);
    let name = entries[i].0@;
    assert(forall|j: int| 0 <= j < i ==> #[trigger] after[j] == entries[j]);
    assert(forall|j: int| i <= j < after.len() ==> #[trigger] after[j] == entries[j + 1]);
    assert forall|j: int, k: int|
        #![trigger after[j], after[k]]
        0 <= j < after.len() && 0 <= k < after.len() && after[j].0@ == after[k].0@ implies j
        == k by {
        let from_j = if j < i {
            j
        } else {
            j + 1
        };
        let from_k = if k < i {
            k
        } else {
            k + 1
        };
        assert(entries[from_j].0@ == entries[from_k].0@);
    }
    let expected = results_of(entries).remove(name);
    assert forall|other: Seq<char>| #[trigger]
        results_of(after).contains_key(other) == expected.contains_key(other) by {
        if results_of(after).contains_key(other) {
            let j = choose|j: int| is_place_of(after, other, j);
            let from = if j < i {
                j
            } else {
                j + 1
            };
            assert(is_place_of(entries, other, from));
            assert(entries[from].0@ != entries[i].0@);
        }
        if expected.contains_key(other) {
            let j = choose|j: int| is_place_of(entries, other, j);
            let to = if j < i {
                j
            } else {
                j - 1
            };
            assert(is_place_of(after, other, to));
        }
    }
    assert forall|other: Seq<char>| results_of(after).contains_key(other) implies #[trigger]
        results_of(after)[other] == expected[other] by {
        let j = choose|j: int| is_place_of(after, other, j);
        let from = if j < i {
            j
        } else {
            j + 1
        };
        lemma_result_at(after, j);
        lemma_result_at(entries, from);
    }
    assert(results_of(after) =~= expected);
}

/// There are as many names as entries.
proof fn lemma_results_len(entries: Seq<(String, HealthCheckResult)>)
    requires
        has_unique_names(entries),
    ensures
        results_of(entries).dom().finite(),
        results_of(entries).len() == entries.len(),
    decreases entries.len(),
{
    if entries.len() == 0 {
        assert(results_of(entries) =~= Map::empty());
    } else {
        let before = entries.drop_last();
        assert forall|i: int, j: int|
            #![trigger before[i], before[j]]
            0 <= i < before.len() && 0 <= j < before.len() && before[i].0@ == before[j].0@ implies i
            == j by {
            assert(entries[i].0@ == entries[j].0@);
        }
        lemma_results_len(before);
        assert forall|i: int| 0 <= i < before.len() implies (#[trigger] before[i]).0@
            != entries.last().0@ by {
            assert(entries[i].0@ != entries[entries.len() - 1].0@);
        }
        lemma_result_added(before, entries.last());
        assert(before.push(entries.last()) =~= entries);
    }
}

/// A cache to hold the latest health check results for each client service.
#[derive(Debug)]
pub struct HealthCheckCache {
    entries: Vec<(String, HealthCheckResult)>,
}

impl View for HealthCheckCache {
    type V = Map<Seq<char>, crate::health::HealthCheckResultView>;

    /// The latest result of each service.
    closed spec fn view(&self) -> Map<Seq<char>, crate::health::HealthCheckResultView> {
        results_of(self.entries@)
    }
}

/// `true` if no service among the results is unhealthy.
pub open spec fn all_healthy(
    results: Map<Seq<char>, crate::health::HealthCheckResultView>,
) -> bool {
    forall|name: Seq<char>| #[trigger]
        results.contains_key(name) ==> !(results[name].status is Unhealthy)
}

impl HealthCheckCache {
    #[verifier::type_invariant]
    spec fn unique(self) -> bool {
        has_unique_names(self.entries@)
    }

    /// The services and their results, in the order in which they were added.
    pub closed spec fn listed(self) -> Seq<(String, HealthCheckResult)> {
        self.entries@
    }

    /// An empty cache.
    pub fn new() -> (cache: HealthCheckCache)
        ensures
            cache@ == Map::<Seq<char>, crate::health::HealthCheckResultView>::empty(),
            cache.listed().len() == 0,
            all_healthy(cache@),
    {
        let cache = HealthCheckCache { entries: Vec::new() };
        assert(cache@ =~= Map::<Seq<char>, crate::health::HealthCheckResultView>::empty());
        cache
    }

    /// An empty cache with room for the given number of services.
    pub fn with_capacity(capacity: usize) -> (cache: HealthCheckCache)
        ensures
            cache@ == Map::<Seq<char>, crate::health::HealthCheckResultView>::empty(),
            cache.listed().len() == 0,
            all_healthy(cache@),
    {
        let cache = HealthCheckCache { entries: Vec::with_capacity(capacity) };
        assert(cache@ =~= Map::<Seq<char>, crate::health::HealthCheckResultView>::empty());
        cache
    }

    /// The number of services.
    pub fn len(&self) -> (len: usize)
        ensures
            self@.dom().finite(),
            len == self@.len(),
            len == self.listed().len(),
    {
        proof {
            use_type_invariant(self);
            lemma_results_len(self.entries@);
        }
        self.entries.len()
    }

    /// Returns `true` if all services are healthy or unknown.
    pub fn healthy(&self) -> (healthy: bool)
        ensures
            healthy == all_healthy(self@),
    {
        proof {
            use_type_invariant(self);
        }
        let mut i: usize = 0;
        while i < self.entries.len()
            invariant
                i <= self.entries@.len(),
                has_unique_names(self.entries@),
                forall|k: int|
                    0 <= k < i ==> !((#[trigger] self.entries@[k]).1.status is Unhealthy),
            decreases self.entries@.len() - i,
        {
            let status: HealthStatus = self.entries[i].1.status;
            if matches!(status, HealthStatus::Unhealthy) {
                proof {
                    lemma_result_at(self.entries@, i as int);
                    assert(self@.contains_key(self.entries@[i as int].0@));
                }
                return false;
            }
            i += 1;
        }
        proof {
            assert forall|name: Seq<char>| #[trigger] self@.contains_key(name) implies !(
            self@[name].status is Unhealthy) by {
                let k = choose|k: int| is_place_of(self.entries@, name, k);
                lemma_result_at(self.entries@, k);
            }
        }
        true
    }

    /// The place of a name.
    fn place(&self, name: &str) -> (place: Option<usize>)
        ensures
            place matches Some(i) ==> is_place_of(self.entries@, name@, i as int),
            place is None ==> forall|i: int|
                0 <= i < self.entries@.len() ==> (#[trigger] self.entries@[i]).0@ != name@,
    {
        let mut i: usize = 0;
        while i < self.entries.len()
            invariant
                i <= self.entries@.len(),
                forall|k: int| 0 <= k < i ==> (#[trigger] self.entries@[k]).0@ != name@,
            decreases self.entries@.len() - i,
        {
            if same_text(self.entries[i].0.as_str(), name) {
                return Some(i);
            }
            i += 1;
        }
        None
    }

    /// The latest result of a service, if it has one.
    pub fn get(&self, name: &str) -> (result: Option<&HealthCheckResult>)
        ensures
            result is Some <==> self@.contains_key(name@),
            result matches Some(r) ==> r@ == self@[name@],
    {
        proof {
            use_type_invariant(self);
        }
        match self.place(name) {
            Some(i) => {
                proof {
                    lemma_result_at(self.entries@, i as int);
                }
                Some(&self.entries[i].1)
            },
            None => {
                proof {
                    if self@.contains_key(name@) {
                        let k = choose|k: int| is_place_of(self.entries@, name@, k);
                        assert(self.entries@[k].0@ != name@);
                    }
                }
                None
            },
        }
    }

    /// Stores the latest result of a service and returns the one before, if there was one.
    pub fn insert(&mut self, name: String, result: HealthCheckResult) -> (before: Option<
        HealthCheckResult,
    >)
        ensures
            final(self)@ == old(self)@.insert(name@, result@),
            before is Some <==> old(self)@.contains_key(name@),
            before is None ==> final(self).listed() == old(self).listed().push((name, result)),
            before is Some ==> exists|i: int|
                is_place_of(old(self).listed(), name@, i) && final(self).listed() == old(
                    self,
                ).listed().update(i, (name, result)),
            before matches Some(b) ==> b@ == old(self)@[name@],
    {
        proof {
            use_type_invariant(&*self);
        }
        let place: Option<usize> = self.place(name.as_str());
        let mut entries: Vec<(String, HealthCheckResult)> = Vec::new();
        std::mem::swap(&mut entries, &mut self.entries);
        let ghost started = entries@;
        match place {
            Some(i) => {
                let before: HealthCheckResult = entries[i].1.clone();
                proof {
                    lemma_result_at(started, i as int);
                    lemma_result_replaced(started, i as int, (name, result));
                }
                entries.set(i, (name, result));
                self.entries = entries;
                assert(is_place_of(old(self).listed(), name@, i as int));
                Some(before)
            },
            None => {
                proof {
                    lemma_result_added(started, (name, result));
                }
                entries.push((name, result));
                self.entries = entries;
                None
            },
        }
    }

    /// `true` if there are no services.
    pub fn is_empty(&self) -> (empty: bool)
        ensures
            empty == (self@ == Map::<Seq<char>, crate::health::HealthCheckResultView>::empty()),
    {
        proof {
            use_type_invariant(self);
            lemma_results_len(self.entries@);
            if self.entries@.len() == 0 {
                assert(self@ =~= Map::<Seq<char>, crate::health::HealthCheckResultView>::empty());
            }
        }
        self.entries.len() == 0
    }

    /// `true` if the service has a result.
    pub fn contains_key(&self, name: &str) -> (contained: bool)
        ensures
            contained == self@.contains_key(name@),
    {
        self.get(name).is_some()
    }

    /// The service at a place, and its latest result; `None` behind the last one.
    pub fn entry(&self, place: usize) -> (entry: Option<(&String, &HealthCheckResult)>)
        ensures
            entry is Some <==> place < self.listed().len(),
            entry matches Some(e) ==> {
                &&& *e.0 == self.listed()[place as int].0
                &&& *e.1 == self.listed()[place as int].1
                &&& self@.contains_key(e.0@)
                &&& e.1@ == self@[e.0@]
            },
    {
        proof {
            use_type_invariant(self);
        }
        if place < self.entries.len() {
            proof {
                lemma_result_at(self.entries@, place as int);
            }
            let entry: &(String, HealthCheckResult) = &self.entries[place];
            Some((&entry.0, &entry.1))
        } else {
            None
        }
    }

    /// Forgets a service and returns its latest result, if it has one.
    pub fn remove(&mut self, name: &str) -> (removed: Option<HealthCheckResult>)
        ensures
            final(self)@ == old(self)@.remove(name@),
            removed is Some <==> old(self)@.contains_key(name@),
            removed is None ==> final(self).listed() == old(self).listed(),
            removed is Some ==> exists|i: int|
                is_place_of(old(self).listed(), name@, i) && final(self).listed() == old(
                    self,
                ).listed().remove(i),
            removed matches Some(r) ==> r@ == old(self)@[name@],
    {
        proof {
            use_type_invariant(&*self);
        }
        let place: Option<usize> = self.place(name);
        match place {
            Some(i) => {
                let mut entries: Vec<(String, HealthCheckResult)> = Vec::new();
                std::mem::swap(&mut entries, &mut self.entries);
                proof {
                    lemma_result_at(entries@, i as int);
                    lemma_result_removed(entries@, i as int);
                }
                let removed: (String, HealthCheckResult) = entries.remove(i);
                self.entries = entries;
                assert(is_place_of(old(self).listed(), name@, i as int));
                Some(removed.1)
            },
            None => {
                proof {
                    if self@.contains_key(name@) {
                        let k = choose|k: int| is_place_of(self.entries@, name@, k);
                        assert(self.entries@[k].0@ != name@);
                    }
                    assert(self@ =~= self@.remove(name@));
                }
                None
            },
        }
    }

    /// The cache as a JSON object on several lines.
    pub fn to_text(&self) -> (text: String)
        ensures
            text@ == cache_text(self.listed()),
    {
        if self.entries.len() == 0 {
            return "{}".to_owned();
        }
        let mut text: String = "{".to_owned();
        let mut i: usize = 0;
        while i < self.entries.len()
            invariant
                i <= self.entries@.len(),
                text@ == entries_text(self.entries@.take(i as int)),
            decreases self.entries@.len() - i,
        {
            let entry: &(String, HealthCheckResult) = &self.entries[i];
            let literal: String = to_json_literal(entry.0.as_str());
            let result: String = entry.1.to_json_pretty();
            proof {
                let taken = self.entries@.take(i + 1);
                assert(taken.drop_last() =~= self.entries@.take(i as int));
                assert(taken.last() == self.entries@[i as int]);
            }
            let separator: &str = if i == 0 {
                "\n  "
            } else {
                ",\n  "
            };
            text = join3(text.as_str(), separator, literal.as_str());
            text = join3(text.as_str(), ": ", result.as_str());
            i += 1;
        }
        assert(self.entries@.take(i as int) =~= self.entries@);
        text.concat("\n}")
    }
}

impl Clone for HealthCheckCache {
    fn clone(&self) -> (copy: HealthCheckCache)
        ensures
            copy.listed() =~= self.listed(),
            copy@ == self@,
    {
        proof {
            use_type_invariant(self);
        }
        let mut entries: Vec<(String, HealthCheckResult)> = Vec::new();
        let mut i: usize = 0;
        while i < self.entries.len()
            invariant
                i <= self.entries@.len(),
                entries@ =~= self.entries@.take(i as int),
            decreases self.entries@.len() - i,
        {
            let entry: &(String, HealthCheckResult) = &self.entries[i];
            entries.push((entry.0.clone(), entry.1.clone()));
            i += 1;
        }
        assert(entries@ =~= self.entries@);
        HealthCheckCache { entries }
    }
}

impl Default for HealthCheckCache {
    /// An empty cache.
    fn default() -> (cache: HealthCheckCache)
        ensures
            cache@ == Map::<Seq<char>, crate::health::HealthCheckResultView>::empty(),
    {
        HealthCheckCache::new()
    }
}

/// An opening brace and the entries, separated by commas.
pub open spec fn entries_text(entries: Seq<(String, HealthCheckResult)>) -> Seq<char>
    decreases entries.len(),
{
    if entries.len() == 0 {
        "{"@
    } else {
        let separator = if entries.len() == 1 {
            "\n  "@
        } else {
            ",\n  "@
        };
        entries_text(entries.drop_last()) + separator + crate::text::json_literal(
            entries.last().0@,
        ) + ": "@ + entries.last().1@.pretty()
    }
}

/// The entries as a JSON object on several lines.
pub open spec fn cache_text(entries: Seq<(String, HealthCheckResult)>) -> Seq<char> {
    if entries.len() == 0 {
        "{}"@
    } else {
        entries_text(entries) + "\n}"@
    }
}

/// The listed services are the ones that the cache holds, with the same results.
pub proof fn listed_entries_are_the_results(cache: HealthCheckCache)
    ensures
        results_of(cache.listed()) == cache@,
{
}

/// The latest result of a service is the one that was stored last, and storing it changes
/// no other service.
pub proof fn latest_result_is_read_back(
    results: Map<Seq<char>, crate::health::HealthCheckResultView>,
    name: Seq<char>,
    earlier: crate::health::HealthCheckResultView,
    latest: crate::health::HealthCheckResultView,
    other: Seq<char>,
)
    ensures
        results.insert(name, earlier).insert(name, latest)[name] == latest,
        other != name ==> (results.insert(name, earlier).insert(name, latest).contains_key(other)
            <==> results.contains_key(other)),
        other != name && results.contains_key(other) ==> results.insert(name, earlier).insert(
            name,
            latest,
        )[other] == results[other],
{
}

/// A service that is forgotten again leaves no trace, and no other service changes.
pub proof fn forgotten_results_leave_no_trace(
    results: Map<Seq<char>, crate::health::HealthCheckResultView>,
    name: Seq<char>,
    result: crate::health::HealthCheckResultView,
)
    ensures
        results.insert(name, result).remove(name) == results.remove(name),
        !results.contains_key(name) ==> results.insert(name, result).remove(name) == results,
{
    assert(results.insert(name, result).remove(name) =~= results.remove(name));
    if !results.contains_key(name) {
        assert(results.remove(name) =~= results);
    }
}

/// After a result was stored, the cache is healthy exactly where that result is not
/// unhealthy and no other service is.
pub proof fn health_after_insert(
    results: Map<Seq<char>, crate::health::HealthCheckResultView>,
    name: Seq<char>,
    result: crate::health::HealthCheckResultView,
)
    ensures
        all_healthy(results.insert(name, result)) <==> !(result.status is Unhealthy) && all_healthy(
            results.remove(name),
        ),
{
    let after = results.insert(name, result);
    let others = results.remove(name);
    if all_healthy(after) {
        assert(after.contains_key(name));
        assert forall|other: Seq<char>| #[trigger] others.contains_key(other) implies !(
        others[other].status is Unhealthy) by {
            assert(after.contains_key(other));
        }
    }
    if !(result.status is Unhealthy) && all_healthy(others) {
        assert forall|other: Seq<char>| #[trigger] after.contains_key(other) implies !(
        after[other].status is Unhealthy) by {
            if other != name {
                assert(others.contains_key(other));
            }
        }
    }
}

/// One unhealthy service makes the cache unhealthy, until a newer result replaces it.
pub proof fn recovery_needs_a_newer_result(
    results: Map<Seq<char>, crate::health::HealthCheckResultView>,
    name: Seq<char>,
    other: Seq<char>,
    result: crate::health::HealthCheckResultView,
)
    requires
        results.contains_key(name),
        results[name].status is Unhealthy,
        other != name,
    ensures
        !all_healthy(results),
        !all_healthy(results.insert(other, result)),
{
    assert(results.insert(other, result).contains_key(name));
}

/// A cache says that all is well exactly where not a single service is unhealthy.
pub proof fn one_unhealthy_service_is_enough(
    results: Map<Seq<char>, crate::health::HealthCheckResultView>,
)
    ensures
        !all_healthy(results) <==> exists|name: Seq<char>| #[trigger]
            results.contains_key(name) && results[name].status is Unhealthy,
{
}

/// The cache holds exactly the services that are listed, each with the result at its place.
pub proof fn listed_services_have_their_results(
    entries: Seq<(String, HealthCheckResult)>,
    name: Seq<char>,
    i: int,
)
    requires
        has_unique_names(entries),
    ensures
        0 <= i < entries.len() ==> results_of(entries).contains_key(entries[i].0@)
            && results_of(entries)[entries[i].0@] == entries[i].1@,
        results_of(entries).contains_key(name) <==> exists|k: int|
            0 <= k < entries.len() && (#[trigger] entries[k]).0@ == name,
{
    if 0 <= i < entries.len() {
        lemma_result_at(entries, i);
    }
    if results_of(entries).contains_key(name) {
        let k = choose|k: int| is_place_of(entries, name, k);
        assert(entries[k].0@ == name);
    }
    if exists|k: int| 0 <= k < entries.len() && (#[trigger] entries[k]).0@ == name {
        let k = choose|k: int| 0 <= k < entries.len() && (#[trigger] entries[k]).0@ == name;
        assert(is_place_of(entries, name, k));
    }
}

/// The text of a cache that gets one more service is that of the cache, with the service as
/// the last member of the object.
pub proof fn cache_texts_grow_by_services(
    entries: Seq<(String, HealthCheckResult)>,
    entry: (String, HealthCheckResult),
)
    ensures
        cache_text(Seq::empty()) == "{}"@,
        ({
            let member = crate::text::json_literal(entry.0@) + ": "@ + entry.1@.pretty();
            &&& entries.len() == 0 ==> cache_text(entries.push(entry)) == "{\n  "@ + member
                + "\n}"@
            &&& entries.len() > 0 ==> cache_text(entries.push(entry)) == cache_text(entries).take(
                cache_text(entries).len() - 2,
            ) + ",\n  "@ + member + "\n}"@
        }),
{
    reveal_strlit("{");
    reveal_strlit("\n  ");
    reveal_strlit("{\n  ");
    reveal_strlit("\n}");
    let more = entries.push(entry);
    assert(more.drop_last() =~= entries);
    assert(more.last() == entry);
    let member = crate::text::json_literal(entry.0@) + ": "@ + entry.1@.pretty();
    if entries.len() == 0 {
        assert("{\n  "@ =~= "{"@ + "\n  "@);
        assert(entries_text(entries) == "{"@);
        assert(entries_text(more) =~= "{"@ + "\n  "@ + member);
        assert(cache_text(more) =~= "{\n  "@ + member + "\n}"@);
    } else {
        assert(cache_text(entries).take(cache_text(entries).len() - 2) =~= entries_text(entries));
        assert(cache_text(more) =~= entries_text(entries) + ",\n  "@ + member + "\n}"@);
    }
}

} // verus!
