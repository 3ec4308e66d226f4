//! The breakpoints that a backend keeps track of, by where they are.
use crate::engine::BpLoc;
use crate::text::same_text;
use crate::types::BreakpointResult;
use vstd::prelude::*;
use vstd::string::*;

verus! {

broadcast use vstd::string::group_string_axioms;

/// Where a breakpoint is, as a value.
pub enum BpKey {
    Address(u64),
    Line { file: Seq<char>, line: u32 },
    Function(Seq<char>),
}

impl BpLoc {
    /// Where the location is, as a value.
    pub open spec fn key(self) -> BpKey {
        match self {
            BpLoc::Address(address) => BpKey::Address(address),
            BpLoc::FileLine { file, line } => BpKey::Line { file: file@, line },
            BpLoc::Function(name) => BpKey::Function(name@),
        }
    }

    /// Whether two locations are the same.
    pub fn same(&self, other: &BpLoc) -> (r: bool)
        ensures
            r == (self.key() == other.key()),
    {
        match (self, other) {
            (BpLoc::Address(a), BpLoc::Address(b)) => *a == *b,
            (
                BpLoc::FileLine { file: f, line: m },
                BpLoc::FileLine { file: g, line: n },
            ) => *m == *n && same_text(f.as_str(), g.as_str()),
            (BpLoc::Function(a), BpLoc::Function(b)) => same_text(a.as_str(), b.as_str()),
            _ => false,
        }
    }

    /// Another copy of the location.
    pub fn copy(&self) -> (r: BpLoc)
        ensures
            r == *self,
    {
        match self {
            BpLoc::Address(address) => BpLoc::Address(*address),
            BpLoc::FileLine { file, line } => BpLoc::FileLine { file: file.clone(), line: *line },
            BpLoc::Function(name) => BpLoc::Function(name.clone()),
        }
    }
}

/// Which breakpoints a request speaks of: those on the lines of one file, or those on functions.
#[derive(Debug, PartialEq, Eq)]
pub enum BpScope {
    File(String),
    Functions,
}

impl BpScope {
    /// Whether a breakpoint is one that the request speaks of.
    pub open spec fn covers(self, key: BpKey) -> bool {
        match (self, key) {
            (BpScope::File(file), BpKey::Line { file: f, .. }) => f == file@,
            (BpScope::Functions, BpKey::Function(_)) => true,
            _ => false,
        }
    }

    /// Whether a breakpoint is one that the request speaks of.
    pub fn holds(&self, loc: &BpLoc) -> (r: bool)
        ensures
            r == self.covers(loc.key()),
    {
        match (self, loc) {
            (BpScope::File(file), BpLoc::FileLine { file: f, .. }) => same_text(
                f.as_str(),
                file.as_str(),
            ),
            (BpScope::Functions, BpLoc::Function(_)) => true,
            _ => false,
        }
    }
}

/// A breakpoint that is kept track of.
#[derive(Debug, PartialEq, Eq)]
pub struct KnownBp {
    pub loc: BpLoc,
    pub result: BreakpointResult,
}

impl KnownBp {
    fn copy(&self) -> (r: KnownBp)
        ensures
            r == *self,
    {
        KnownBp { loc: self.loc.copy(), result: self.result.clone() }
    }
}

/// The breakpoints in a list of entries, by where they are.
pub open spec fn mapped(entries: Seq<KnownBp>) -> Map<BpKey, BreakpointResult> {
    Map::new(
        |key: BpKey| exists|i: int| 0 <= i < entries.len() && #[trigger] entries[i].loc.key() == key,
        |key: BpKey| entries[position(entries, key)].result,
    )
}

/// Where in a list of entries a breakpoint stands.
pub open spec fn position(entries: Seq<KnownBp>, key: BpKey) -> int {
    choose|i: int| 0 <= i < entries.len() && #[trigger] entries[i].loc.key() == key
}

/// Whether no breakpoint stands in a list of entries twice.
pub open spec fn distinct_keys(entries: Seq<KnownBp>) -> bool {
    forall|i: int, j: int|
        0 <= i < j < entries.len() ==> #[trigger] entries[i].loc.key()
            != #[trigger] entries[j].loc.key()
}

/// The breakpoints that a backend keeps track of. Each stands in it once.
#[derive(Debug, PartialEq, Eq)]
pub struct BreakpointTable {
    entries: Vec<KnownBp>,
}

impl View for BreakpointTable {
    type V = Map<BpKey, BreakpointResult>;

    open spec fn view(&self) -> Map<BpKey, BreakpointResult> {
        mapped(self.listed())
    }
}

proof fn mapped_at(entries: Seq<KnownBp>, i: int)
    requires
        distinct_keys(entries),
        0 <= i < entries.len(),
    ensures
        mapped(entries).contains_key(entries[i].loc.key()),
        mapped(entries)[entries[i].loc.key()] == entries[i].result,
{
    let key = entries[i].loc.key();
    let p = position(entries, key);
    assert(0 <= p < entries.len() && entries[p].loc.key() == key);
    assert(p == i);
}

impl BreakpointTable {
    /// The entries, in their order.
    pub closed spec fn listed(&self) -> Seq<KnownBp> {
        self.entries@
    }

    /// Whether each breakpoint stands in the table once.
    pub open spec fn well_formed(&self) -> bool {
        distinct_keys(self.listed())
    }

    /// A table of no breakpoints.
    pub fn new() -> (r: BreakpointTable)
        ensures
            r.well_formed(),
            r@ == Map::<BpKey, BreakpointResult>::empty(),
            r.listed().len() == 0,
    {
        let r = BreakpointTable { entries: Vec::new() };
        assert(r@ =~= Map::<BpKey, BreakpointResult>::empty());
        r
    }

    /// How many breakpoints there are.
    pub fn len(&self) -> (r: usize)
        ensures
            r == self.listed().len(),
    {
        self.entries.len()
    }

    /// The location of one of the breakpoints.
    pub fn loc(&self, i: usize) -> (r: &BpLoc)
        requires
            i < self.listed().len(),
        ensures
            *r == self.listed()[i as int].loc,
    {
        &self.entries[i].loc
    }

    /// What is known of one of the breakpoints.
    pub fn result(&self, i: usize) -> (r: &BreakpointResult)
        requires
            i < self.listed().len(),
        ensures
            *r == self.listed()[i as int].result,
    {
        &self.entries[i].result
    }

    /// The entries are what the table holds: each at its key, and nothing else.
    pub proof fn entries_are_the_table(&self)
        requires
            self.well_formed(),
        ensures
            forall|i: int|
                0 <= i < self.listed().len() ==> self@.contains_key(
                    #[trigger] self.listed()[i].loc.key(),
                ) && self@[self.listed()[i].loc.key()] == self.listed()[i].result,
            forall|key: BpKey| #[trigger]
                self@.contains_key(key) ==> exists|i: int|
                    0 <= i < self.listed().len() && #[trigger] self.listed()[i].loc.key() == key,
    {
        assert forall|i: int| 0 <= i < self.listed().len() implies self@.contains_key(
            #[trigger] self.listed()[i].loc.key(),
        ) && self@[self.listed()[i].loc.key()] == self.listed()[i].result by {
            mapped_at(self.listed(), i);
        }
    }

    /// Where in the table a breakpoint stands.
    fn find(&self, loc: &BpLoc) -> (r: Option<usize>)
        requires
            self.well_formed(),
        ensures
            match r {
                Some(i) => i < self.listed().len() && self.listed()[i as int].loc.key()
                    == loc.key() && self@.contains_key(loc.key()) && self@[loc.key()]
                    == self.listed()[i as int].result,
                None => !self@.contains_key(loc.key()),
            },
    {
        let mut i: usize = 0;
        while i < self.entries.len()
            invariant
                i <= self.entries@.len(),
                self.well_formed(),
                forall|j: int| 0 <= j < i ==> #[trigger] self.entries@[j].loc.key() != loc.key(),
            decreases self.entries@.len() - i,
        {
            if self.entries[i].loc.same(loc) {
                proof {
                    mapped_at(self.listed(), i as int);
                }
                return Some(i);
            }
            i = i + 1;
        }
        None
    }

    /// What is known of the breakpoint at a location.
    pub fn get(&self, loc: &BpLoc) -> (r: Option<BreakpointResult>)
        requires
            self.well_formed(),
        ensures
            match r {
                Some(result) => self@.contains_key(loc.key()) && self@[loc.key()] == result,
                None => !self@.contains_key(loc.key()),
            },
    {
        match self.find(loc) {
            Some(i) => Some(self.entries[i].result.clone()),
            None => None,
        }
    }

    /// Keeps track of a breakpoint, in place of the one that was at its location.
    pub fn insert(&mut self, loc: BpLoc, result: BreakpointResult)
        requires
            old(self).well_formed(),
        ensures
            final(self).well_formed(),
            final(self)@ == old(self)@.insert(loc.key(), result),
    {
        let ghost key = loc.key();
        match self.find(&loc) {
            Some(i) => {
                let ghost before = self.entries@;
                self.entries.set(i, KnownBp { loc, result });
                proof {
                    let after = self.entries@;
                    assert forall|j: int| 0 <= j < after.len() implies #[trigger] after[j].loc.key()
                        == before[j].loc.key() by {}
                    assert forall|k: BpKey| mapped(before).insert(key, result).contains_key(
                        k,
                    ) == mapped(after).contains_key(k) by {
                        if mapped(before).contains_key(k) {
                            let j = position(before, k);
                            assert(after[j].loc.key() == k);
                        }
                        if mapped(after).contains_key(k) {
                            let j = position(after, k);
                            assert(before[j].loc.key() == k);
                        }
                        assert(after[i as int].loc.key() == key);
                    }
                    assert forall|k: BpKey| mapped(after).contains_key(k) implies mapped(
                        before,
                    ).insert(key, result)[k] == mapped(after)[k] by {
                        let j = position(after, k);
                        assert(after[j].loc.key() == k);
                        assert(before[j].loc.key() == k);
                        mapped_at(after, j);
                        mapped_at(before, j);
                    }
                    assert(self@ =~= old(self)@.insert(key, result));
                }
            },
            None => {
                let ghost before = self.entries@;
                self.entries.push(KnownBp { loc, result });
                proof {
                    pushed(before, KnownBp { loc, result });
                }
            },
        }
    }

    /// The breakpoints that a request speaks of.
    pub fn within(&self, scope: &BpScope) -> (r: BreakpointTable)
        requires
            self.well_formed(),
        ensures
            r.well_formed(),
            r@ == self@.restrict(covered(*scope, true)),
    {
        self.part(scope, true)
    }

    fn part(&self, scope: &BpScope, inside: bool) -> (r: BreakpointTable)
        requires
            self.well_formed(),
        ensures
            r.well_formed(),
            r@ == self@.restrict(covered(*scope, inside)),
    {
        let mut out = BreakpointTable::new();
        let ghost keys = covered(*scope, inside);
        let mut i: usize = 0;
        assert(mapped(self.entries@.take(0)) =~= Map::<BpKey, BreakpointResult>::empty());
        assert(out@ =~= mapped(self.entries@.take(0)).restrict(keys));
        while i < self.entries.len()
            invariant
                i <= self.entries@.len(),
                self.well_formed(),
                out.well_formed(),
                keys == covered(*scope, inside),
                out@ == mapped(self.entries@.take(i as int)).restrict(keys),
            decreases self.entries@.len() - i,
        {
            proof {
                taken(self.entries@, i as int);
            }
            if scope.holds(&self.entries[i].loc) == inside {
                out.insert(self.entries[i].loc.copy(), self.entries[i].result.clone());
            }
            i = i + 1;
            assert(out@ =~= mapped(self.entries@.take(i as int)).restrict(keys));
        }
        assert(self.entries@.take(i as int) =~= self.entries@);
        out
    }

    /// Puts other breakpoints in place of those that a request speaks of.
    pub fn replace(&mut self, scope: &BpScope, kept: &BreakpointTable)
        requires
            old(self).well_formed(),
            kept.well_formed(),
        ensures
            final(self).well_formed(),
            final(self)@ == old(self)@.restrict(covered(*scope, false)).union_prefer_right(kept@),
    {
        let others = self.part(scope, false);
        let ghost rest = others@;
        let mut out = others;
        let mut i: usize = 0;
        assert(mapped(kept.entries@.take(0)) =~= Map::<BpKey, BreakpointResult>::empty());
        assert(out@ =~= rest.union_prefer_right(mapped(kept.entries@.take(0))));
        while i < kept.entries.len()
            invariant
                i <= kept.entries@.len(),
                kept.well_formed(),
                out.well_formed(),
                out@ == rest.union_prefer_right(mapped(kept.entries@.take(i as int))),
            decreases kept.entries@.len() - i,
        {
            proof {
                taken(kept.entries@, i as int);
            }
            out.insert(kept.entries[i].loc.copy(), kept.entries[i].result.clone());
            i = i + 1;
            assert(out@ =~= rest.union_prefer_right(mapped(kept.entries@.take(i as int))));
        }
        assert(kept.entries@.take(i as int) =~= kept.entries@);
        *self = out;
    }
}

/// The keys that a request speaks of, or those that it does not speak of.
pub open spec fn covered(scope: BpScope, inside: bool) -> Set<BpKey> {
    Set::new(|key: BpKey| scope.covers(key) == inside)
}

proof fn taken(entries: Seq<KnownBp>, i: int)
    requires
        distinct_keys(entries),
        0 <= i < entries.len(),
    ensures
        mapped(entries.take(i + 1)) == mapped(entries.take(i)).insert(
            entries[i].loc.key(),
            entries[i].result,
        ),
{
    let part = entries.take(i);
    assert(entries.take(i + 1) =~= part.push(entries[i]));
    assert forall|a: int, b: int| 0 <= a < b < part.len() implies #[trigger] part[a].loc.key()
        != #[trigger] part[b].loc.key() by {
        assert(entries[a].loc.key() != entries[b].loc.key());
    }
    assert forall|j: int| 0 <= j < part.len() implies #[trigger] part[j].loc.key()
        != entries[i].loc.key() by {
        assert(entries[j].loc.key() != entries[i].loc.key());
    }
    pushed(part, entries[i]);
}

proof fn pushed(before: Seq<KnownBp>, entry: KnownBp)
    requires
        distinct_keys(before),
        forall|j: int|
            0 <= j < before.len() ==> #[trigger] before[j].loc.key() != entry.loc.key(),
    ensures
        distinct_keys(before.push(entry)),
        mapped(before.push(entry)) == mapped(before).insert(entry.loc.key(), entry.result),
{
    let after = before.push(entry);
    let key = entry.loc.key();
    assert forall|a: int, b: int| 0 <= a < b < after.len() implies #[trigger] after[a].loc.key()
        != #[trigger] after[b].loc.key() by {
        if b < before.len() {
            assert(before[a].loc.key() != before[b].loc.key());
        } else {
            assert(before[a].loc.key() != key);
        }
    }
    assert forall|k: BpKey| mapped(before).insert(key, entry.result).contains_key(k) == mapped(
        after,
    ).contains_key(k) by {
        if mapped(before).contains_key(k) {
            let j = position(before, k);
            assert(after[j].loc.key() == k);
        }
        if mapped(after).contains_key(k) {
            let j = position(after, k);
            assert(after[j].loc.key() == k);
            if j < before.len() {
                assert(before[j].loc.key() == k);
            }
        }
        assert(after[before.len() as int].loc.key() == key);
    }
    assert forall|k: BpKey| mapped(after).contains_key(k) implies mapped(before).insert(
        key,
        entry.result,
    )[k] == mapped(after)[k] by {
        let j = position(after, k);
        assert(after[j].loc.key() == k);
        mapped_at(after, j);
        if j < before.len() {
            assert(before[j].loc.key() == k);
            mapped_at(before, j);
        }
    }
    assert(mapped(after) =~= mapped(before).insert(key, entry.result));
}

} // verus!
