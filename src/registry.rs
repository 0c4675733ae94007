//! The registry of named entries, built once at startup.
//!
//! Each entry has a unique, case-sensitive name and the sources its generator
//! fetches. The cache entries themselves are kept by the caller, one per
//! registry index, each under the policy the registry gives.
use vstd::prelude::*;
use vstd::string::StringExecFns;
use crate::cache::TtlPolicy;

verus! {

/// How long a fetched entry stays fresh: one hour, in seconds.
pub const ENTRY_TTL_SECS: u64 = 3600;

/// One upstream feed: the label its components are shown under, and its URL.
pub struct Source {
    pub label: String,
    pub url: String,
}

/// One configured entry: its name and its sources, in order.
pub struct EntryConfig {
    pub name: String,
    pub sources: Vec<Source>,
}

pub ghost struct SourceView {
    pub label: Seq<char>,
    pub url: Seq<char>,
}

pub ghost struct EntryView {
    pub name: Seq<char>,
    pub sources: Seq<SourceView>,
}

impl View for Source {
    type V = SourceView;

    open spec fn view(&self) -> SourceView {
        SourceView { label: self.label@, url: self.url@ }
    }
}

impl View for EntryConfig {
    type V = EntryView;

    open spec fn view(&self) -> EntryView {
        EntryView { name: self.name@, sources: self.sources@.map_values(|s: Source| s@) }
    }
}

pub open spec fn entries_view(entries: Seq<EntryConfig>) -> Seq<EntryView> {
    entries.map_values(|e: EntryConfig| e@)
}

/// No two entries share a name.
pub open spec fn names_distinct(entries: Seq<EntryView>) -> bool {
    forall|i: int, j: int|
        0 <= i < entries.len() && 0 <= j < entries.len() && i != j ==> #[trigger] entries[i].name
            != #[trigger] entries[j].name
}

/// Whether some entry is named `name`.
pub open spec fn has_name(entries: Seq<EntryView>, name: Seq<char>) -> bool {
    exists|i: int| 0 <= i < entries.len() && #[trigger] entries[i].name == name
}

/// The immutable map from entry name to configuration.
pub struct CalendarMap {
    entries: Vec<EntryConfig>,
}

impl View for CalendarMap {
    type V = Seq<EntryView>;

    closed spec fn view(&self) -> Seq<EntryView> {
        entries_view(self.entries@)
    }
}

impl CalendarMap {
    pub closed spec fn wf(&self) -> bool {
        names_distinct(self@)
    }

    pub proof fn lemma_wf_distinct(&self)
        requires
            self.wf(),
        ensures
            names_distinct(self@),
    {
    }

    /// Build the registry from configured entries with distinct names.
    pub fn new(entries: Vec<EntryConfig>) -> (r: CalendarMap)
        requires
            names_distinct(entries_view(entries@)),
        ensures
            r.wf(),
            r@ == entries_view(entries@),
    {
        CalendarMap { entries }
    }

    /// The policy every entry of the registry is cached under.
    pub fn policy(&self) -> (r: TtlPolicy)
        ensures
            r.success_ttl == ENTRY_TTL_SECS,
            r.failure_ttl == ENTRY_TTL_SECS,
    {
        TtlPolicy::uniform(ENTRY_TTL_SECS)
    }

    pub fn len(&self) -> (r: usize)
        ensures
            r == self@.len(),
    {
        self.entries.len()
    }

    /// The index of the entry named `name`, or nothing when no entry has it.
    pub fn lookup(&self, name: &str) -> (r: Option<usize>)
        requires
            self.wf(),
        ensures
            r is None <==> !has_name(self@, name@),
            r is Some ==> r->Some_0 < self@.len() && self@[r->Some_0 as int].name == name@,
    {
        let wanted = String::from_str(name);
        let mut i: usize = 0;
        while i < self.entries.len()
            invariant
                i <= self.entries@.len(),
                wanted@ == name@,
                forall|k: int| 0 <= k < i ==> #[trigger] self@[k].name != name@,
            decreases self.entries.len() - i,
        {
            assert(self@[i as int] == self.entries@[i as int]@);
            if self.entries[i].name == wanted {
                assert(self@[i as int].name == name@);
                return Some(i);
            }
            i = i + 1;
        }
        None
    }

    /// The name of the entry at `index`.
    pub fn name_at(&self, index: usize) -> (r: &String)
        requires
            index < self@.len(),
        ensures
            r@ == self@[index as int].name,
    {
        &self.entries[index].name
    }

    /// The sources of the entry at `index`, in order.
    pub fn sources_at(&self, index: usize) -> (r: &Vec<Source>)
        requires
            index < self@.len(),
        ensures
            r@.map_values(|s: Source| s@) == self@[index as int].sources,
    {
        &self.entries[index].sources
    }
}

/// The entry name a request asks for when it names none.
pub fn _index() -> (r: String)
    ensures
        r@ == seq!['i', 'n', 'd', 'e', 'x'],
{
    proof {
        reveal_strlit("index");
    }
    String::from_str("index")
}

/// The name a request asks for: the one it gives, else the default.
pub fn requested_name(given: Option<String>) -> (r: String)
    ensures
        given is Some ==> r == given->Some_0,
        given is None ==> r@ == seq!['i', 'n', 'd', 'e', 'x'],
{
    match given {
        Some(name) => name,
        None => _index(),
    }
}

} // verus!
