//! Combining the calendars fetched for one entry.
//!
//! A calendar is seen here as what the transforms read of it: an optional
//! source label and, in order, its components with their kind and title.
//! Merging keeps every component, in source order and then component order,
//! and prefixes the title of each event and task with its source's label.
//! Appending joins the serialized calendars back to back.
use vstd::prelude::*;
use vstd::string::StringExecFns;

verus! {

/// Stands in for a missing label or a missing title.
pub open spec fn placeholder_text() -> Seq<char> {
    seq!['U', 'N', 'K', 'N', 'O', 'W', 'N']
}

/// Stands between a label and a title.
pub open spec fn separator_text() -> Seq<char> {
    seq![' ', '-', ' ']
}

/// The kind of a component, as far as the merge distinguishes them.
#[derive(Clone, Copy, Debug, PartialEq, Eq, Structural)]
pub enum ItemKind {
    Event,
    Todo,
    Other,
}

/// One component of a calendar: its kind and its title, if it has one.
pub struct Item {
    pub kind: ItemKind,
    pub summary: Option<String>,
}

/// One fetched calendar: the label of its source and its components in order.
pub struct Feed {
    pub label: Option<String>,
    pub items: Vec<Item>,
}

/// A component of the merged calendar, with the place it came from.
pub struct MergedItem {
    pub source: usize,
    pub position: usize,
    pub kind: ItemKind,
    pub summary: Option<String>,
}

/// The merged calendar: its name and its components in order.
pub struct MergedCalendar {
    pub name: String,
    pub items: Vec<MergedItem>,
}

pub ghost struct ItemView {
    pub kind: ItemKind,
    pub summary: Option<Seq<char>>,
}

pub ghost struct FeedView {
    pub label: Option<Seq<char>>,
    pub items: Seq<ItemView>,
}

pub ghost struct MergedItemView {
    pub source: nat,
    pub position: nat,
    pub kind: ItemKind,
    pub summary: Option<Seq<char>>,
}

pub open spec fn text_of(o: Option<String>) -> Option<Seq<char>> {
    match o {
        Some(s) => Some(s@),
        None => None,
    }
}

impl View for Item {
    type V = ItemView;

    open spec fn view(&self) -> ItemView {
        ItemView { kind: self.kind, summary: text_of(self.summary) }
    }
}

impl View for Feed {
    type V = FeedView;

    open spec fn view(&self) -> FeedView {
        FeedView { label: text_of(self.label), items: self.items@.map_values(|i: Item| i@) }
    }
}

impl View for MergedItem {
    type V = MergedItemView;

    open spec fn view(&self) -> MergedItemView {
        MergedItemView {
            source: self.source as nat,
            position: self.position as nat,
            kind: self.kind,
            summary: text_of(self.summary),
        }
    }
}

pub open spec fn feeds_view(feeds: Seq<Feed>) -> Seq<FeedView> {
    feeds.map_values(|f: Feed| f@)
}

pub open spec fn merged_view(items: Seq<MergedItem>) -> Seq<MergedItemView> {
    items.map_values(|m: MergedItem| m@)
}

pub open spec fn or_placeholder(o: Option<Seq<char>>) -> Seq<char> {
    match o {
        Some(s) => s,
        None => placeholder_text(),
    }
}

/// `"<label> - <title>"`, each part replaced by the placeholder when absent.
pub open spec fn retitle(label: Option<Seq<char>>, title: Option<Seq<char>>) -> Seq<char> {
    or_placeholder(label) + separator_text() + or_placeholder(title)
}

/// Events and tasks get the prefixed title; other components keep theirs.
pub open spec fn merged_item(
    label: Option<Seq<char>>,
    item: ItemView,
    source: nat,
    position: nat,
) -> MergedItemView {
    MergedItemView {
        source,
        position,
        kind: item.kind,
        summary: match item.kind {
            ItemKind::Other => item.summary,
            _ => Some(retitle(label, item.summary)),
        },
    }
}

/// The merged components of the feed at index `source`, in its own order.
pub open spec fn feed_merged(f: FeedView, source: nat) -> Seq<MergedItemView> {
    Seq::new(f.items.len(), |j: int| merged_item(f.label, f.items[j], source, j as nat))
}

/// The merged components of all feeds: feed by feed, each in its own order.
pub open spec fn merged_items(feeds: Seq<FeedView>) -> Seq<MergedItemView>
    decreases feeds.len(),
{
    if feeds.len() == 0 {
        Seq::empty()
    } else {
        merged_items(feeds.drop_last()) + feed_merged(feeds.last(), (feeds.len() - 1) as nat)
    }
}

/// The texts joined back to back, in order, with nothing between them.
pub open spec fn concat_all(texts: Seq<Seq<char>>) -> Seq<char>
    decreases texts.len(),
{
    if texts.len() == 0 {
        Seq::empty()
    } else {
        concat_all(texts.drop_last()) + texts.last()
    }
}

fn text_or_placeholder(o: &Option<String>) -> (r: &str)
    ensures
        r@ == or_placeholder(text_of(*o)),
{
    match o {
        Some(s) => s.as_str(),
        None => {
            proof {
                reveal_strlit("UNKNOWN");
            }
            "UNKNOWN"
        },
    }
}

fn copy_text(o: &Option<String>) -> (r: Option<String>)
    ensures
        r == *o,
{
    match o {
        Some(s) => Some(s.clone()),
        None => None,
    }
}

/// The title an event or task of a labelled source carries in the merge.
pub fn prefixed_title(label: &Option<String>, title: &Option<String>) -> (r: String)
    ensures
        r@ == retitle(text_of(*label), text_of(*title)),
{
    let mut r = String::from_str(text_or_placeholder(label));
    proof {
        reveal_strlit(" - ");
    }
    r.append(" - ");
    r.append(text_or_placeholder(title));
    r
}

/// Merge the feeds into one calendar named `name`.
pub fn merge(name: &str, feeds: &Vec<Feed>) -> (r: MergedCalendar)
    ensures
        r.name@ == name@,
        merged_view(r.items@) == merged_items(feeds_view(feeds@)),
{
    let ghost fv = feeds_view(feeds@);
    let mut out: Vec<MergedItem> = Vec::new();
    let mut i: usize = 0;
    while i < feeds.len()
        invariant
            i <= feeds.len(),
            fv == feeds_view(feeds@),
            merged_view(out@) == merged_items(fv.take(i as int)),
        decreases feeds.len() - i,
    {
        let feed = &feeds[i];
        assert(fv[i as int] == feed@);
        let mut j: usize = 0;
        while j < feed.items.len()
            invariant
                i < feeds.len(),
                feed == feeds[i as int],
                j <= feed.items.len(),
                merged_view(out@) == merged_items(fv.take(i as int)) + feed_merged(feed@, i as nat).take(j as int),
            decreases feed.items.len() - j,
        {
            let item = &feed.items[j];
            assert(feed@.items[j as int] == item@);
            let summary = match item.kind {
                ItemKind::Other => copy_text(&item.summary),
                _ => Some(prefixed_title(&feed.label, &item.summary)),
            };
            let m = MergedItem { source: i, position: j, kind: item.kind, summary };
            assert(m@ == feed_merged(feed@, i as nat)[j as int]);
            let ghost before = out@;
            out.push(m);
            assert(merged_view(out@) =~= merged_view(before) + seq![m@]);
            assert(feed_merged(feed@, i as nat).take(j + 1) =~= feed_merged(feed@, i as nat).take(j as int) + seq![m@]);
            j = j + 1;
        }
        assert(fv.take(i + 1).drop_last() =~= fv.take(i as int));
        assert(feed_merged(feed@, i as nat).take(j as int) =~= feed_merged(feed@, i as nat));
        i = i + 1;
    }
    assert(fv.take(i as int) =~= fv);
    MergedCalendar { name: String::from_str(name), items: out }
}

/// Join serialized calendars back to back, each left as it is.
pub fn append_texts(texts: &Vec<String>) -> (r: String)
    ensures
        r@ == concat_all(texts@.map_values(|t: String| t@)),
{
    let ghost tv = texts@.map_values(|t: String| t@);
    let mut out = String::new();
    let mut i: usize = 0;
    while i < texts.len()
        invariant
            i <= texts.len(),
            tv == texts@.map_values(|t: String| t@),
            out@ == concat_all(tv.take(i as int)),
        decreases texts.len() - i,
    {
        out.append(texts[i].as_str());
        assert(tv.take(i + 1).drop_last() =~= tv.take(i as int));
        i = i + 1;
    }
    assert(tv.take(i as int) =~= tv);
    out
}

/// Appending two serialized calendars gives the first followed directly by
/// the second.
pub proof fn lemma_append_two(t1: Seq<char>, t2: Seq<char>)
    ensures
        concat_all(seq![t1, t2]) == t1 + t2,
{
    let s = seq![t1, t2];
    assert(s.drop_last() =~= seq![t1]);
    assert(seq![t1].drop_last() =~= Seq::<Seq<char>>::empty());
    assert(concat_all(Seq::<Seq<char>>::empty()) == Seq::<char>::empty());
    assert(seq![t1].last() == t1);
    assert(Seq::<char>::empty() + t1 =~= t1);
    assert(concat_all(seq![t1]) == t1);
    assert(s.last() == t2);
}

} // verus!
