//! Gathering the calendars of one entry, source by source.
//!
//! The caller fetches each source's text in the order `next` gives and hands
//! it to `record`, or reports that the fetch failed. Each text is unfolded,
//! parsed, and labelled with its source. The first failure ends the gathering
//! and becomes the outcome of the whole entry: calendars gathered before it
//! are dropped.
use vstd::prelude::*;

verus! {

#[verifier::external_type_specification]
#[verifier::external_body]
pub struct ExCalendar(icalendar::Calendar);

#[verifier::external_type_specification]
#[verifier::external_body]
pub struct ExCalendarComponent(icalendar::CalendarComponent);

/// Why an entry could not be gathered.
#[derive(Clone, Copy, Debug, PartialEq, Eq, Structural)]
pub enum FetchError {
    /// A source could not be fetched.
    Upstream,
    /// A source's text is not a calendar.
    Parse,
}

/// The text with its folded lines joined again.
pub uninterp spec fn unfolded(s: Seq<char>) -> Seq<char>;

/// Whether an unfolded text reads as a calendar.
pub uninterp spec fn parses(s: Seq<char>) -> bool;

/// Relies on icalendar::parser::unfold, which removes each line break together
/// with the space or tab that follows it; the result depends on the text alone.
#[verifier::external_body]
fn unfold_text(s: &str) -> (r: String)
    ensures
        r@ == unfolded(s@),
{
    icalendar::parser::unfold(s)
}

/// Relies on icalendar::parser::read_calendar, whose success depends on the
/// text alone, and on icalendar's `From` from its parsed form to `Calendar`.
#[verifier::external_body]
fn read_text(s: &str) -> (r: Option<icalendar::Calendar>)
    ensures
        r is Some <==> parses(s@),
{
    icalendar::parser::read_calendar(s).ok().map(icalendar::Calendar::from)
}

/// Relies on icalendar::Calendar::name, which adds the NAME and X-WR-CALNAME
/// properties to the calendar.
#[verifier::external_body]
fn set_name(cal: &mut icalendar::Calendar, name: &str) {
    cal.name(name);
}

/// Parse one source's text and label the calendar with the source's label.
pub fn parse_feed(text: &str, label: &str) -> (r: Result<icalendar::Calendar, FetchError>)
    ensures
        r is Ok <==> parses(unfolded(text@)),
        r is Err ==> r == Err::<icalendar::Calendar, FetchError>(FetchError::Parse),
{
    let unfolded_text = unfold_text(text);
    match read_text(unfolded_text.as_str()) {
        Some(mut cal) => {
            set_name(&mut cal, label);
            Ok(cal)
        },
        None => Err(FetchError::Parse),
    }
}

/// The outcome of one source, as far as gathering is concerned.
pub open spec fn source_failure(fetched: Option<Seq<char>>) -> Option<FetchError> {
    match fetched {
        None => Some(FetchError::Upstream),
        Some(t) => if parses(unfolded(t)) {
            None
        } else {
            Some(FetchError::Parse)
        },
    }
}

/// The progress of gathering one entry's sources.
pub struct Gathering {
    total: usize,
    feeds: Vec<icalendar::Calendar>,
    failure: Option<FetchError>,
}

impl Gathering {
    /// How many sources the entry has.
    pub closed spec fn total(&self) -> nat {
        self.total as nat
    }

    /// How many sources were gathered so far.
    pub closed spec fn gathered(&self) -> nat {
        self.feeds@.len()
    }

    /// The failure that ended the gathering, if any.
    pub closed spec fn failure(&self) -> Option<FetchError> {
        self.failure
    }

    pub closed spec fn wf(&self) -> bool {
        self.feeds@.len() <= self.total
    }

    /// Whether another source is still to be fetched.
    pub open spec fn pending(&self) -> bool {
        self.failure() is None && self.gathered() < self.total()
    }

    /// Start gathering an entry of `total` sources.
    pub fn new(total: usize) -> (r: Gathering)
        ensures
            r.wf(),
            r.total() == total,
            r.gathered() == 0,
            r.failure() is None,
    {
        Gathering { total, feeds: Vec::new(), failure: None }
    }

    /// The index of the source to fetch next, or nothing when gathering is over.
    pub fn next(&self) -> (r: Option<usize>)
        requires
            self.wf(),
        ensures
            r is Some <==> self.pending(),
            r is Some ==> r->Some_0 == self.gathered(),
    {
        if self.failure.is_none() && self.feeds.len() < self.total {
            Some(self.feeds.len())
        } else {
            None
        }
    }

    /// Record what fetching the next source gave: its text, or nothing when
    /// the fetch failed.
    pub fn record(&mut self, label: &str, fetched: Option<String>)
        requires
            old(self).wf(),
            old(self).pending(),
        ensures
            final(self).wf(),
            final(self).total() == old(self).total(),
            final(self).failure() == source_failure(
                match fetched {
                    Some(t) => Some(t@),
                    None => None,
                },
            ),
            final(self).failure() is None ==> final(self).gathered() == old(self).gathered() + 1,
            final(self).failure() is Some ==> final(self).gathered() == old(self).gathered(),
    {
        match fetched {
            None => {
                self.failure = Some(FetchError::Upstream);
            },
            Some(text) => match parse_feed(text.as_str(), label) {
                Ok(cal) => {
                    self.feeds.push(cal);
                },
                Err(e) => {
                    self.failure = Some(e);
                },
            },
        }
    }

    /// The entry's value: every source's calendar in order, or the failure.
    pub fn finish(self) -> (r: Result<Vec<icalendar::Calendar>, FetchError>)
        requires
            self.wf(),
            !self.pending(),
        ensures
            self.failure() is Some <==> r is Err,
            r is Err ==> r->Err_0 == self.failure()->Some_0,
            r is Ok ==> r->Ok_0@.len() == self.total(),
    {
        match self.failure {
            Some(e) => Err(e),
            None => Ok(self.feeds),
        }
    }
}

} // verus!
