//! Filter state and the query builder: turns the current filter set
//! into the canonical path-and-query string sent to the catalog
//! service.

use crate::text::{dec_str, pad2, pad2_spec, pad4, pad4_spec, trim, trim_spec, u64_to_string};
use vstd::prelude::*;
use vstd::string::StringExecFns;

verus! {

/// Sort order of a filtered entry listing.
#[derive(Clone, Copy, PartialEq, Eq, Structural, Debug)]
pub enum SortKey {
    ByDate,
    ByUrl,
}

/// A calendar date, held as plain year/month/day numbers.
#[derive(Clone, Copy, PartialEq, Eq, Structural, Debug)]
pub struct Date {
    pub year: u64,
    pub month: u64,
    pub day: u64,
}

impl Date {
    /// A date the query builder can format: a four-digit year and a
    /// calendar-plausible month and day.
    pub open spec fn wf(self) -> bool {
        &&& self.year <= 9999
        &&& 1 <= self.month <= 12
        &&& 1 <= self.day <= 31
    }
}

/// An inclusive range of dates selected on the timeline.
#[derive(Clone, Copy, PartialEq, Eq, Structural, Debug)]
pub struct DateRange {
    pub start: Date,
    pub end: Date,
}

impl DateRange {
    pub open spec fn wf(self) -> bool {
        self.start.wf() && self.end.wf()
    }
}

/// Which of the two mutually exclusive query forms is authoritative:
/// a tag/date/sort filter listing, or a submitted free-text search.
#[derive(Clone, Debug)]
pub enum QueryMode {
    Filter { tag: Option<String>, range: Option<DateRange>, sort: SortKey },
    Search { text: String },
}

impl QueryMode {
    pub open spec fn wf(self) -> bool {
        self matches QueryMode::Filter { range: Some(r), .. } ==> r.wf()
    }
}

/// The full filter state: the authoritative query mode plus the
/// free-text buffer, which is edited without taking effect until a
/// search is submitted.
#[derive(Clone, Debug)]
pub struct FilterState {
    pub mode: QueryMode,
    pub search_buffer: String,
}

impl FilterState {
    pub open spec fn wf(self) -> bool {
        self.mode.wf()
    }

    /// The filter state at controller start: no tag, no date range,
    /// newest-first order, empty search buffer.
    pub fn new() -> (r: FilterState)
        ensures
            r.mode matches QueryMode::Filter { tag, range, sort } && tag is None && range is None
                && sort == SortKey::ByDate,
            r.search_buffer@ == Seq::<char>::empty(),
            r.wf(),
    {
        FilterState {
            mode: QueryMode::Filter { tag: None, range: None, sort: SortKey::ByDate },
            search_buffer: String::new(),
        }
    }
}

/// What `urlencoding::encode` returns for the given characters: every
/// byte of the UTF-8 form outside alphanumerics and `-`, `_`, `.`, `~`
/// percent-escaped. The result depends on the input alone.
pub uninterp spec fn encoded(s: Seq<char>) -> Seq<char>;

/// Relies on `urlencoding::encode` to percent-escape the text of a
/// free-text search before it is placed in the query path.
#[verifier::external_body]
fn percent_encode(s: &str) -> (r: String)
    ensures
        r@ == encoded(s@),
{
    urlencoding::encode(s).into_owned()
}

/// The query fragment naming the sort order.
pub open spec fn sort_str(sort: SortKey) -> Seq<char> {
    match sort {
        SortKey::ByDate => "time"@,
        SortKey::ByUrl => "url"@,
    }
}

/// A date as `YYYY-MM-DD`.
pub open spec fn ymd_spec(d: Date) -> Seq<char> {
    pad4_spec(d.year as nat) + "-"@ + pad2_spec(d.month as nat) + "-"@ + pad2_spec(d.day as nat)
}

/// Formats a date as `YYYY-MM-DD`.
pub fn format_date(d: &Date) -> (r: String)
    ensures
        r@ == ymd_spec(*d),
{
    let mut s = pad4(d.year);
    s.append("-");
    let m = pad2(d.month);
    s.append(m.as_str());
    s.append("-");
    let dd = pad2(d.day);
    s.append(dd.as_str());
    proof {
        assert(s@ =~= ymd_spec(*d));
    }
    s
}

/// The listing query for the given filter criteria:
/// `/all/cache?sort=S[&tag=T][&startDate=A&endDate=B]&limit=N`.
pub open spec fn filter_query_spec(
    tag: Option<Seq<char>>,
    range: Option<DateRange>,
    sort: SortKey,
    limit: nat,
) -> Seq<char> {
    "/all/cache?sort="@ + sort_str(sort) + (match tag {
        Some(t) => "&tag="@ + t,
        None => Seq::<char>::empty(),
    }) + (match range {
        Some(r) => "&startDate="@ + ymd_spec(r.start) + "&endDate="@ + ymd_spec(r.end),
        None => Seq::<char>::empty(),
    }) + "&limit="@ + dec_str(limit)
}

/// The entries query a filter state denotes. A submitted search whose
/// text trims to non-empty is a search-path query over the escaped
/// text; anything else is a listing query, with the default criteria
/// when the mode is an empty search.
pub open spec fn entries_query_spec(f: FilterState, limit: nat) -> Seq<char> {
    match f.mode {
        QueryMode::Search { text } => {
            if trim_spec(text@).len() > 0 {
                "/search/"@ + encoded(trim_spec(text@))
            } else {
                filter_query_spec(None, None, SortKey::ByDate, limit)
            }
        },
        QueryMode::Filter { tag, range, sort } => {
            filter_query_spec(
                match tag {
                    Some(t) => Some(t@),
                    None => None,
                },
                range,
                sort,
                limit,
            )
        },
    }
}

/// The tag-frequency query: `/all/tags?min=N`.
pub open spec fn tags_query_spec(min_frequency: nat) -> Seq<char> {
    "/all/tags?min="@ + dec_str(min_frequency)
}

/// Builds the entries query for the current filter state. Pure: the
/// same filter state and limit always give the same descriptor.
pub fn build_entries_query(f: &FilterState, limit: u64) -> (r: String)
    ensures
        r@ == entries_query_spec(*f, limit as nat),
{
    match &f.mode {
        QueryMode::Search { text } => {
            let trimmed = trim(text.as_str());
            if trimmed.unicode_len() > 0 {
                let mut q = String::from_str("/search/");
                let enc = percent_encode(trimmed);
                q.append(enc.as_str());
                proof {
                    assert(q@ =~= entries_query_spec(*f, limit as nat));
                }
                q
            } else {
                let q = build_filter_query(&None, &None, SortKey::ByDate, limit);
                q
            }
        },
        QueryMode::Filter { tag, range, sort } => {
            let q = build_filter_query(tag, range, *sort, limit);
            q
        },
    }
}

/// Builds the listing query for the given criteria.
fn build_filter_query(
    tag: &Option<String>,
    range: &Option<DateRange>,
    sort: SortKey,
    limit: u64,
) -> (r: String)
    ensures
        r@ == filter_query_spec(
            match *tag {
                Some(t) => Some(t@),
                None => None,
            },
            *range,
            sort,
            limit as nat,
        ),
{
    let mut q = String::from_str("/all/cache?sort=");
    match sort {
        SortKey::ByDate => q.append("time"),
        SortKey::ByUrl => q.append("url"),
    }
    match tag {
        Some(t) => {
            q.append("&tag=");
            q.append(t.as_str());
        },
        None => {},
    }
    match range {
        Some(r) => {
            q.append("&startDate=");
            let a = format_date(&r.start);
            q.append(a.as_str());
            q.append("&endDate=");
            let b = format_date(&r.end);
            q.append(b.as_str());
        },
        None => {},
    }
    q.append("&limit=");
    let l = u64_to_string(limit);
    q.append(l.as_str());
    proof {
        assert(q@ =~= filter_query_spec(
            match *tag {
                Some(t) => Some(t@),
                None => None,
            },
            *range,
            sort,
            limit as nat,
        ));
    }
    q
}

/// Builds the tag-frequency query, independent of the entry filters.
pub fn build_tags_query(min_frequency: u64) -> (r: String)
    ensures
        r@ == tags_query_spec(min_frequency as nat),
{
    let mut q = String::from_str("/all/tags?min=");
    let m = u64_to_string(min_frequency);
    q.append(m.as_str());
    proof {
        assert(q@ =~= tags_query_spec(min_frequency as nat));
    }
    q
}

} // verus!
