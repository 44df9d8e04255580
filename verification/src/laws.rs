//! Library-wide laws: properties of the query builder and the
//! reducer's transition relation, stated and proved over the same
//! spec functions the public contracts use.

use crate::query::{
    encoded, entries_query_spec, filter_query_spec, DateRange, FilterState, QueryMode,
};
use crate::state::{step, Action, App, AppMsg, CacheEntry, DEFAULT_ENTRY_LIMIT};
use crate::text::trim_spec;
use vstd::assert_by_contradiction;
use vstd::prelude::*;

verus! {

/// `p` is a prefix of `s`.
pub open spec fn has_prefix(s: Seq<char>, p: Seq<char>) -> bool {
    p.len() <= s.len() && s.subrange(0, p.len() as int) == p
}

/// A filter state whose search text is empty or was never submitted
/// never yields a search-path query: the entries query always goes to
/// the listing endpoint.
pub proof fn lemma_unsubmitted_search_never_searches(f: FilterState, limit: nat)
    requires
        f.mode matches QueryMode::Filter { .. } || (f.mode matches QueryMode::Search { text }
            && trim_spec(text@).len() == 0),
    ensures
        has_prefix(entries_query_spec(f, limit), "/all/cache"@),
        !has_prefix(entries_query_spec(f, limit), "/search/"@),
{
    let q = entries_query_spec(f, limit);
    reveal_strlit("/all/cache?sort=");
    reveal_strlit("/all/cache");
    reveal_strlit("/search/");
    assert(q.subrange(0, 10) =~= "/all/cache"@);
    assert(q[1] == 'a');
    assert_by_contradiction!(!has_prefix(q, "/search/"@), {
        assert(q.subrange(0, 8)[1] == q[1]);
        assert("/search/"@[1] == 's');
    });
}

/// Submitting a (non-blank) search makes search mode authoritative:
/// the stored query and the started entries fetch are the search path
/// over the trimmed, percent-escaped buffer, and the tag/date filter
/// form no longer contributes to the query.
pub proof fn lemma_search_submission(pre: App, post: App, redraw: bool, actions: Seq<Action>)
    requires
        step(pre, AppMsg::SearchSubmitted, post, redraw, actions),
        trim_spec(pre.filter.search_buffer@).len() > 0,
    ensures
        post.filter.mode matches QueryMode::Search { text } && text == pre.filter.search_buffer,
        post.current_query@ == "/search/"@ + encoded(trim_spec(pre.filter.search_buffer@)),
        actions[0] matches Action::FetchEntries { query, gen } && query@ == "/search/"@ + encoded(
            trim_spec(pre.filter.search_buffer@),
        ) && gen == post.entries_gen,
{
}

/// Once a search is submitted, a further refresh keeps fetching the
/// search query: the previously active tag/date criteria contribute
/// nothing until a filter-path event reverts the mode.
pub proof fn lemma_submitted_search_governs_next_refresh(
    s0: App,
    s1: App,
    s2: App,
    rd1: bool,
    a1: Seq<Action>,
    rd2: bool,
    a2: Seq<Action>,
)
    requires
        step(s0, AppMsg::SearchSubmitted, s1, rd1, a1),
        step(s1, AppMsg::RequestRefresh, s2, rd2, a2),
        trim_spec(s0.filter.search_buffer@).len() > 0,
    ensures
        s2.current_query@ == "/search/"@ + encoded(trim_spec(s0.filter.search_buffer@)),
        a2[0] matches Action::FetchEntries { query, gen } && query@ == "/search/"@ + encoded(
            trim_spec(s0.filter.search_buffer@),
        ),
{
}

/// Selecting a tag and then a date range (filter-path events, in
/// either state the first finds) leaves a filter-mode query carrying
/// both the tag and the date bounds; in particular a tag selection
/// after a search submission reverts to filter mode.
pub proof fn lemma_tag_then_range_compose(
    s0: App,
    s1: App,
    s2: App,
    t: String,
    r: DateRange,
    rd1: bool,
    a1: Seq<Action>,
    rd2: bool,
    a2: Seq<Action>,
)
    requires
        step(s0, AppMsg::TagSelected(Some(t)), s1, rd1, a1),
        step(s1, AppMsg::DateRangeSelected(Some(r)), s2, rd2, a2),
    ensures
        s2.filter.mode matches QueryMode::Filter { tag, range, sort } && tag == Some(t) && range
            == Some(r) && s2.current_query@ == filter_query_spec(
            Some(t@),
            Some(r),
            sort,
            DEFAULT_ENTRY_LIMIT as nat,
        ),
{
}

/// Late completions of a superseded request are discarded: after
/// refresh A and then refresh B, the response to A's entries request
/// changes nothing, and B's request stays the one on record.
pub proof fn lemma_stale_completion_discarded(
    s0: App,
    s1: App,
    s2: App,
    s3: App,
    result: Result<Vec<CacheEntry>, String>,
    rd1: bool,
    a1: Seq<Action>,
    rd2: bool,
    a2: Seq<Action>,
    rd3: bool,
    a3: Seq<Action>,
)
    requires
        step(s0, AppMsg::RequestRefresh, s1, rd1, a1),
        step(s1, AppMsg::RequestRefresh, s2, rd2, a2),
        step(
            s2,
            AppMsg::EntriesReceived { gen: s1.entries_gen, result },
            s3,
            rd3,
            a3,
        ),
    ensures
        s3 == s2,
        s3.entries_pending,
{
}

/// The latest-started request strictly wins: after refresh A and then
/// refresh B, a successful response carrying B's generation is
/// applied.
pub proof fn lemma_latest_refresh_wins(
    s0: App,
    s1: App,
    s2: App,
    s3: App,
    v: Vec<CacheEntry>,
    rd1: bool,
    a1: Seq<Action>,
    rd2: bool,
    a2: Seq<Action>,
    rd3: bool,
    a3: Seq<Action>,
)
    requires
        step(s0, AppMsg::RequestRefresh, s1, rd1, a1),
        step(s1, AppMsg::RequestRefresh, s2, rd2, a2),
        step(
            s2,
            AppMsg::EntriesReceived { gen: s2.entries_gen, result: Ok(v) },
            s3,
            rd3,
            a3,
        ),
    ensures
        s3.entries == Some(v),
        !s3.entries_pending,
        s3.current_query == s2.current_query,
{
}

} // verus!
