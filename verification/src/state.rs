//! The event reducer: the single entry point that receives external
//! events, owns the application state, and decides which remote
//! requests to start.
//!
//! In-flight requests are tracked per resource kind by a generation
//! counter: each started request carries the generation it was started
//! with, and a completion is applied only while its generation is the
//! one on record, so a superseded request's late result is discarded
//! rather than overwriting fresher data.

use crate::query::{
    build_entries_query, build_tags_query, entries_query_spec, tags_query_spec, DateRange,
    FilterState, QueryMode, SortKey,
};
use vstd::prelude::*;
use vstd::string::StringExecFns;

verus! {

/// Fixed cap on the number of entries a listing query asks for.
pub const DEFAULT_ENTRY_LIMIT: u64 = 150;

/// Minimum tag frequency the tag listing asks for.
pub const MIN_TAG_FREQUENCY: u64 = 10;

/// One catalog record: an address, a timestamp, and its tags.
/// Immutable once received.
#[derive(Clone, Debug)]
pub struct CacheEntry {
    pub url: String,
    pub time: i64,
    pub tags: Vec<String>,
}

/// An external event fed to the reducer: user interaction, request
/// completion, or keyboard input.
#[derive(Debug)]
pub enum AppMsg {
    RequestRefresh,
    EntriesReceived { gen: u64, result: Result<Vec<CacheEntry>, String> },
    TagsReceived { gen: u64, result: Result<Vec<String>, String> },
    KeyDown,
    EntrySelected(Option<CacheEntry>),
    TagSelected(Option<String>),
    DateRangeSelected(Option<DateRange>),
    SortChanged(SortKey),
    SearchTextChanged(String),
    SearchKeyPressed(String),
    SearchSubmitted,
}

impl AppMsg {
    /// A date range handed in by an event must be a formattable
    /// calendar range.
    pub open spec fn wf(self) -> bool {
        self matches AppMsg::DateRangeSelected(Some(r)) ==> r.wf()
    }
}

/// A remote fetch the caller must start, tagged with the generation
/// the reducer recorded for it.
#[derive(Debug)]
pub enum Action {
    FetchEntries { query: String, gen: u64 },
    FetchTags { query: String, gen: u64 },
}

/// The root application state, mutated exclusively by [`App::update`].
#[derive(Debug)]
pub struct App {
    pub entries: Option<Vec<CacheEntry>>,
    pub tags: Option<Vec<String>>,
    pub selected_entry: Option<CacheEntry>,
    pub filter: FilterState,
    pub current_query: String,
    pub last_error: Option<String>,
    pub entries_gen: u64,
    pub entries_pending: bool,
    pub tags_gen: u64,
    pub tags_pending: bool,
}

/// The loaded data and error slot are the same in both states.
pub open spec fn data_unchanged(pre: App, post: App) -> bool {
    &&& post.entries == pre.entries
    &&& post.tags == pre.tags
    &&& post.selected_entry == pre.selected_entry
    &&& post.last_error == pre.last_error
}

/// The request tracking of both kinds is the same in both states.
pub open spec fn requests_unchanged(pre: App, post: App) -> bool {
    &&& post.entries_gen == pre.entries_gen
    &&& post.entries_pending == pre.entries_pending
    &&& post.tags_gen == pre.tags_gen
    &&& post.tags_pending == pre.tags_pending
}

/// Both requests were restarted: the stored query matches the (new)
/// filter state, both generations advanced, and the two actions fetch
/// entries and tags under the new generations.
pub open spec fn refreshed(pre: App, post: App, actions: Seq<Action>) -> bool {
    &&& post.current_query@ == entries_query_spec(post.filter, DEFAULT_ENTRY_LIMIT as nat)
    &&& post.entries_gen == pre.entries_gen + 1
    &&& post.entries_pending
    &&& post.tags_gen == pre.tags_gen + 1
    &&& post.tags_pending
    &&& actions.len() == 2
    &&& actions[0] matches Action::FetchEntries { query, gen } && query@ == post.current_query@
        && gen == post.entries_gen
    &&& actions[1] matches Action::FetchTags { query, gen } && query@ == tags_query_spec(
        MIN_TAG_FREQUENCY as nat,
    ) && gen == post.tags_gen
}

/// The query mode after a tag selection: the tag slot is replaced;
/// a search mode reverts to a fresh filter mode holding only the tag.
pub open spec fn mode_with_tag(m: QueryMode, t: Option<String>) -> QueryMode {
    match m {
        QueryMode::Filter { tag: _, range, sort } => QueryMode::Filter { tag: t, range, sort },
        QueryMode::Search { .. } => QueryMode::Filter {
            tag: t,
            range: None,
            sort: SortKey::ByDate,
        },
    }
}

/// The query mode after a date-range selection, symmetric to
/// [`mode_with_tag`].
pub open spec fn mode_with_range(m: QueryMode, r: Option<DateRange>) -> QueryMode {
    match m {
        QueryMode::Filter { tag, range: _, sort } => QueryMode::Filter { tag, range: r, sort },
        QueryMode::Search { .. } => QueryMode::Filter {
            tag: None,
            range: r,
            sort: SortKey::ByDate,
        },
    }
}

/// The query mode after a sort change, symmetric to [`mode_with_tag`].
pub open spec fn mode_with_sort(m: QueryMode, k: SortKey) -> QueryMode {
    match m {
        QueryMode::Filter { tag, range, sort: _ } => QueryMode::Filter { tag, range, sort: k },
        QueryMode::Search { .. } => QueryMode::Filter { tag: None, range: None, sort: k },
    }
}

/// The state changed its query mode to `m` and restarted both
/// requests; nothing else moved.
pub open spec fn refiltered(pre: App, post: App, actions: Seq<Action>, m: QueryMode) -> bool {
    &&& post.filter.mode == m
    &&& post.filter.search_buffer == pre.filter.search_buffer
    &&& data_unchanged(pre, post)
    &&& refreshed(pre, post, actions)
}

/// Nothing happened: the state, and nothing to draw or start.
pub open spec fn no_op(pre: App, post: App, redraw: bool, actions: Seq<Action>) -> bool {
    &&& post == pre
    &&& !redraw
    &&& actions.len() == 0
}

/// The full transition relation of the reducer: how each event maps
/// the previous state to the next one, whether the view must be
/// redrawn, and which fetches to start.
pub open spec fn step(pre: App, msg: AppMsg, post: App, redraw: bool, actions: Seq<Action>) -> bool {
    match msg {
        AppMsg::RequestRefresh => {
            &&& post.filter == pre.filter
            &&& data_unchanged(pre, post)
            &&& refreshed(pre, post, actions)
            &&& redraw
        },
        AppMsg::EntriesReceived { gen, result } => {
            if gen == pre.entries_gen && pre.entries_pending {
                &&& !post.entries_pending
                &&& post.entries_gen == pre.entries_gen
                &&& post.tags_gen == pre.tags_gen
                &&& post.tags_pending == pre.tags_pending
                &&& (result matches Ok(v) ==> post.entries == Some(v) && post.last_error
                    == pre.last_error)
                &&& (result matches Err(e) ==> post.entries == pre.entries && post.last_error
                    == Some(e))
                &&& post.tags == pre.tags
                &&& post.selected_entry == pre.selected_entry
                &&& post.filter == pre.filter
                &&& post.current_query == pre.current_query
                &&& redraw
                &&& actions.len() == 0
            } else {
                no_op(pre, post, redraw, actions)
            }
        },
        AppMsg::TagsReceived { gen, result } => {
            if gen == pre.tags_gen && pre.tags_pending {
                &&& !post.tags_pending
                &&& post.tags_gen == pre.tags_gen
                &&& post.entries_gen == pre.entries_gen
                &&& post.entries_pending == pre.entries_pending
                &&& (result matches Ok(v) ==> post.tags == Some(v) && post.last_error
                    == pre.last_error)
                &&& (result matches Err(e) ==> post.tags == pre.tags && post.last_error == Some(
                    e,
                ))
                &&& post.entries == pre.entries
                &&& post.selected_entry == pre.selected_entry
                &&& post.filter == pre.filter
                &&& post.current_query == pre.current_query
                &&& redraw
                &&& actions.len() == 0
            } else {
                no_op(pre, post, redraw, actions)
            }
        },
        AppMsg::KeyDown => no_op(pre, post, redraw, actions),
        AppMsg::EntrySelected(e) => {
            &&& post.selected_entry == e
            &&& post.entries == pre.entries
            &&& post.tags == pre.tags
            &&& post.last_error == pre.last_error
            &&& post.filter == pre.filter
            &&& post.current_query == pre.current_query
            &&& requests_unchanged(pre, post)
            &&& redraw
            &&& actions.len() == 0
        },
        AppMsg::TagSelected(t) => refiltered(pre, post, actions, mode_with_tag(pre.filter.mode, t))
            && redraw,
        AppMsg::DateRangeSelected(r) => refiltered(
            pre,
            post,
            actions,
            mode_with_range(pre.filter.mode, r),
        ) && redraw,
        AppMsg::SortChanged(k) => refiltered(pre, post, actions, mode_with_sort(pre.filter.mode, k))
            && redraw,
        AppMsg::SearchTextChanged(s) => {
            &&& post.filter.search_buffer == s
            &&& post.filter.mode == pre.filter.mode
            &&& post.current_query == pre.current_query
            &&& data_unchanged(pre, post)
            &&& requests_unchanged(pre, post)
            &&& !redraw
            &&& actions.len() == 0
        },
        AppMsg::SearchKeyPressed(key) => {
            if key@ == "Enter"@ {
                submitted(pre, post, actions) && redraw
            } else {
                no_op(pre, post, redraw, actions)
            }
        },
        AppMsg::SearchSubmitted => submitted(pre, post, actions) && redraw,
    }
}

/// The search buffer became the authoritative query mode and both
/// requests were restarted.
pub open spec fn submitted(pre: App, post: App, actions: Seq<Action>) -> bool {
    &&& post.filter.mode matches QueryMode::Search { text } && text == pre.filter.search_buffer
    &&& post.filter.search_buffer == pre.filter.search_buffer
    &&& data_unchanged(pre, post)
    &&& refreshed(pre, post, actions)
}

impl App {
    /// The state invariant: the filter state is well formed and the
    /// stored query is the one its filter state denotes.
    pub open spec fn wf(self) -> bool {
        &&& self.filter.wf()
        &&& self.current_query@ == entries_query_spec(self.filter, DEFAULT_ENTRY_LIMIT as nat)
    }

    /// Creates the controller in its default state and returns the
    /// initial refresh: both fetches are started immediately.
    pub fn new() -> (r: (App, Vec<Action>))
        ensures
            r.0.wf(),
            r.0.entries is None,
            r.0.tags is None,
            r.0.selected_entry is None,
            r.0.last_error is None,
            r.0.filter.mode matches QueryMode::Filter { tag, range, sort } && tag is None
                && range is None && sort == SortKey::ByDate,
            r.0.filter.search_buffer@ == Seq::<char>::empty(),
            r.0.entries_gen == 1 && r.0.entries_pending,
            r.0.tags_gen == 1 && r.0.tags_pending,
            r.1@.len() == 2,
            r.1@[0] matches Action::FetchEntries { query, gen } && query@ == r.0.current_query@
                && gen == 1,
            r.1@[1] matches Action::FetchTags { query, gen } && query@ == tags_query_spec(
                MIN_TAG_FREQUENCY as nat,
            ) && gen == 1,
    {
        let filter = FilterState::new();
        let q = build_entries_query(&filter, DEFAULT_ENTRY_LIMIT);
        let mut app = App {
            entries: None,
            tags: None,
            selected_entry: None,
            filter,
            current_query: q,
            last_error: None,
            entries_gen: 0,
            entries_pending: false,
            tags_gen: 0,
            tags_pending: false,
        };
        let actions = app.refresh();
        (app, actions)
    }

    /// Restarts both requests against the current filter state.
    fn refresh(&mut self) -> (actions: Vec<Action>)
        requires
            old(self).filter.wf(),
            old(self).entries_gen < u64::MAX,
            old(self).tags_gen < u64::MAX,
        ensures
            final(self).filter == old(self).filter,
            data_unchanged(*old(self), *final(self)),
            refreshed(*old(self), *final(self), actions@),
            final(self).wf(),
    {
        let q = build_entries_query(&self.filter, DEFAULT_ENTRY_LIMIT);
        self.current_query = q;
        self.entries_gen = self.entries_gen + 1;
        self.entries_pending = true;
        self.tags_gen = self.tags_gen + 1;
        self.tags_pending = true;
        let mut actions: Vec<Action> = Vec::new();
        let entries_query = self.current_query.clone();
        actions.push(Action::FetchEntries { query: entries_query, gen: self.entries_gen });
        let tq = build_tags_query(MIN_TAG_FREQUENCY);
        actions.push(Action::FetchTags { query: tq, gen: self.tags_gen });
        actions
    }

    /// Makes the search buffer authoritative and restarts both
    /// requests.
    fn submit_search(&mut self) -> (actions: Vec<Action>)
        requires
            old(self).entries_gen < u64::MAX,
            old(self).tags_gen < u64::MAX,
        ensures
            submitted(*old(self), *final(self), actions@),
            final(self).wf(),
    {
        let text = self.filter.search_buffer.clone();
        self.filter.mode = QueryMode::Search { text };
        self.refresh()
    }

    /// Applies one event to the state: the only place the state is
    /// mutated. Returns whether the view must be redrawn and the
    /// fetches the caller must start.
    pub fn update(&mut self, msg: AppMsg) -> (r: (bool, Vec<Action>))
        requires
            old(self).wf(),
            old(self).entries_gen < u64::MAX,
            old(self).tags_gen < u64::MAX,
            msg.wf(),
        ensures
            step(*old(self), msg, *final(self), r.0, r.1@),
            final(self).wf(),
    {
        match msg {
            AppMsg::RequestRefresh => {
                let actions = self.refresh();
                (true, actions)
            },
            AppMsg::EntriesReceived { gen, result } => {
                if gen == self.entries_gen && self.entries_pending {
                    self.entries_pending = false;
                    match result {
                        Ok(v) => {
                            self.entries = Some(v);
                        },
                        Err(e) => {
                            self.last_error = Some(e);
                        },
                    }
                    (true, Vec::new())
                } else {
                    (false, Vec::new())
                }
            },
            AppMsg::TagsReceived { gen, result } => {
                if gen == self.tags_gen && self.tags_pending {
                    self.tags_pending = false;
                    match result {
                        Ok(v) => {
                            self.tags = Some(v);
                        },
                        Err(e) => {
                            self.last_error = Some(e);
                        },
                    }
                    (true, Vec::new())
                } else {
                    (false, Vec::new())
                }
            },
            AppMsg::KeyDown => (false, Vec::new()),
            AppMsg::EntrySelected(e) => {
                self.selected_entry = e;
                (true, Vec::new())
            },
            AppMsg::TagSelected(t) => {
                let new_mode = match &self.filter.mode {
                    QueryMode::Filter { tag: _, range, sort } => QueryMode::Filter {
                        tag: t,
                        range: *range,
                        sort: *sort,
                    },
                    QueryMode::Search { .. } => QueryMode::Filter {
                        tag: t,
                        range: None,
                        sort: SortKey::ByDate,
                    },
                };
                self.filter.mode = new_mode;
                let actions = self.refresh();
                (true, actions)
            },
            AppMsg::DateRangeSelected(r) => {
                let new_mode = match &self.filter.mode {
                    QueryMode::Filter { tag, range: _, sort } => QueryMode::Filter {
                        tag: tag.clone(),
                        range: r,
                        sort: *sort,
                    },
                    QueryMode::Search { .. } => QueryMode::Filter {
                        tag: None,
                        range: r,
                        sort: SortKey::ByDate,
                    },
                };
                self.filter.mode = new_mode;
                let actions = self.refresh();
                (true, actions)
            },
            AppMsg::SortChanged(k) => {
                let new_mode = match &self.filter.mode {
                    QueryMode::Filter { tag, range, sort: _ } => QueryMode::Filter {
                        tag: tag.clone(),
                        range: *range,
                        sort: k,
                    },
                    QueryMode::Search { .. } => QueryMode::Filter {
                        tag: None,
                        range: None,
                        sort: k,
                    },
                };
                self.filter.mode = new_mode;
                let actions = self.refresh();
                (true, actions)
            },
            AppMsg::SearchTextChanged(s) => {
                self.filter.search_buffer = s;
                (false, Vec::new())
            },
            AppMsg::SearchKeyPressed(key) => {
                let enter = String::from_str("Enter");
                if key == enter {
                    let actions = self.submit_search();
                    (true, actions)
                } else {
                    (false, Vec::new())
                }
            },
            AppMsg::SearchSubmitted => {
                let actions = self.submit_search();
                (true, actions)
            },
        }
    }
}

} // verus!
