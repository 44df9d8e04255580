//! The view router: maps a requested view name plus the current state
//! to a renderable view description. Resolution is a pure function of
//! an immutable state snapshot; switching views never touches the
//! state itself.

use crate::state::{App, CacheEntry};
use vstd::prelude::*;

verus! {

/// The named top-level views.
#[derive(Clone, Copy, PartialEq, Eq, Structural, Debug)]
pub enum ViewName {
    Gallery,
    AddNote,
    Detail,
    Space,
    Queue,
    Settings,
}

/// What a view renders, borrowed from the state snapshot. The detail
/// view carries the selected entry; with none selected it is a
/// defined empty state, not a failure.
#[derive(Debug)]
pub enum ViewDescriptor<'a> {
    GalleryView {
        entries: &'a Option<Vec<CacheEntry>>,
        tags: &'a Option<Vec<String>>,
        search_buffer: &'a String,
    },
    AddNoteView,
    DetailView { entry: &'a Option<CacheEntry> },
    SpaceView,
    QueueView,
    SettingsView,
}

/// Resolves a view name against the current state. Total: every view
/// name yields a descriptor, whatever the state holds.
pub fn resolve<'a>(view: ViewName, state: &'a App) -> (r: ViewDescriptor<'a>)
    ensures
        view == ViewName::Gallery ==> (r matches ViewDescriptor::GalleryView {
            entries,
            tags,
            search_buffer,
        } && entries == &state.entries && tags == &state.tags && search_buffer
            == &state.filter.search_buffer),
        view == ViewName::AddNote ==> r is AddNoteView,
        view == ViewName::Detail ==> (r matches ViewDescriptor::DetailView { entry } && entry
            == &state.selected_entry),
        view == ViewName::Space ==> r is SpaceView,
        view == ViewName::Queue ==> r is QueueView,
        view == ViewName::Settings ==> r is SettingsView,
{
    match view {
        ViewName::Gallery => ViewDescriptor::GalleryView {
            entries: &state.entries,
            tags: &state.tags,
            search_buffer: &state.filter.search_buffer,
        },
        ViewName::AddNote => ViewDescriptor::AddNoteView,
        ViewName::Detail => ViewDescriptor::DetailView { entry: &state.selected_entry },
        ViewName::Space => ViewDescriptor::SpaceView,
        ViewName::Queue => ViewDescriptor::QueueView,
        ViewName::Settings => ViewDescriptor::SettingsView,
    }
}

} // verus!
