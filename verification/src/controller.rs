//! The root controller: canonical state and its transitions.
//!
//! It owns the two pieces of shared state — the item collection and the
//! optional selection — plus the hardened load-status flag, and computes
//! the composed view.  The host issues the fetch exactly once at mount
//! and reports its outcome through [`App::on_fetch_result`]; row
//! activations in the list view come back through [`App::select`].
//! Children never touch this state directly: they receive copies and
//! report events.

use vstd::prelude::*;
use vstd::string::StringExecFns;

use crate::model::LoadError;
use crate::model::LoadStatus;
use crate::model::Video;
use crate::views::AppView;
use crate::views::DetailView;
use crate::views::detail_of;
use crate::views::rows_of;
use crate::views::video_details;
use crate::views::videos_list;

verus! {

/// The root controller's state: the full item collection, the optional
/// current selection, and where the one-shot load stands.
#[derive(Clone)]
pub struct App {
    pub videos: Vec<Video>,
    pub selected_video: Option<Video>,
    pub status: LoadStatus,
}

/// The state of a freshly mounted controller: no items, no selection,
/// load still pending.
pub open spec fn initial(app: App) -> bool {
    app.videos@.len() == 0 && app.selected_video is None && app.status == LoadStatus::Pending
}

/// The transition made when the fetch completes with `fetched`.
/// Success replaces the collection wholesale; failure records the reason
/// and leaves the collection as it was.  The selection never moves.
pub open spec fn load_step(pre: App, post: App, fetched: Result<Vec<Video>, LoadError>) -> bool {
    post.selected_video == pre.selected_video && match fetched {
        Ok(videos) => post.videos == videos && post.status == LoadStatus::Ready,
        Err(e) => post.videos == pre.videos && post.status == LoadStatus::Failed(e),
    }
}

/// The transition made when a row activation reports `video`: the
/// selection is replaced, last write wins; nothing else moves.
pub open spec fn select_step(pre: App, post: App, video: Video) -> bool {
    post.videos == pre.videos && post.selected_video == Some(video) && post.status == pre.status
}

/// `view` is exactly what the controller shows in state `app`: the two
/// fixed headings, one list row per item in order, a detail view exactly
/// when a selection exists, and a failure notice exactly when the load
/// failed.
pub open spec fn renders(app: App, view: AppView) -> bool {
    view.heading@ == "Rustconf explorer"@ && view.list_heading@ == "Videos to watch"@ && rows_of(
        app.videos@,
        view.rows@,
    ) && match app.selected_video {
        Some(v) => view.detail matches Some(d) && detail_of(v, d),
        None => view.detail is None,
    } && match app.status {
        LoadStatus::Failed(_) => view.failure matches Some(m) && m@ == "failed to load"@,
        _ => view.failure is None,
    }
}

impl App {
    /// A freshly mounted controller.
    pub fn new() -> (app: App)
        ensures
            initial(app),
    {
        App { videos: Vec::new(), selected_video: None, status: LoadStatus::Pending }
    }

    /// Report the outcome of the one-shot fetch.  Both failure kinds are
    /// caught here and folded into the status flag; neither aborts.
    pub fn on_fetch_result(&mut self, fetched: Result<Vec<Video>, LoadError>)
        ensures
            load_step(*old(self), *final(self), fetched),
    {
        match fetched {
            Ok(videos) => {
                self.videos = videos;
                self.status = LoadStatus::Ready;
            },
            Err(e) => {
                self.status = LoadStatus::Failed(e);
            },
        }
    }

    /// Replace the selection with `video`, as reported by a row
    /// activation.  Pure state transition; idempotent for equal values.
    pub fn select(&mut self, video: Video)
        ensures
            select_step(*old(self), *final(self), video),
    {
        self.selected_video = Some(video);
    }

    /// Compute the composed view of the current state.
    pub fn render(&self) -> (view: AppView)
        ensures
            renders(*self, view),
    {
        let rows = videos_list(&self.videos);
        let detail: Option<DetailView> = match &self.selected_video {
            Some(video) => Some(video_details(video)),
            None => None,
        };
        let failure: Option<String> = match self.status {
            LoadStatus::Failed(_) => Some(String::from_str("failed to load")),
            _ => None,
        };
        AppView {
            heading: String::from_str("Rustconf explorer"),
            list_heading: String::from_str("Videos to watch"),
            rows,
            detail,
            failure,
        }
    }
}

} // verus!
