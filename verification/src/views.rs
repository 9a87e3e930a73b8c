//! The two stateless views, computed as plain data.
//!
//! Rendering proper (markup, DOM mounting) is the host's business; the
//! library computes what each view shows.  The list view yields one row
//! per video, each row carrying its label text and the video value that
//! an activation of that row reports.  The detail view yields the
//! heading and the fixed placeholder graphic for one video.

use vstd::prelude::*;
use vstd::string::StringExecFns;

use crate::model::Video;

verus! {

/// Locator of the fixed placeholder graphic shown by the detail view.
/// Deliberately not derived from the video: a stub image.
pub const PLACEHOLDER_URL: &'static str =
    "https://via.placeholder.com/640x360.png?text=Video+Player+Placeholder";

/// One row of the list view: its display text, and the video value that
/// activating the row hands to the selection callback.  The row holds a
/// copy of the video, not a reference, so a callback already wired stays
/// valid even if the source collection is later replaced.
pub struct RowView {
    pub label: String,
    pub video: Video,
}

/// What the detail view shows for the selected video: its title as a
/// heading, and the placeholder graphic.
pub struct DetailView {
    pub heading: String,
    pub thumbnail: String,
}

/// The composed view of the whole app, as the root controller shows it:
/// the fixed page heading, the fixed list heading, the list rows, the
/// detail view when a selection exists, and the failure notice when the
/// load failed.
pub struct AppView {
    pub heading: String,
    pub list_heading: String,
    pub rows: Vec<RowView>,
    pub detail: Option<DetailView>,
    pub failure: Option<String>,
}

/// The display text of the row for video `v`: `speaker: title`.
pub open spec fn row_label_spec(v: Video) -> Seq<char> {
    v.speaker@ + ": "@ + v.title@
}

/// Row `r` is exactly the list view's rendering of video `v`.
pub open spec fn row_of(v: Video, r: RowView) -> bool {
    r.label@ == row_label_spec(v) && r.video == v
}

/// `rows` is exactly the list view's rendering of `videos`:
/// one row per video, in the same order.
pub open spec fn rows_of(videos: Seq<Video>, rows: Seq<RowView>) -> bool {
    rows.len() == videos.len() && forall|i: int|
        0 <= i < videos.len() ==> row_of(videos[i], #[trigger] rows[i])
}

/// Detail `d` is exactly the detail view's rendering of video `v`.
pub open spec fn detail_of(v: Video, d: DetailView) -> bool {
    d.heading == v.title && d.thumbnail@ == PLACEHOLDER_URL@
}

/// The display text of one list row.
pub fn row_label(video: &Video) -> (label: String)
    ensures
        label@ == row_label_spec(*video),
{
    let mut label = video.speaker.clone();
    label.append(": ");
    label.append(video.title.as_str());
    label
}

/// The list view: one row per video, in arrival order, each row carrying
/// its label and a copy of its video.
pub fn videos_list(videos: &Vec<Video>) -> (rows: Vec<RowView>)
    ensures
        rows_of(videos@, rows@),
{
    let mut rows: Vec<RowView> = Vec::new();
    let mut i: usize = 0;
    while i < videos.len()
        invariant
            i <= videos@.len(),
            rows@.len() == i,
            forall|j: int| 0 <= j < i ==> row_of(videos@[j], #[trigger] rows@[j]),
        decreases videos@.len() - i,
    {
        let video = &videos[i];
        rows.push(RowView { label: row_label(video), video: video.clone() });
        i = i + 1;
    }
    rows
}

/// The detail view for one video.  Only ever composed when a selection
/// exists, so it takes the video itself, never an absent value.
pub fn video_details(video: &Video) -> (d: DetailView)
    ensures
        detail_of(*video, d),
{
    DetailView { heading: video.title.clone(), thumbnail: String::from_str(PLACEHOLDER_URL) }
}

} // verus!
