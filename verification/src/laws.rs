//! The guarantees of the composed pattern, stated and proved once over
//! the transition and rendering relations of the controller.

use vstd::prelude::*;

use crate::controller::App;
use crate::controller::initial;
use crate::controller::load_step;
use crate::controller::renders;
use crate::controller::select_step;
use crate::model::LoadError;
use crate::model::Video;
use crate::views::AppView;
use crate::views::row_of;

verus! {

/// After a successful load, the list view shows exactly one row per
/// fetched item, in arrival order.
pub proof fn lemma_loaded_list(pre: App, post: App, fetched: Vec<Video>, view: AppView)
    requires
        load_step(pre, post, Ok(fetched)),
        renders(post, view),
    ensures
        view.rows@.len() == fetched@.len(),
        forall|i: int| 0 <= i < fetched@.len() ==> row_of(fetched@[i], #[trigger] view.rows@[i]),
{
}

/// Activating row `i` makes the selection exactly the item at index `i`
/// of the collection at that moment — a value drawn from the collection,
/// never synthesized outside it — and the detail view then shows that
/// item's title.
pub proof fn lemma_row_activation(pre: App, view: AppView, post: App, i: int, after: AppView)
    requires
        renders(pre, view),
        0 <= i < view.rows@.len(),
        select_step(pre, post, view.rows@[i].video),
        renders(post, after),
    ensures
        post.selected_video == Some(pre.videos@[i]),
        pre.videos@.contains(pre.videos@[i]),
        after.detail matches Some(d) && d.heading == pre.videos@[i].title,
{
}

/// Last write wins: selecting `a` and then `b` leaves exactly `b`
/// selected, and the detail view shows `b`'s title and nothing else.
pub proof fn lemma_last_write_wins(s0: App, s1: App, s2: App, a: Video, b: Video, view: AppView)
    requires
        select_step(s0, s1, a),
        select_step(s1, s2, b),
        renders(s2, view),
    ensures
        s2.selected_video == Some(b),
        view.detail matches Some(d) && d.heading == b.title,
{
}

/// Before the fetch completes, the list view renders zero rows, no
/// detail view is shown, and no failure is reported.
pub proof fn lemma_pending_view(app: App, view: AppView)
    requires
        initial(app),
        renders(app, view),
    ensures
        view.rows@.len() == 0,
        view.detail is None,
        view.failure is None,
{
}

/// Selecting the same value twice in a row ends in the same state as
/// selecting it once.
pub proof fn lemma_select_idempotent(s0: App, s1: App, s2: App, x: Video)
    requires
        select_step(s0, s1, x),
        select_step(s1, s2, x),
    ensures
        s2.videos == s1.videos,
        s2.selected_video == s1.selected_video,
        s2.status == s1.status,
{
}

/// A failed fetch does not disturb the tree: the collection stays empty,
/// the list shows zero rows, no detail view appears, and a failure
/// notice — absent from the pending and the empty-collection states — is
/// rendered instead.
pub proof fn lemma_failed_load(pre: App, post: App, e: LoadError, view: AppView)
    requires
        initial(pre),
        load_step(pre, post, Err(e)),
        renders(post, view),
    ensures
        post.videos@.len() == 0,
        view.rows@.len() == 0,
        view.detail is None,
        view.failure matches Some(m) && m@ == "failed to load"@,
{
}

} // verus!
