use video_explorer::controller::App;
use video_explorer::model::LoadError;
use video_explorer::model::LoadStatus;
use video_explorer::model::Video;
use video_explorer::views::row_label;
use video_explorer::views::video_details;
use video_explorer::views::PLACEHOLDER_URL;

fn video(id: usize, title: &str, speaker: &str, url: &str) -> Video {
    Video {
        id,
        title: title.to_string(),
        speaker: speaker.to_string(),
        url: url.to_string(),
    }
}

fn sample_videos() -> Vec<Video> {
    vec![
        video(1, "Building and breaking things", "John Doe", "https://youtu.be/PsaFVLr8t4E"),
        video(2, "The development process", "Jane Smith", "https://youtu.be/PsaFVLr8t4E"),
        video(3, "The Web 7.0", "Matt Miller", "https://youtu.be/PsaFVLr8t4E"),
    ]
}

#[test]
fn pending_state_is_empty() {
    let app = App::new();
    assert!(app.videos.is_empty());
    assert_eq!(app.selected_video, None);
    assert_eq!(app.status, LoadStatus::Pending);
    let view = app.render();
    assert_eq!(view.rows.len(), 0);
    assert!(view.detail.is_none());
    assert!(view.failure.is_none());
}

#[test]
fn loaded_list_renders_one_row_per_item_in_order() {
    let mut app = App::new();
    app.on_fetch_result(Ok(sample_videos()));
    assert_eq!(app.status, LoadStatus::Ready);
    let view = app.render();
    assert_eq!(view.rows.len(), 3);
    assert_eq!(view.rows[0].label, "John Doe: Building and breaking things");
    assert_eq!(view.rows[1].label, "Jane Smith: The development process");
    assert_eq!(view.rows[2].label, "Matt Miller: The Web 7.0");
    assert_eq!(view.rows[0].video, app.videos[0]);
    assert_eq!(view.rows[1].video, app.videos[1]);
    assert_eq!(view.rows[2].video, app.videos[2]);
    assert_eq!(view.heading, "Rustconf explorer");
    assert_eq!(view.list_heading, "Videos to watch");
    assert!(view.failure.is_none());
}

#[test]
fn row_activation_selects_that_item() {
    let mut app = App::new();
    app.on_fetch_result(Ok(sample_videos()));
    let view = app.render();
    app.select(view.rows[1].video.clone());
    assert_eq!(app.selected_video, Some(sample_videos()[1].clone()));
    let after = app.render();
    let detail = after.detail.expect("a selection exists, so a detail view must");
    assert_eq!(detail.heading, "The development process");
}

#[test]
fn last_write_wins() {
    let a = video(1, "Keynote", "Alice", "http://x");
    let b = video(2, "Workshop", "Bob", "http://y");
    let mut app = App::new();
    app.on_fetch_result(Ok(vec![a.clone(), b.clone()]));
    app.select(a.clone());
    app.select(b.clone());
    assert_eq!(app.selected_video, Some(b));
    let view = app.render();
    let detail = view.detail.expect("a selection exists, so a detail view must");
    assert_eq!(detail.heading, "Workshop");
    assert_ne!(detail.heading, "Keynote");
}

#[test]
fn select_twice_equals_select_once() {
    let x = video(7, "Encore", "Carol", "http://z");
    let mut once = App::new();
    once.on_fetch_result(Ok(vec![x.clone()]));
    let mut twice = once.clone();
    once.select(x.clone());
    twice.select(x.clone());
    twice.select(x.clone());
    assert_eq!(twice.videos, once.videos);
    assert_eq!(twice.selected_video, once.selected_video);
    assert_eq!(twice.status, once.status);
}

#[test]
fn keynote_round_trip() {
    let fetched = video(1, "Keynote", "Alice", "http://x");
    let mut app = App::new();
    app.on_fetch_result(Ok(vec![fetched]));
    let view = app.render();
    assert_eq!(view.rows.len(), 1);
    assert_eq!(view.rows[0].label, "Alice: Keynote");
    app.select(view.rows[0].video.clone());
    let after = app.render();
    let detail = after.detail.expect("a selection exists, so a detail view must");
    assert_eq!(detail.heading, "Keynote");
}

#[test]
fn transport_failure_keeps_tree_alive() {
    let mut app = App::new();
    app.on_fetch_result(Err(LoadError::Transport));
    assert!(app.videos.is_empty());
    assert_eq!(app.status, LoadStatus::Failed(LoadError::Transport));
    let view = app.render();
    assert_eq!(view.rows.len(), 0);
    assert!(view.detail.is_none());
    assert_eq!(view.failure, Some("failed to load".to_string()));
}

#[test]
fn decode_failure_keeps_tree_alive() {
    let mut app = App::new();
    app.on_fetch_result(Err(LoadError::Decode));
    assert!(app.videos.is_empty());
    assert_eq!(app.status, LoadStatus::Failed(LoadError::Decode));
    let view = app.render();
    assert_eq!(view.rows.len(), 0);
    assert_eq!(view.failure, Some("failed to load".to_string()));
}

#[test]
fn empty_fetch_is_distinct_from_failure() {
    let mut app = App::new();
    app.on_fetch_result(Ok(vec![]));
    assert_eq!(app.status, LoadStatus::Ready);
    let view = app.render();
    assert_eq!(view.rows.len(), 0);
    assert!(view.failure.is_none());
}

#[test]
fn row_label_formats_speaker_and_title() {
    let v = video(4, "Parsing on a budget", "Dana", "http://w");
    assert_eq!(row_label(&v), "Dana: Parsing on a budget");
}

#[test]
fn detail_view_shows_title_and_placeholder_graphic() {
    let v = video(5, "Closing remarks", "Eve", "http://v");
    let detail = video_details(&v);
    assert_eq!(detail.heading, "Closing remarks");
    assert_eq!(detail.thumbnail, PLACEHOLDER_URL);
}

#[test]
fn video_equality_is_structural() {
    let a = video(1, "Keynote", "Alice", "http://x");
    let b = video(1, "Keynote", "Alice", "http://x");
    let c = video(1, "Keynote", "Alice", "http://y");
    assert_eq!(a, b);
    assert_ne!(a, c);
}

#[test]
fn selection_survives_collection_replacement() {
    let first = video(1, "Keynote", "Alice", "http://x");
    let mut app = App::new();
    app.on_fetch_result(Ok(vec![first.clone()]));
    app.select(first.clone());
    app.on_fetch_result(Ok(sample_videos()));
    assert_eq!(app.selected_video, Some(first));
}
