//! Collecting the photos and videos of a media group, which arrive as separate messages,
//! until the group has been quiet for a while.
use vstd::prelude::*;

verus! {

/// How long a media group must be quiet before it counts as complete, in milliseconds.
pub const QUIET_PERIOD_MS: u64 = 900;

/// The longest the bot waits for a media group, in milliseconds.
pub const MAX_WAIT_MS: u64 = 8000;

/// The pause between two looks at a media group, in milliseconds.
pub const POLL_INTERVAL_MS: u64 = 200;

/// Whether an item of a media group is sent as a photo or as a video.
#[derive(Debug, Clone, Copy, PartialEq, Eq, Structural)]
pub enum MediaKind {
    Photo,
    Video,
}

/// An item of a media group: the file and how it is sent again.
#[derive(Debug, Clone)]
pub struct MediaItem {
    pub file_id: String,
    pub kind: MediaKind,
}

/// What is known of a media group so far: its items, and when the last of its messages
/// arrived (milliseconds on the bot's clock).
#[derive(Debug, Clone)]
pub struct MediaGroupState {
    pub items: Vec<MediaItem>,
    pub last_update_ms: u64,
}

/// The file identifiers of a list of items.
pub open spec fn file_ids(items: Seq<MediaItem>) -> Seq<Seq<char>> {
    items.map_values(|i: MediaItem| i.file_id@)
}

/// Whether no file occurs twice among the items.
pub open spec fn distinct_files(items: Seq<MediaItem>) -> bool {
    forall|a: int, b: int| 0 <= a < b < items.len() ==> #[trigger] items[a].file_id@ != #[trigger] items[b].file_id@
}

/// The item a message adds to its media group: its largest photo, else its video, else its
/// document (sent again as a video).
pub open spec fn media_item_spec(photo: Option<Seq<char>>, video: Option<Seq<char>>, document: Option<Seq<char>>) -> Option<(Seq<char>, MediaKind)> {
    match photo {
        Some(p) => Some((p, MediaKind::Photo)),
        None => match video {
            Some(v) => Some((v, MediaKind::Video)),
            None => match document {
                Some(d) => Some((d, MediaKind::Video)),
                None => None,
            },
        },
    }
}

fn contains_file(items: &Vec<MediaItem>, id: &str) -> (r: bool)
    ensures
        r == file_ids(items@).contains(id@),
{
    let mut k: usize = 0;
    while k < items.len()
        invariant
            k <= items@.len(),
            forall|j: int| 0 <= j < k ==> items@[j].file_id@ != id@,
        decreases items.len() - k,
    {
        let a = crate::strings::chars_of(items[k].file_id.as_str());
        let b = crate::strings::chars_of(id);
        if crate::callback::same_chars(&a, &b) {
            assert(file_ids(items@)[k as int] == id@);
            return true;
        }
        k = k + 1;
    }
    assert forall|j: int| 0 <= j < file_ids(items@).len() implies file_ids(items@)[j] != id@ by {
        assert(file_ids(items@)[j] == items@[j].file_id@);
    }
    false
}

/// The media group middleware: it collects the items of each media group, then waits until
/// the group is quiet before the message is handled.
pub struct MediaGroupMiddleware;

impl MediaGroupMiddleware {
    /// The item a message adds to its media group, as `media_item_spec` says.
    pub fn media_item(photo: Option<String>, video: Option<String>, document: Option<String>) -> (r: Option<MediaItem>)
        ensures
            match r {
                Some(i) => media_item_spec(
                    match photo { Some(x) => Some(x@), None => None },
                    match video { Some(x) => Some(x@), None => None },
                    match document { Some(x) => Some(x@), None => None },
                ) == Some((i.file_id@, i.kind)),
                None => media_item_spec(
                    match photo { Some(x) => Some(x@), None => None },
                    match video { Some(x) => Some(x@), None => None },
                    match document { Some(x) => Some(x@), None => None },
                ) is None,
            },
    {
        match photo {
            Some(p) => Some(MediaItem { file_id: p, kind: MediaKind::Photo }),
            None => match video {
                Some(v) => Some(MediaItem { file_id: v, kind: MediaKind::Video }),
                None => match document {
                    Some(d) => Some(MediaItem { file_id: d, kind: MediaKind::Video }),
                    None => None,
                },
            },
        }
    }

    /// Records a message of a media group at `now_ms`: its item is added unless the group
    /// already has that file, and the group's last update becomes `now_ms`.
    pub fn record(state: &mut MediaGroupState, item: Option<MediaItem>, now_ms: u64)
        ensures
            final(state).last_update_ms == now_ms,
            match item {
                Some(i) => if file_ids(old(state).items@).contains(i.file_id@) {
                    final(state).items@ == old(state).items@
                } else {
                    final(state).items@ == old(state).items@.push(i)
                },
                None => final(state).items@ == old(state).items@,
            },
    {
        match item {
            Some(i) => {
                if !contains_file(&state.items, i.file_id.as_str()) {
                    state.items.push(i);
                }
            },
            None => {},
        }
        state.last_update_ms = now_ms;
    }

    /// Whether to stop waiting: the group has been quiet for the quiet period, or the wait has
    /// reached its limit.
    pub fn stop_waiting(since_update_ms: u64, waited_ms: u64) -> (r: bool)
        ensures
            r == (since_update_ms >= QUIET_PERIOD_MS || waited_ms >= MAX_WAIT_MS),
    {
        since_update_ms >= QUIET_PERIOD_MS || waited_ms >= MAX_WAIT_MS
    }
}

/// Recording keeps the files of a media group distinct, and never drops an item.
pub proof fn record_keeps_files_distinct(before: Seq<MediaItem>, item: MediaItem, after: Seq<MediaItem>)
    requires
        distinct_files(before),
        if file_ids(before).contains(item.file_id@) {
            after == before
        } else {
            after == before.push(item)
        },
    ensures
        distinct_files(after),
        before.len() <= after.len(),
        forall|j: int| 0 <= j < before.len() ==> after[j] == before[j],
{
    if !file_ids(before).contains(item.file_id@) {
        assert forall|a: int, b: int| 0 <= a < b < after.len() implies #[trigger] after[a].file_id@ != #[trigger] after[b].file_id@ by {
            if b == before.len() {
                assert(file_ids(before)[a] == before[a].file_id@);
            }
        }
    }
}

} // verus!
