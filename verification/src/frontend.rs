//! What the control surface decides before it turns to the camera.

use vstd::prelude::*;

use crate::camera::actor::CameraActorMessage;
use crate::camera::text::same_text;

verus! {

/// Whether `text` ends in `suffix`.
pub open spec fn ends_with(text: Seq<char>, suffix: Seq<char>) -> bool {
    suffix.len() <= text.len() && text.subrange(text.len() - suffix.len(), text.len() as int)
        == suffix
}

/// Whether a file of this name is shown in the gallery: it is if the name
/// ends like a recording's.
pub open spec fn shown_in_gallery(name: Seq<char>) -> bool {
    ends_with(name, ".mkv"@) || ends_with(name, ".mov"@) || ends_with(name, ".mp4"@)
}

/// Whether `text` ends in `suffix`.
pub fn has_suffix(text: &str, suffix: &str) -> (found: bool)
    ensures
        found == ends_with(text@, suffix@),
{
    let length = text.unicode_len();
    let tail = suffix.unicode_len();
    if tail > length {
        false
    } else {
        same_text(text.substring_char(length - tail, length), suffix)
    }
}

/// Whether a file of this name is shown in the gallery.
pub fn is_recording(name: &str) -> (shown: bool)
    ensures
        shown == shown_in_gallery(name@),
{
    has_suffix(name, ".mkv") || has_suffix(name, ".mov") || has_suffix(name, ".mp4")
}

/// The names of a directory's entries that the gallery shows, in the order
/// in which the directory gave them.
pub fn gallery(entries: &Vec<String>) -> (shown: Vec<String>)
    ensures
        shown.deep_view() == entries.deep_view().filter(|name: Seq<char>| shown_in_gallery(name)),
{
    let ghost keep = |name: Seq<char>| shown_in_gallery(name);
    let mut shown: Vec<String> = Vec::new();
    let mut i: usize = 0;
    assert(entries.deep_view().take(0).filter(keep) =~= Seq::empty()) by {
        reveal(Seq::filter);
    }
    assert(shown.deep_view() =~= Seq::empty());
    while i < entries.len()
        invariant
            i <= entries.len(),
            keep == |name: Seq<char>| shown_in_gallery(name),
            shown.deep_view() == entries.deep_view().take(i as int).filter(keep),
        decreases entries.len() - i,
    {
        let ghost before = shown.deep_view();
        let ghost seen = entries.deep_view().take(i as int + 1);
        assert(seen.drop_last() =~= entries.deep_view().take(i as int));
        assert(seen.last() == entries[i as int]@);
        assert(seen.len() == i + 1);
        assert(seen.filter(keep) == if keep(seen.last()) {
            seen.drop_last().filter(keep).push(seen.last())
        } else {
            seen.drop_last().filter(keep)
        }) by {
            reveal(Seq::filter);
        }
        if is_recording(entries[i].as_str()) {
            let name = entries[i].clone();
            shown.push(name);
            assert(shown.deep_view() =~= before.push(entries[i as int]@));
        }
        i += 1;
    }
    assert(entries.deep_view().take(i as int) =~= entries.deep_view());
    shown
}

/// The request that the recording switch stands for: to record where it is
/// on, and to show the preview where it is off.
pub fn record_request(recording: bool) -> (message: CameraActorMessage)
    ensures
        message == if recording {
            CameraActorMessage::StartCapture
        } else {
            CameraActorMessage::StartLivefeed
        },
{
    if recording {
        CameraActorMessage::StartCapture
    } else {
        CameraActorMessage::StartLivefeed
    }
}

} // verus!
