//! A row of the folder view.

use vstd::prelude::*;
use crate::text::{split, split_on};

verus! {

/// The name under which a file or folder is shown: the last part of its
/// path.
pub open spec fn display_name(uri: Seq<char>) -> Seq<char> {
    split(uri, '/').last()
}

/// The name under which the file or folder at `uri` is shown.
pub fn title_of(uri: &str) -> (title: String)
    ensures
        title@ == display_name(uri@),
{
    let mut parts = split_on(uri, '/');
    let ghost all = parts.deep_view();
    let last = parts.pop().unwrap();
    assert(last@ == all[all.len() - 1]);
    last
}

/// What a row stands for, as far as its buttons care.
#[derive(Clone, Copy, Debug, PartialEq, Eq, Structural)]
pub enum RowKind {
    Song,
    Folder,
    /// Anything that cannot be queued.
    Other,
}

/// One of the two buttons of a row or of an album's page.
#[derive(Clone, Copy, Debug, PartialEq, Eq, Structural)]
pub enum QueueButton {
    /// Put this in place of the queue, and play it.
    Replace,
    /// Put this behind the queue.
    Append,
}

/// What is asked of the library when a button is clicked.
#[derive(Clone, Copy, Debug, PartialEq, Eq, Structural)]
pub struct QueueRequest {
    /// Whether the queue is emptied first.
    pub replace: bool,
    /// Whether playing starts at once.
    pub play: bool,
    /// Whether everything below the path is queued with it.
    pub recursive: bool,
}

/// Whether a row shows its two queue buttons: a song and a folder can be
/// queued, nothing else.
pub fn shows_queue_buttons(kind: RowKind) -> (shown: bool)
    ensures
        shown == (kind == RowKind::Song || kind == RowKind::Folder),
{
    match kind {
        RowKind::Song => true,
        RowKind::Folder => true,
        RowKind::Other => false,
    }
}

/// What a click on a button of a row asks of the library: a row whose
/// buttons are not shown asks for nothing; a folder is queued with all that
/// is in it.
pub fn queue_request(kind: RowKind, button: QueueButton) -> (request: Option<QueueRequest>)
    ensures
        request is Some == (kind == RowKind::Song || kind == RowKind::Folder),
        request matches Some(r) ==> r == (QueueRequest {
            replace: button == QueueButton::Replace,
            play: button == QueueButton::Replace,
            recursive: kind == RowKind::Folder,
        }),
{
    let replace = match button {
        QueueButton::Replace => true,
        QueueButton::Append => false,
    };
    match kind {
        RowKind::Song => Some(QueueRequest { replace, play: replace, recursive: false }),
        RowKind::Folder => Some(QueueRequest { replace, play: replace, recursive: true }),
        RowKind::Other => None,
    }
}

} // verus!
