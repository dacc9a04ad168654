//! The page that shows one album with its songs.

use vstd::prelude::*;
use crate::common::album::Album;
use crate::common::date::{date_text, ReleaseDate};
use crate::common::song::Song;
use crate::library::folder_row::{QueueButton, QueueRequest};
use crate::text::same_text;

verus! {

/// The icon of the button that folds the album's description away: it points
/// up while the description is shown, and down while it is not.
pub fn collapse_icon(revealed: bool) -> (icon: &'static str)
    ensures
        icon@ == if revealed {
            "up-symbolic"@
        } else {
            "down-symbolic"@
        },
{
    if revealed {
        "up-symbolic"
    } else {
        "down-symbolic"
    }
}

/// Whether news of the folder `folder_uri`, such as artwork that has been
/// downloaded, concerns the album that the page shows.
pub fn concerns_album(album: &Album, folder_uri: &str) -> (concerned: bool)
    ensures
        concerned == (album@.uri == folder_uri@),
{
    same_text(album.get_uri().as_str(), folder_uri)
}

/// Whether songs that have arrived under the album tag `tag` belong to the
/// album that the page shows.
pub fn belongs_to_album(album: &Album, tag: &str) -> (belongs: bool)
    ensures
        belongs == (album@.title == tag@),
{
    same_text(album.get_title().as_str(), tag)
}

/// What a click on a button of the album's page asks of the library.
pub fn album_queue_request(button: QueueButton) -> (request: QueueRequest)
    ensures
        request == (QueueRequest {
            replace: button == QueueButton::Replace,
            play: button == QueueButton::Replace,
            recursive: false,
        }),
{
    match button {
        QueueButton::Replace => QueueRequest { replace: true, play: true, recursive: false },
        QueueButton::Append => QueueRequest { replace: false, play: false, recursive: false },
    }
}

/// What the page shows for the album's release date: the date, or a dash
/// where it is not known.
pub fn release_date_label(date: Option<ReleaseDate>) -> (label: String)
    ensures
        label@ == match date {
            Some(d) => date_text(d@.year, d@.month, d@.day),
            None => "-"@,
        },
{
    match date {
        Some(d) => d.to_text(),
        None => "-".to_owned(),
    }
}

/// Whether the page shows the album's release date at all.
pub fn release_date_visible(date: Option<ReleaseDate>) -> (visible: bool)
    ensures
        visible == date is Some,
{
    date.is_some()
}

/// The duration of a song in seconds; 0 where it is not known.
pub open spec fn seconds_of(song: Song) -> nat {
    match song.info() {
        Some(info) => match info.duration {
            Some(duration) => duration as nat,
            None => 0,
        },
        None => 0,
    }
}

/// The time that a list of songs takes to play, in seconds.
pub open spec fn runtime(songs: Seq<Song>) -> nat
    decreases songs.len(),
{
    if songs.len() == 0 {
        0
    } else {
        runtime(songs.drop_last()) + seconds_of(songs.last())
    }
}

/// The runtime only grows as songs are added.
pub proof fn lemma_runtime_grows(songs: Seq<Song>, n: int)
    requires
        0 <= n <= songs.len(),
    ensures
        runtime(songs.take(n)) <= runtime(songs),
    decreases songs.len(),
{
    if n == songs.len() {
        assert(songs.take(n) =~= songs);
    } else {
        assert(songs.drop_last().take(n) =~= songs.take(n));
        lemma_runtime_grows(songs.drop_last(), n);
    }
}

/// The time that the songs of an album take to play, in seconds, where that
/// is a number the machine can hold.
pub fn total_runtime(songs: &Vec<Song>) -> (total: Option<u64>)
    ensures
        total is Some == (runtime(songs@) <= u64::MAX),
        total matches Some(t) ==> t == runtime(songs@),
{
    let mut total: u64 = 0;
    let mut i: usize = 0;
    assert(songs@.take(0) =~= Seq::<Song>::empty());
    while i < songs.len()
        invariant
            i <= songs.len(),
            total == runtime(songs@.take(i as int)),
        decreases songs.len() - i,
    {
        proof {
            let next = songs@.take(i + 1);
            assert(next.drop_last() =~= songs@.take(i as int));
            assert(next.last() == songs@[i as int]);
        }
        let seconds = if songs[i].has_info() {
            songs[i].get_duration()
        } else {
            0
        };
        match total.checked_add(seconds) {
            Some(sum) => {
                total = sum;
            },
            None => {
                proof {
                    lemma_runtime_grows(songs@, i + 1);
                }
                return None;
            },
        }
        i += 1;
    }
    assert(songs@.take(i as int) =~= songs@);
    Some(total)
}

} // verus!
