//! What the main window decides: the label of the player's state, where the
//! seek bar stands, when the player is asked for its progress, and what a
//! drag of the seek bar sends.

use vstd::prelude::*;
use crate::client::message::MpdMessage;
use crate::client::model::MessageView;
use crate::text::same_text;

verus! {

/// The label that shows whether the player plays.
pub fn playback_label(playing: bool) -> (label: &'static str)
    ensures
        label@ == if playing {
            "Playing"@
        } else {
            "Paused"@
        },
{
    if playing {
        "Playing"
    } else {
        "Paused"
    }
}

/// Where the seek bar is put, in milliseconds: at the player's position, but
/// not behind the end of the song.
pub fn seekbar_position(position_ms: u64, duration_secs: u64) -> (shown_ms: u64)
    ensures
        shown_ms == if position_ms > duration_secs * 1000 {
            duration_secs * 1000
        } else {
            position_ms as int
        },
{
    match duration_secs.checked_mul(1000) {
        Some(end_ms) => if position_ms > end_ms {
            end_ms
        } else {
            position_ms
        },
        None => position_ms,
    }
}

/// What the window brings up to date when the player state changes.
#[derive(Clone, Copy, Debug, PartialEq, Eq, Structural)]
pub enum Refresh {
    /// The label, and the loop that asks for the player's progress, which
    /// starts if it has to.
    Playback,
    /// The seek bar: its position, and its range too where `range` is set.
    Seekbar { range: bool },
}

/// What a property of the player state brings up to date, by the
/// property's name.
pub open spec fn refreshed_by(property: Seq<char>) -> Option<Refresh> {
    if property == "playing"@ {
        Some(Refresh::Playback)
    } else if property == "position"@ {
        Some(Refresh::Seekbar { range: false })
    } else if property == "duration"@ {
        Some(Refresh::Seekbar { range: true })
    } else {
        None
    }
}

/// Says what the window brings up to date when `property` of the player
/// state has changed. A new duration moves the end of the seek bar; the
/// position alone moves its handle.
pub fn refresh_for(property: &str) -> (refresh: Option<Refresh>)
    ensures
        refresh == refreshed_by(property@),
{
    if same_text(property, "playing") {
        Some(Refresh::Playback)
    } else if same_text(property, "position") {
        Some(Refresh::Seekbar { range: false })
    } else if same_text(property, "duration") {
        Some(Refresh::Seekbar { range: true })
    } else {
        None
    }
}

/// One turn of the loop that asks the player for its progress.
#[derive(Clone, Copy, Debug, PartialEq, Eq, Structural)]
pub enum PollStep {
    /// Nothing plays: the loop ends.
    Stop,
    /// The client's inbox is full: nothing is asked this time.
    Skip,
    /// The client is asked for the status.
    Ask,
}

/// Decides one turn of the loop that asks the player for its progress once
/// a second while it plays.
pub fn poll_step(playing: bool, inbox_full: bool) -> (step: PollStep)
    ensures
        step == if !playing {
            PollStep::Stop
        } else if inbox_full {
            PollStep::Skip
        } else {
            PollStep::Ask
        },
{
    if !playing {
        PollStep::Stop
    } else if inbox_full {
        PollStep::Skip
    } else {
        PollStep::Ask
    }
}

/// The seek bar between a drag and its release, by what it holds.
pub struct SeekbarView {
    /// Where the bar was dragged to last, in milliseconds.
    pub new_position: u64,
    /// Whether the bar has been dragged and not yet released.
    pub clicked: bool,
    /// Whether the loop that asks for the player's progress runs.
    pub polling: bool,
}

/// The seek bar between a drag and its release.
#[derive(Clone, Copy, Debug, PartialEq, Eq)]
pub struct Seekbar {
    new_position: u64,
    clicked: bool,
    polling: bool,
}

impl View for Seekbar {
    type V = SeekbarView;

    closed spec fn view(&self) -> SeekbarView {
        SeekbarView { new_position: self.new_position, clicked: self.clicked, polling: self.polling }
    }
}

impl Seekbar {
    /// A seek bar that nobody has touched.
    pub fn new() -> (bar: Seekbar)
        ensures
            bar@ == (SeekbarView { new_position: 0, clicked: false, polling: false }),
    {
        Seekbar { new_position: 0, clicked: false, polling: false }
    }

    /// The loop that asks for the player's progress has been started.
    pub fn polling_started(&mut self)
        ensures
            final(self)@ == (SeekbarView { polling: true, ..old(self)@ }),
    {
        self.polling = true;
    }

    /// The bar is dragged to `position`, in milliseconds. The position is
    /// kept for the release. Says whether the loop that asks for the
    /// player's progress has to be stopped, so that it does not pull the bar
    /// back while it is dragged.
    pub fn value_changed(&mut self, position: u64) -> (stop_polling: bool)
        ensures
            stop_polling == old(self)@.polling,
            final(self)@ == (SeekbarView { new_position: position, clicked: true, polling: false }),
    {
        let stop_polling = self.polling;
        self.new_position = position;
        self.polling = false;
        self.clicked = true;
        stop_polling
    }

    /// The mouse button is released somewhere in the window. Where the bar
    /// had been dragged, the player is sent to the position kept, and the
    /// loop that asks for its progress starts again; a release that has
    /// nothing to do with the bar does nothing.
    pub fn released(&mut self) -> (request: Option<MpdMessage>)
        ensures
            old(self)@.clicked ==> (request matches Some(m) && m@ == MessageView::SeekCur(
                old(self)@.new_position,
            )),
            old(self)@.clicked ==> final(self)@ == (SeekbarView {
                clicked: false,
                polling: true,
                ..old(self)@
            }),
            !old(self)@.clicked ==> request is None && final(self)@ == old(self)@,
    {
        if self.clicked {
            self.clicked = false;
            self.polling = true;
            Some(MpdMessage::SeekCur(self.new_position))
        } else {
            None
        }
    }
}

} // verus!
