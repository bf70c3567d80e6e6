//! The system's media controls: what they command, and what they show.
use crate::app::App;
use vstd::prelude::*;
use vstd::string::*;

verus! {

/// A command from a media key or the system's player controls.
#[derive(Clone, Copy, Debug, PartialEq, Eq, Structural)]
pub enum MediaCommand {
    TogglePlayback,
    Play,
    StopPlayback,
    NextStation,
    PreviousStation,
}

/// What the system's player controls show.
pub struct NowPlayingInfo {
    pub title: String,
    pub station: &'static str,
    pub playing: bool,
}

impl App {
    /// What the system's player controls are to show.
    pub fn now_playing(&self) -> (r: NowPlayingInfo)
        requires
            self.selected < self.channels.len(),
        ensures
            r.title@ == self@.station().show,
            r.station@ == self@.station().name,
            r.playing == (self.playing && !self.buffering),
    {
        let channel = &self.channels[self.selected];
        NowPlayingInfo {
            title: channel.show.clone(),
            station: channel.name,
            playing: self.playing && !self.buffering,
        }
    }
}


} // verus!
