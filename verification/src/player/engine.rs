//! The player's control state: what is playing, the volume and mute, and the
//! commands each user action sends to the audio engine. The engine's events
//! update the state in turn.

use vstd::prelude::*;

use crate::audio::pipeline::{AudioCommand, AudioEvent, PlaybackState};
use crate::subsonic::models::Song;
use crate::text::owned;

verus! {

/// The highest volume.
pub const MAX_VOLUME: u32 = 100;

/// The player's state. Position and duration are seconds, as the bits of
/// their doubles.
pub struct Player {
    pub state: PlaybackState,
    pub current_song: Option<Song>,
    pub position: u64,
    pub duration: u64,
    pub volume: u32,
    pub muted: bool,
}

/// The state after a pause: playing becomes paused.
pub open spec fn paused(s: PlaybackState) -> PlaybackState {
    if s == PlaybackState::Playing {
        PlaybackState::Paused
    } else {
        s
    }
}

/// The state after a resume: paused becomes playing.
pub open spec fn resumed(s: PlaybackState) -> PlaybackState {
    if s == PlaybackState::Paused {
        PlaybackState::Playing
    } else {
        s
    }
}

/// A volume limited to at most 100.
pub open spec fn limited(v: int) -> u32 {
    if v > 100 {
        100
    } else {
        v as u32
    }
}

/// State, position and duration after one engine event.
pub open spec fn event_effect(t: (PlaybackState, u64, u64), e: AudioEvent) -> (
    PlaybackState,
    u64,
    u64,
) {
    match e {
        AudioEvent::PositionUpdate { position, duration } => (t.0, position, duration),
        AudioEvent::StateChange(s) => (s, t.1, t.2),
        AudioEvent::TrackEnd => (PlaybackState::Stopped, t.1, t.2),
        AudioEvent::Error(_) => t,
    }
}

/// State, position and duration after a list of engine events, in order.
pub open spec fn events_effect(t: (PlaybackState, u64, u64), es: Seq<AudioEvent>) -> (
    PlaybackState,
    u64,
    u64,
)
    decreases es.len(),
{
    if es.len() == 0 {
        t
    } else {
        event_effect(events_effect(t, es.drop_last()), es.last())
    }
}

/// The volume sent is the player's volume.
pub open spec fn sends_volume(r: Seq<AudioCommand>, v: u32) -> bool {
    r == seq![AudioCommand::SetVolume(v)]
}

impl Player {
    /// State, position and duration.
    pub open spec fn timing(&self) -> (PlaybackState, u64, u64) {
        (self.state, self.position, self.duration)
    }

    /// A stopped player at volume 75, not muted.
    pub fn new() -> (r: Player)
        ensures
            r.state == PlaybackState::Stopped,
            r.current_song is None,
            r.position == 0 && r.duration == 0,
            r.volume == 75,
            !r.muted,
    {
        Player {
            state: PlaybackState::Stopped,
            current_song: None,
            position: 0,
            duration: 0,
            volume: 75,
            muted: false,
        }
    }

    /// Starts playing `song` from `url`: playing at once, at the position
    /// zero, with the current volume and mute sent along.
    pub fn play(&mut self, url: &str, song: Song) -> (r: Vec<AudioCommand>)
        ensures
            final(self).current_song == Some(song),
            final(self).position == 0 && final(self).duration == 0,
            final(self).state == PlaybackState::Playing,
            final(self).volume == old(self).volume,
            final(self).muted == old(self).muted,
            r@.len() == 3,
            r@[0] matches AudioCommand::Play { url: u } && u@ == url@,
            r@[1] == AudioCommand::SetVolume(old(self).volume),
            r@[2] == AudioCommand::SetMuted(old(self).muted),
    {
        self.current_song = Some(song);
        self.position = 0;
        self.duration = 0;
        self.state = PlaybackState::Playing;
        let mut r: Vec<AudioCommand> = Vec::new();
        r.push(AudioCommand::Play { url: owned(url) });
        r.push(AudioCommand::SetVolume(self.volume));
        r.push(AudioCommand::SetMuted(self.muted));
        r
    }

    /// Pauses when playing.
    pub fn pause(&mut self) -> (r: Vec<AudioCommand>)
        ensures
            final(self).state == paused(old(self).state),
            r@ == (if old(self).state == PlaybackState::Playing {
                seq![AudioCommand::Pause]
            } else {
                Seq::<AudioCommand>::empty()
            }),
            final(self).current_song == old(self).current_song,
            final(self).position == old(self).position,
            final(self).duration == old(self).duration,
            final(self).volume == old(self).volume,
            final(self).muted == old(self).muted,
    {
        let mut r: Vec<AudioCommand> = Vec::new();
        if self.state == PlaybackState::Playing {
            self.state = PlaybackState::Paused;
            r.push(AudioCommand::Pause);
        }
        r
    }

    /// Resumes when paused.
    pub fn resume(&mut self) -> (r: Vec<AudioCommand>)
        ensures
            final(self).state == resumed(old(self).state),
            r@ == (if old(self).state == PlaybackState::Paused {
                seq![AudioCommand::Resume]
            } else {
                Seq::<AudioCommand>::empty()
            }),
            final(self).current_song == old(self).current_song,
            final(self).position == old(self).position,
            final(self).duration == old(self).duration,
            final(self).volume == old(self).volume,
            final(self).muted == old(self).muted,
    {
        let mut r: Vec<AudioCommand> = Vec::new();
        if self.state == PlaybackState::Paused {
            self.state = PlaybackState::Playing;
            r.push(AudioCommand::Resume);
        }
        r
    }

    /// Pauses when playing, resumes when paused; nothing when stopped.
    pub fn toggle_pause(&mut self) -> (r: Vec<AudioCommand>)
        ensures
            final(self).state == (match old(self).state {
                PlaybackState::Playing => PlaybackState::Paused,
                PlaybackState::Paused => PlaybackState::Playing,
                PlaybackState::Stopped => PlaybackState::Stopped,
            }),
            r@ == (match old(self).state {
                PlaybackState::Playing => seq![AudioCommand::Pause],
                PlaybackState::Paused => seq![AudioCommand::Resume],
                PlaybackState::Stopped => Seq::<AudioCommand>::empty(),
            }),
            final(self).current_song == old(self).current_song,
            final(self).position == old(self).position,
            final(self).duration == old(self).duration,
            final(self).volume == old(self).volume,
            final(self).muted == old(self).muted,
    {
        match self.state {
            PlaybackState::Playing => self.pause(),
            PlaybackState::Paused => self.resume(),
            PlaybackState::Stopped => Vec::new(),
        }
    }

    /// Stops playback and forgets the song.
    pub fn stop(&mut self) -> (r: Vec<AudioCommand>)
        ensures
            final(self).state == PlaybackState::Stopped,
            final(self).current_song is None,
            final(self).position == 0 && final(self).duration == 0,
            r@ == seq![AudioCommand::Stop],
            final(self).volume == old(self).volume,
            final(self).muted == old(self).muted,
    {
        self.state = PlaybackState::Stopped;
        let mut r: Vec<AudioCommand> = Vec::new();
        r.push(AudioCommand::Stop);
        self.current_song = None;
        self.position = 0;
        self.duration = 0;
        r
    }

    /// Records a seek to `position` (seconds, double bits, already limited
    /// to the track) and sends it.
    pub fn seek_to_position(&mut self, position: u64) -> (r: Vec<AudioCommand>)
        ensures
            final(self).position == position,
            r@ == seq![AudioCommand::Seek(position)],
            final(self).state == old(self).state,
            final(self).current_song == old(self).current_song,
            final(self).duration == old(self).duration,
            final(self).volume == old(self).volume,
            final(self).muted == old(self).muted,
    {
        let mut r: Vec<AudioCommand> = Vec::new();
        r.push(AudioCommand::Seek(position));
        self.position = position;
        r
    }

    /// Sets the volume, at most 100.
    pub fn set_volume(&mut self, vol: u32) -> (r: Vec<AudioCommand>)
        ensures
            final(self).volume == limited(vol as int),
            sends_volume(r@, final(self).volume),
            final(self).state == old(self).state,
            final(self).current_song == old(self).current_song,
            final(self).position == old(self).position,
            final(self).duration == old(self).duration,
            final(self).muted == old(self).muted,
    {
        self.volume = if vol < MAX_VOLUME {
            vol
        } else {
            MAX_VOLUME
        };
        let mut r: Vec<AudioCommand> = Vec::new();
        r.push(AudioCommand::SetVolume(self.volume));
        r
    }

    /// Raises the volume by `step`, at most 100.
    pub fn volume_up(&mut self, step: u32) -> (r: Vec<AudioCommand>)
        ensures
            final(self).volume == limited(old(self).volume + step),
            sends_volume(r@, final(self).volume),
            final(self).state == old(self).state,
            final(self).current_song == old(self).current_song,
            final(self).position == old(self).position,
            final(self).duration == old(self).duration,
            final(self).muted == old(self).muted,
    {
        let raised = self.volume.saturating_add(step);
        let v = if raised < MAX_VOLUME {
            raised
        } else {
            MAX_VOLUME
        };
        self.set_volume(v)
    }

    /// Lowers the volume by `step`, not below 0.
    pub fn volume_down(&mut self, step: u32) -> (r: Vec<AudioCommand>)
        ensures
            final(self).volume == limited(
                if old(self).volume >= step {
                    old(self).volume - step
                } else {
                    0
                },
            ),
            sends_volume(r@, final(self).volume),
            final(self).state == old(self).state,
            final(self).current_song == old(self).current_song,
            final(self).position == old(self).position,
            final(self).duration == old(self).duration,
            final(self).muted == old(self).muted,
    {
        let lowered = self.volume.saturating_sub(step);
        self.set_volume(lowered)
    }

    /// Mutes or unmutes.
    pub fn mute_toggle(&mut self) -> (r: Vec<AudioCommand>)
        ensures
            final(self).muted == !old(self).muted,
            r@ == seq![AudioCommand::SetMuted(final(self).muted)],
            final(self).state == old(self).state,
            final(self).current_song == old(self).current_song,
            final(self).position == old(self).position,
            final(self).duration == old(self).duration,
            final(self).volume == old(self).volume,
    {
        self.muted = !self.muted;
        let mut r: Vec<AudioCommand> = Vec::new();
        r.push(AudioCommand::SetMuted(self.muted));
        r
    }

    /// The command that sets the equalizer gains (double bits per band).
    pub fn set_eq_gains(&self, gains: &[u64]) -> (r: Vec<AudioCommand>)
        ensures
            r@.len() == 1,
            r@[0] matches AudioCommand::SetEqGains(g) && g@ == gains@,
    {
        let mut r: Vec<AudioCommand> = Vec::new();
        r.push(AudioCommand::SetEqGains(vstd::slice::slice_to_vec(gains)));
        r
    }

    /// The command that turns the equalizer on or off.
    pub fn set_eq_enabled(&self, enabled: bool) -> (r: Vec<AudioCommand>)
        ensures
            r@ == seq![AudioCommand::SetEqEnabled(enabled)],
    {
        let mut r: Vec<AudioCommand> = Vec::new();
        r.push(AudioCommand::SetEqEnabled(enabled));
        r
    }

    /// Takes in the engine's events, in order: position updates, state
    /// changes, and the end of a track (which stops).
    pub fn handle_events(&mut self, events: &Vec<AudioEvent>)
        ensures
            final(self).timing() == events_effect(old(self).timing(), events@),
            final(self).current_song == old(self).current_song,
            final(self).volume == old(self).volume,
            final(self).muted == old(self).muted,
    {
        let ghost start = self.timing();
        let mut i: usize = 0;
        while i < events.len()
            invariant
                i <= events@.len(),
                self.timing() == events_effect(start, events@.take(i as int)),
                self.current_song == old(self).current_song,
                self.volume == old(self).volume,
                self.muted == old(self).muted,
            decreases events@.len() - i,
        {
            let ghost next = events@.take(i + 1);
            assert(next.drop_last() =~= events@.take(i as int));
            assert(next.last() == events@[i as int]);
            match &events[i] {
                AudioEvent::PositionUpdate { position, duration } => {
                    self.position = *position;
                    self.duration = *duration;
                },
                AudioEvent::StateChange(new_state) => {
                    self.state = *new_state;
                },
                AudioEvent::TrackEnd => {
                    self.state = PlaybackState::Stopped;
                },
                AudioEvent::Error(_) => {},
            }
            i = i + 1;
        }
        assert(events@.take(events@.len() as int) =~= events@);
    }

    /// The command that ends the audio engine.
    pub fn shutdown(&self) -> (r: Vec<AudioCommand>)
        ensures
            r@ == seq![AudioCommand::Shutdown],
    {
        let mut r: Vec<AudioCommand> = Vec::new();
        r.push(AudioCommand::Shutdown);
        r
    }
}

/// Pausing a playing track and resuming it plays it again; resuming a paused
/// one and pausing it pauses it again.
pub proof fn lemma_pause_resume(s: PlaybackState)
    ensures
        s == PlaybackState::Playing ==> resumed(paused(s)) == s,
        s == PlaybackState::Paused ==> paused(resumed(s)) == s,
        paused(paused(s)) == paused(s),
        resumed(resumed(s)) == resumed(s),
{
}

/// The volume never exceeds 100 once set, whatever is asked.
pub proof fn lemma_volume_limited(v: int)
    requires
        0 <= v,
    ensures
        limited(v) <= MAX_VOLUME,
        0 <= v <= 100 ==> limited(v) == v,
{
}

} // verus!
