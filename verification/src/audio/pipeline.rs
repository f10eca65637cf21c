//! The messages between the player and the audio engine: commands sent to
//! it, events it reports back, and the playback state. Positions, durations
//! and gains are carried as the bits of their doubles.

use vstd::prelude::*;

use crate::text::owned;

verus! {

/// A command for the audio engine.
#[derive(Debug)]
pub enum AudioCommand {
    Play { url: String },
    Pause,
    Resume,
    Stop,
    /// Seek to a position in seconds (double bits).
    Seek(u64),
    SetVolume(u32),
    SetMuted(bool),
    /// Gains per band in dB (double bits).
    SetEqGains(Vec<u64>),
    SetEqEnabled(bool),
    Shutdown,
}

/// An event reported by the audio engine.
#[derive(Debug, Clone)]
pub enum AudioEvent {
    /// Position and duration in seconds (double bits).
    PositionUpdate { position: u64, duration: u64 },
    StateChange(PlaybackState),
    TrackEnd,
    Error(String),
}

/// Whether a track is playing, paused or not loaded.
#[derive(Debug, Clone, Copy, PartialEq, Eq, Structural)]
pub enum PlaybackState {
    Stopped,
    Playing,
    Paused,
}

/// What the audio engine does in answer to a command or to what happened
/// to the track: work on its decoder, output and equalizer, or an event to
/// report.
#[derive(Debug)]
pub enum EngineAction {
    /// Drop the decoder, output, equalizer and resampler of the current track.
    Release,
    /// Open a decoder for the url and an output for it.
    Open { url: String },
    /// Pause or unpause the output.
    SetPaused(bool),
    SetOutputVolume(u32),
    SetOutputMuted(bool),
    /// Seek the decoder to a position in seconds (double bits).
    SeekTo(u64),
    /// Gains per band in dB (double bits).
    SetDspGains(Vec<u64>),
    SetDspEnabled(bool),
    /// Drop the output's buffered samples so a change is heard at once.
    Flush,
    /// Report an event to the player.
    Emit(AudioEvent),
    /// Leave the engine's loop.
    Exit,
}

/// The part of opening a track that failed.
#[derive(Debug, Clone, Copy, PartialEq, Eq, Structural)]
pub enum OpenStage {
    Decoder,
    Output,
}

/// The audio engine's own settings: whether it plays, and what it applies to
/// every track it opens.
pub struct EngineControl {
    pub state: PlaybackState,
    pub volume: u32,
    pub muted: bool,
    pub eq_gains: Vec<u64>,
    pub eq_enabled: bool,
}

/// The actions that only report a state change.
pub open spec fn emits_state(r: Seq<EngineAction>, s: PlaybackState) -> bool {
    &&& r.len() == 1
    &&& r[0] matches EngineAction::Emit(AudioEvent::StateChange(t)) && t == s
}

impl EngineControl {
    /// A stopped engine at volume 75, not muted, equalizer on and flat.
    pub fn new() -> (r: EngineControl)
        ensures
            r.state == PlaybackState::Stopped,
            r.volume == 75,
            !r.muted,
            r.eq_gains@ == Seq::new(18, |k: int| 0u64),
            r.eq_enabled,
    {
        let mut g: Vec<u64> = Vec::new();
        let mut i: usize = 0;
        while i < 18
            invariant
                i <= 18,
                g@ == Seq::new(i as nat, |k: int| 0u64),
            decreases 18 - i,
        {
            g.push(0);
            assert(g@ =~= Seq::new((i + 1) as nat, |k: int| 0u64));
            i = i + 1;
        }
        EngineControl {
            state: PlaybackState::Stopped,
            volume: 75,
            muted: false,
            eq_gains: g,
            eq_enabled: true,
        }
    }

    /// Whether the engine decodes and sends samples.
    pub fn should_decode(&self) -> (r: bool)
        ensures
            r == (self.state == PlaybackState::Playing),
    {
        self.state == PlaybackState::Playing
    }

    /// The engine's answer to a command.
    pub fn on_command(&mut self, cmd: AudioCommand) -> (r: Vec<EngineAction>)
        ensures
            match cmd {
                AudioCommand::Play { url } => {
                    &&& r@.len() == 2
                    &&& r@[0] is Release
                    &&& r@[1] matches EngineAction::Open { url: u } && u@ == url@
                    &&& final(self).state == old(self).state
                },
                AudioCommand::Pause => if old(self).state == PlaybackState::Playing {
                    &&& final(self).state == PlaybackState::Paused
                    &&& r@.len() == 2
                    &&& r@[0] == EngineAction::SetPaused(true)
                    &&& emits_state(r@.drop_first(), PlaybackState::Paused)
                } else {
                    final(self).state == old(self).state && r@.len() == 0
                },
                AudioCommand::Resume => if old(self).state == PlaybackState::Paused {
                    &&& final(self).state == PlaybackState::Playing
                    &&& r@.len() == 2
                    &&& r@[0] == EngineAction::SetPaused(false)
                    &&& emits_state(r@.drop_first(), PlaybackState::Playing)
                } else {
                    final(self).state == old(self).state && r@.len() == 0
                },
                AudioCommand::Stop => {
                    &&& final(self).state == PlaybackState::Stopped
                    &&& r@.len() == 2
                    &&& r@[0] is Release
                    &&& emits_state(r@.drop_first(), PlaybackState::Stopped)
                },
                AudioCommand::Seek(pos) => final(self).state == old(self).state && r@ == seq![
                    EngineAction::SeekTo(pos),
                ],
                AudioCommand::SetVolume(v) => {
                    &&& final(self).volume == v
                    &&& final(self).state == old(self).state
                    &&& r@ == seq![EngineAction::SetOutputVolume(v)]
                },
                AudioCommand::SetMuted(m) => {
                    &&& final(self).muted == m
                    &&& final(self).state == old(self).state
                    &&& r@ == seq![EngineAction::SetOutputMuted(m)]
                },
                AudioCommand::SetEqGains(g) => {
                    &&& final(self).eq_gains@ == g@
                    &&& final(self).state == old(self).state
                    &&& r@.len() == 2
                    &&& r@[0] matches EngineAction::SetDspGains(h) && h@ == g@
                    &&& r@[1] is Flush
                },
                AudioCommand::SetEqEnabled(e) => {
                    &&& final(self).eq_enabled == e
                    &&& final(self).state == old(self).state
                    &&& r@ == seq![EngineAction::SetDspEnabled(e), EngineAction::Flush]
                },
                AudioCommand::Shutdown => final(self).state == old(self).state && r@ == seq![
                    EngineAction::Exit,
                ],
            },
            !(cmd is SetVolume) ==> final(self).volume == old(self).volume,
            !(cmd is SetMuted) ==> final(self).muted == old(self).muted,
            !(cmd is SetEqGains) ==> final(self).eq_gains@ == old(self).eq_gains@,
            !(cmd is SetEqEnabled) ==> final(self).eq_enabled == old(self).eq_enabled,
    {
        let mut r: Vec<EngineAction> = Vec::new();
        match cmd {
            AudioCommand::Play { url } => {
                r.push(EngineAction::Release);
                r.push(EngineAction::Open { url });
            },
            AudioCommand::Pause => {
                if self.state == PlaybackState::Playing {
                    self.state = PlaybackState::Paused;
                    r.push(EngineAction::SetPaused(true));
                    r.push(EngineAction::Emit(AudioEvent::StateChange(PlaybackState::Paused)));
                }
            },
            AudioCommand::Resume => {
                if self.state == PlaybackState::Paused {
                    self.state = PlaybackState::Playing;
                    r.push(EngineAction::SetPaused(false));
                    r.push(EngineAction::Emit(AudioEvent::StateChange(PlaybackState::Playing)));
                }
            },
            AudioCommand::Stop => {
                self.state = PlaybackState::Stopped;
                r.push(EngineAction::Release);
                r.push(EngineAction::Emit(AudioEvent::StateChange(PlaybackState::Stopped)));
            },
            AudioCommand::Seek(pos) => {
                r.push(EngineAction::SeekTo(pos));
            },
            AudioCommand::SetVolume(v) => {
                self.volume = v;
                r.push(EngineAction::SetOutputVolume(v));
            },
            AudioCommand::SetMuted(m) => {
                self.muted = m;
                r.push(EngineAction::SetOutputMuted(m));
            },
            AudioCommand::SetEqGains(g) => {
                let copy = vstd::slice::slice_to_vec(g.as_slice());
                self.eq_gains = g;
                r.push(EngineAction::SetDspGains(copy));
                r.push(EngineAction::Flush);
            },
            AudioCommand::SetEqEnabled(e) => {
                self.eq_enabled = e;
                r.push(EngineAction::SetDspEnabled(e));
                r.push(EngineAction::Flush);
            },
            AudioCommand::Shutdown => {
                r.push(EngineAction::Exit);
            },
        }
        r
    }

    /// A track was opened: the engine's equalizer, volume and mute are
    /// applied to it and it plays.
    pub fn on_opened(&mut self) -> (r: Vec<EngineAction>)
        ensures
            final(self).state == PlaybackState::Playing,
            r@.len() == 5,
            r@[0] matches EngineAction::SetDspGains(g) && g@ == old(self).eq_gains@,
            r@[1] == EngineAction::SetDspEnabled(old(self).eq_enabled),
            r@[2] == EngineAction::SetOutputVolume(old(self).volume),
            r@[3] == EngineAction::SetOutputMuted(old(self).muted),
            emits_state(r@.skip(4), PlaybackState::Playing),
            final(self).volume == old(self).volume,
            final(self).muted == old(self).muted,
            final(self).eq_gains@ == old(self).eq_gains@,
            final(self).eq_enabled == old(self).eq_enabled,
    {
        let mut r: Vec<EngineAction> = Vec::new();
        r.push(EngineAction::SetDspGains(vstd::slice::slice_to_vec(self.eq_gains.as_slice())));
        r.push(EngineAction::SetDspEnabled(self.eq_enabled));
        r.push(EngineAction::SetOutputVolume(self.volume));
        r.push(EngineAction::SetOutputMuted(self.muted));
        self.state = PlaybackState::Playing;
        r.push(EngineAction::Emit(AudioEvent::StateChange(PlaybackState::Playing)));
        r
    }

    /// Opening a track failed: the error is reported with the failing stage;
    /// nothing else changes.
    pub fn on_open_failed(&self, stage: OpenStage, detail: &str) -> (r: Vec<EngineAction>)
        ensures
            r@.len() == 1,
            r@[0] matches EngineAction::Emit(AudioEvent::Error(m)) && m@ == (match stage {
                OpenStage::Decoder => "Decode failed: "@,
                OpenStage::Output => "Audio output failed: "@,
            }) + detail@,
    {
        let mut m = match stage {
            OpenStage::Decoder => owned("Decode failed: "),
            OpenStage::Output => owned("Audio output failed: "),
        };
        m.append(detail);
        let mut r: Vec<EngineAction> = Vec::new();
        r.push(EngineAction::Emit(AudioEvent::Error(m)));
        r
    }

    /// The track ran out: the end is reported, the track released, and the
    /// engine stops.
    pub fn on_track_end(&mut self) -> (r: Vec<EngineAction>)
        ensures
            final(self).state == PlaybackState::Stopped,
            r@.len() == 3,
            r@[0] == EngineAction::Emit(AudioEvent::TrackEnd),
            r@[1] is Release,
            emits_state(r@.skip(2), PlaybackState::Stopped),
            final(self).volume == old(self).volume,
            final(self).muted == old(self).muted,
            final(self).eq_gains@ == old(self).eq_gains@,
            final(self).eq_enabled == old(self).eq_enabled,
    {
        let mut r: Vec<EngineAction> = Vec::new();
        r.push(EngineAction::Emit(AudioEvent::TrackEnd));
        r.push(EngineAction::Release);
        self.state = PlaybackState::Stopped;
        r.push(EngineAction::Emit(AudioEvent::StateChange(PlaybackState::Stopped)));
        r
    }
}

} // verus!
