//! The aggregate playback status: one dirty-bit cell per field, with
//! whole-object change detection, acknowledgment, and a fallible refresh
//! from the outcome of one query cycle against the media source.

use vstd::prelude::*;
use crate::util::ATracked;
use crate::util::CellValue;

verus! {

/// Transport state of the playback session.
#[derive(Clone, Copy, PartialEq, Eq, Structural, Debug)]
pub enum PlaybackStatus {
    Stopped,
    Playing,
    Paused,
}

impl DeepView for PlaybackStatus {
    type V = PlaybackStatus;

    open spec fn deep_view(&self) -> PlaybackStatus {
        *self
    }
}

impl CellValue for PlaybackStatus {
    fn eq_value(&self, other: &Self) -> (r: bool) {
        *self == *other
    }

    fn dup(&self) -> (r: Self) {
        *self
    }
}

/// Identity and metadata of the current track, each field change-tracked.
/// `None` means unknown or not applicable (for instance, nothing playing).
#[derive(Debug)]
pub struct Track {
    pub artist: ATracked<Option<String>>,
    pub id: ATracked<Option<String>>,
    pub name: ATracked<Option<String>>,
    pub album: ATracked<Option<String>>,
    pub album_artist: ATracked<Option<String>>,
    pub artwork_url: ATracked<Option<String>>,
    pub disk_number: ATracked<Option<i32>>,
    pub duration: ATracked<Option<i32>>,
    pub url: ATracked<Option<String>>,
}

/// The metadata of one sampled track, as plain values.
#[derive(Debug)]
pub struct TrackFacts {
    pub artist: Option<String>,
    pub id: Option<String>,
    pub name: Option<String>,
    pub album: Option<String>,
    pub album_artist: Option<String>,
    pub artwork_url: Option<String>,
    pub disk_number: Option<i32>,
    pub duration: Option<i32>,
    pub url: Option<String>,
}

/// The facts to write: a missing track means every field is unknown.
pub open spec fn facts_or_unknown(facts: Option<TrackFacts>) -> TrackFacts {
    match facts {
        Some(f) => f,
        None => TrackFacts {
            artist: None,
            id: None,
            name: None,
            album: None,
            album_artist: None,
            artwork_url: None,
            disk_number: None,
            duration: None,
            url: None,
        },
    }
}

impl Track {
    /// Some field holds a value differing from its last acknowledged one.
    pub open spec fn dirty(self) -> bool {
        ||| self.artist.dirty()
        ||| self.id.dirty()
        ||| self.name.dirty()
        ||| self.album.dirty()
        ||| self.album_artist.dirty()
        ||| self.artwork_url.dirty()
        ||| self.disk_number.dirty()
        ||| self.duration.dirty()
        ||| self.url.dirty()
    }

    /// The track after every field has been acknowledged.
    pub open spec fn reset_model(self) -> Track {
        Track {
            artist: self.artist.reset_model(),
            id: self.id.reset_model(),
            name: self.name.reset_model(),
            album: self.album.reset_model(),
            album_artist: self.album_artist.reset_model(),
            artwork_url: self.artwork_url.reset_model(),
            disk_number: self.disk_number.reset_model(),
            duration: self.duration.reset_model(),
            url: self.url.reset_model(),
        }
    }

    /// The track after one refresh wrote the given facts into every field.
    pub open spec fn applied_model(self, facts: Option<TrackFacts>) -> Track {
        let f = facts_or_unknown(facts);
        Track {
            artist: self.artist.set_model(f.artist),
            id: self.id.set_model(f.id),
            name: self.name.set_model(f.name),
            album: self.album.set_model(f.album),
            album_artist: self.album_artist.set_model(f.album_artist),
            artwork_url: self.artwork_url.set_model(f.artwork_url),
            disk_number: self.disk_number.set_model(f.disk_number),
            duration: self.duration.set_model(f.duration),
            url: self.url.set_model(f.url),
        }
    }

    /// A track with every field unknown and acknowledged.
    pub open spec fn unknown() -> Track {
        Track {
            artist: ATracked { value: None, baseline: None },
            id: ATracked { value: None, baseline: None },
            name: ATracked { value: None, baseline: None },
            album: ATracked { value: None, baseline: None },
            album_artist: ATracked { value: None, baseline: None },
            artwork_url: ATracked { value: None, baseline: None },
            disk_number: ATracked { value: None, baseline: None },
            duration: ATracked { value: None, baseline: None },
            url: ATracked { value: None, baseline: None },
        }
    }

    pub fn artist(&self) -> (r: &Option<String>)
        ensures
            *r == self.artist.value,
    {
        self.artist.get()
    }

    pub fn set_artist(&mut self, value: Option<String>)
        ensures
            *final(self) == (Track { artist: old(self).artist.set_model(value), ..*old(self) }),
    {
        self.artist.set(value);
    }

    pub fn id(&self) -> (r: &Option<String>)
        ensures
            *r == self.id.value,
    {
        self.id.get()
    }

    pub fn set_id(&mut self, value: Option<String>)
        ensures
            *final(self) == (Track { id: old(self).id.set_model(value), ..*old(self) }),
    {
        self.id.set(value);
    }

    pub fn name(&self) -> (r: &Option<String>)
        ensures
            *r == self.name.value,
    {
        self.name.get()
    }

    pub fn set_name(&mut self, value: Option<String>)
        ensures
            *final(self) == (Track { name: old(self).name.set_model(value), ..*old(self) }),
    {
        self.name.set(value);
    }

    pub fn album(&self) -> (r: &Option<String>)
        ensures
            *r == self.album.value,
    {
        self.album.get()
    }

    pub fn set_album(&mut self, value: Option<String>)
        ensures
            *final(self) == (Track { album: old(self).album.set_model(value), ..*old(self) }),
    {
        self.album.set(value);
    }

    pub fn album_artist(&self) -> (r: &Option<String>)
        ensures
            *r == self.album_artist.value,
    {
        self.album_artist.get()
    }

    pub fn set_album_artist(&mut self, value: Option<String>)
        ensures
            *final(self) == (Track {
                album_artist: old(self).album_artist.set_model(value),
                ..*old(self)
            }),
    {
        self.album_artist.set(value);
    }

    pub fn artwork_url(&self) -> (r: &Option<String>)
        ensures
            *r == self.artwork_url.value,
    {
        self.artwork_url.get()
    }

    pub fn set_artwork_url(&mut self, value: Option<String>)
        ensures
            *final(self) == (Track {
                artwork_url: old(self).artwork_url.set_model(value),
                ..*old(self)
            }),
    {
        self.artwork_url.set(value);
    }

    pub fn disk_number(&self) -> (r: &Option<i32>)
        ensures
            *r == self.disk_number.value,
    {
        self.disk_number.get()
    }

    pub fn set_disk_number(&mut self, value: Option<i32>)
        ensures
            *final(self) == (Track {
                disk_number: old(self).disk_number.set_model(value),
                ..*old(self)
            }),
    {
        self.disk_number.set(value);
    }

    pub fn duration(&self) -> (r: &Option<i32>)
        ensures
            *r == self.duration.value,
    {
        self.duration.get()
    }

    pub fn set_duration(&mut self, value: Option<i32>)
        ensures
            *final(self) == (Track { duration: old(self).duration.set_model(value), ..*old(self) }),
    {
        self.duration.set(value);
    }

    pub fn url(&self) -> (r: &Option<String>)
        ensures
            *r == self.url.value,
    {
        self.url.get()
    }

    pub fn set_url(&mut self, value: Option<String>)
        ensures
            *final(self) == (Track { url: old(self).url.set_model(value), ..*old(self) }),
    {
        self.url.set(value);
    }

    /// Whether any field changed since its last acknowledgment.
    pub fn has_changed(&self) -> (r: bool)
        ensures
            r == self.dirty(),
    {
        self.artist.has_changed() || self.id.has_changed() || self.name.has_changed()
            || self.album.has_changed() || self.album_artist.has_changed()
            || self.artwork_url.has_changed() || self.disk_number.has_changed()
            || self.duration.has_changed() || self.url.has_changed()
    }

    /// Acknowledges every field; values are untouched.
    pub fn reset(&mut self)
        ensures
            *final(self) == old(self).reset_model(),
    {
        self.artist.reset();
        self.id.reset();
        self.name.reset();
        self.album.reset();
        self.album_artist.reset();
        self.artwork_url.reset();
        self.disk_number.reset();
        self.duration.reset();
        self.url.reset();
    }

    /// Writes the given facts into every field.
    pub fn apply_facts(&mut self, facts: Option<TrackFacts>)
        ensures
            *final(self) == old(self).applied_model(facts),
    {
        match facts {
            Some(f) => {
                self.set_artist(f.artist);
                self.set_id(f.id);
                self.set_name(f.name);
                self.set_album(f.album);
                self.set_album_artist(f.album_artist);
                self.set_artwork_url(f.artwork_url);
                self.set_disk_number(f.disk_number);
                self.set_duration(f.duration);
                self.set_url(f.url);
            },
            None => {
                self.set_artist(None);
                self.set_id(None);
                self.set_name(None);
                self.set_album(None);
                self.set_album_artist(None);
                self.set_artwork_url(None);
                self.set_disk_number(None);
                self.set_duration(None);
                self.set_url(None);
            },
        }
    }
}

impl Default for Track {
    /// A track with every field unknown, reporting no change.
    fn default() -> (t: Track)
        ensures
            t == Track::unknown(),
    {
        Track {
            artist: ATracked::new(None),
            id: ATracked::new(None),
            name: ATracked::new(None),
            album: ATracked::new(None),
            album_artist: ATracked::new(None),
            artwork_url: ATracked::new(None),
            disk_number: ATracked::new(None),
            duration: ATracked::new(None),
            url: ATracked::new(None),
        }
    }
}

/// Low-level failure code reported when the player process is not running.
pub const PROC_NOT_FOUND: i32 = -600;

/// Low-level failure code reported when the connection to the player is gone.
pub const CONNECTION_INVALID: i32 = -609;

/// A failed query cycle, carrying the raw failure code if one was reported.
#[derive(Clone, Copy, PartialEq, Eq, Structural, Debug)]
pub struct QueryFailure {
    pub code: Option<i32>,
}

impl QueryFailure {
    /// The failure means the source has no active session right now — the
    /// player is simply not running — rather than a genuine fault.
    pub open spec fn session_absent(self) -> bool {
        self.code == Some(PROC_NOT_FOUND) || self.code == Some(CONNECTION_INVALID)
    }

    /// Whether the failure is the distinguished "no active session" one.
    pub fn is_session_absent(&self) -> (r: bool)
        ensures
            r == self.session_absent(),
    {
        match self.code {
            Some(code) => code == PROC_NOT_FOUND || code == CONNECTION_INVALID,
            None => false,
        }
    }
}

/// What one successful query cycle against the source observed.
///
/// The transport state is always sampled first; only when it is not
/// `Stopped` are the remaining playback facts and the track metadata
/// sampled as well.  A stopped-but-present session still reports the
/// device volume.
#[derive(Debug)]
pub enum SessionSnapshot {
    /// The session is stopped; only the device volume was sampled.
    Stopped { volume: Option<i32> },
    /// The session is playing or paused, with a full sample.
    Active {
        playback_status: PlaybackStatus,
        shuffling: Option<bool>,
        repeating: Option<bool>,
        /// Playhead position in microseconds.
        position: Option<u64>,
        volume: Option<i32>,
        track: Option<TrackFacts>,
    },
}

impl SessionSnapshot {
    /// An active sample never carries the stopped transport state.
    pub open spec fn wf(self) -> bool {
        match self {
            SessionSnapshot::Active { playback_status, .. } => playback_status
                != PlaybackStatus::Stopped,
            SessionSnapshot::Stopped { .. } => true,
        }
    }
}

/// The whole change-tracked status of the playback session: the current
/// track plus the transport fields, every one an [`ATracked`] cell.
#[derive(Debug)]
pub struct SpotifyStatus {
    pub track: Track,
    pub playback_status: ATracked<PlaybackStatus>,
    pub shuffling: ATracked<Option<bool>>,
    pub repeating: ATracked<Option<bool>>,
    /// Playhead position in microseconds.
    pub position: ATracked<Option<u64>>,
    /// Device volume, 0 to 100.
    pub volume: ATracked<Option<i32>>,
}

impl SpotifyStatus {
    /// Some cell, anywhere in the aggregate, holds an unacknowledged change.
    pub open spec fn dirty(self) -> bool {
        ||| self.track.dirty()
        ||| self.playback_status.dirty()
        ||| self.shuffling.dirty()
        ||| self.repeating.dirty()
        ||| self.position.dirty()
        ||| self.volume.dirty()
    }

    /// The aggregate after every cell has been acknowledged.
    pub open spec fn reset_model(self) -> SpotifyStatus {
        SpotifyStatus {
            track: self.track.reset_model(),
            playback_status: self.playback_status.reset_model(),
            shuffling: self.shuffling.reset_model(),
            repeating: self.repeating.reset_model(),
            position: self.position.reset_model(),
            volume: self.volume.reset_model(),
        }
    }

    /// The aggregate after a refresh found no active session: every value is
    /// forced to the canonical "nothing playing" state, while the baselines —
    /// and with them the pending change reports — are kept.
    pub open spec fn cleared_model(self) -> SpotifyStatus {
        SpotifyStatus {
            track: self.track.applied_model(None),
            playback_status: self.playback_status.set_model(PlaybackStatus::Stopped),
            shuffling: self.shuffling.set_model(None),
            repeating: self.repeating.set_model(None),
            position: self.position.set_model(None),
            volume: self.volume.set_model(None),
        }
    }

    /// The aggregate after a refresh found a stopped session: the transport
    /// state and the device volume are written, every other cell untouched.
    pub open spec fn applied_stopped_model(self, volume: Option<i32>) -> SpotifyStatus {
        SpotifyStatus {
            playback_status: self.playback_status.set_model(PlaybackStatus::Stopped),
            volume: self.volume.set_model(volume),
            ..self
        }
    }

    /// The aggregate after a refresh wrote a full active sample.
    pub open spec fn applied_active_model(
        self,
        playback_status: PlaybackStatus,
        shuffling: Option<bool>,
        repeating: Option<bool>,
        position: Option<u64>,
        volume: Option<i32>,
        track: Option<TrackFacts>,
    ) -> SpotifyStatus {
        SpotifyStatus {
            track: self.track.applied_model(track),
            playback_status: self.playback_status.set_model(playback_status),
            shuffling: self.shuffling.set_model(shuffling),
            repeating: self.repeating.set_model(repeating),
            position: self.position.set_model(position),
            volume: self.volume.set_model(volume),
        }
    }

    pub fn playback_status(&self) -> (r: PlaybackStatus)
        ensures
            r == self.playback_status.value,
    {
        *self.playback_status.get()
    }

    pub fn set_playback_status(&mut self, value: PlaybackStatus)
        ensures
            *final(self) == (SpotifyStatus {
                playback_status: old(self).playback_status.set_model(value),
                ..*old(self)
            }),
    {
        self.playback_status.set(value);
    }

    pub fn is_shuffling(&self) -> (r: Option<bool>)
        ensures
            r == self.shuffling.value,
    {
        *self.shuffling.get()
    }

    pub fn set_shuffling(&mut self, value: Option<bool>)
        ensures
            *final(self) == (SpotifyStatus {
                shuffling: old(self).shuffling.set_model(value),
                ..*old(self)
            }),
    {
        self.shuffling.set(value);
    }

    pub fn is_repeating(&self) -> (r: Option<bool>)
        ensures
            r == self.repeating.value,
    {
        *self.repeating.get()
    }

    pub fn set_repeating(&mut self, value: Option<bool>)
        ensures
            *final(self) == (SpotifyStatus {
                repeating: old(self).repeating.set_model(value),
                ..*old(self)
            }),
    {
        self.repeating.set(value);
    }

    /// Playhead position in microseconds.
    pub fn position(&self) -> (r: Option<u64>)
        ensures
            r == self.position.value,
    {
        *self.position.get()
    }

    pub fn set_position(&mut self, value: Option<u64>)
        ensures
            *final(self) == (SpotifyStatus {
                position: old(self).position.set_model(value),
                ..*old(self)
            }),
    {
        self.position.set(value);
    }

    pub fn volume(&self) -> (r: Option<i32>)
        ensures
            r == self.volume.value,
    {
        *self.volume.get()
    }

    pub fn set_volume(&mut self, value: Option<i32>)
        ensures
            *final(self) == (SpotifyStatus {
                volume: old(self).volume.set_model(value),
                ..*old(self)
            }),
    {
        self.volume.set(value);
    }

    pub fn track(&self) -> (r: &Track)
        ensures
            *r == self.track,
    {
        &self.track
    }

    /// Whether any cell of the aggregate, the track included, changed since
    /// its last acknowledgment.
    pub fn has_changed(&self) -> (r: bool)
        ensures
            r == self.dirty(),
    {
        self.track.has_changed() || self.playback_status.has_changed()
            || self.shuffling.has_changed() || self.repeating.has_changed()
            || self.position.has_changed() || self.volume.has_changed()
    }

    /// Acknowledges every cell of the aggregate; values are untouched.
    pub fn reset(&mut self)
        ensures
            *final(self) == old(self).reset_model(),
    {
        self.track.reset();
        self.playback_status.reset();
        self.shuffling.reset();
        self.repeating.reset();
        self.position.reset();
        self.volume.reset();
    }

    /// Refreshes the aggregate from the outcome of one query cycle.
    ///
    /// * The distinguished "no active session" failure forces the canonical
    ///   "nothing playing" state and reports success: an idle player is not
    ///   a fault.
    /// * Any other failure is returned unchanged and leaves every cell —
    ///   values and change reports alike — exactly as it was.
    /// * A successful sample is written field by field through each cell's
    ///   `set`, so change reports accumulate at field granularity; a stopped
    ///   session refreshes only the transport state and the device volume.
    pub fn update(&mut self, outcome: Result<SessionSnapshot, QueryFailure>) -> (r: Result<
        (),
        QueryFailure,
    >)
        requires
            outcome matches Ok(snapshot) ==> snapshot.wf(),
        ensures
            match outcome {
                Result::Err(failure) => if failure.session_absent() {
                    &&& r is Ok
                    &&& *final(self) == old(self).cleared_model()
                } else {
                    &&& r == Result::<(), QueryFailure>::Err(failure)
                    &&& *final(self) == *old(self)
                },
                Result::Ok(snapshot) => {
                    &&& r is Ok
                    &&& match snapshot {
                        SessionSnapshot::Stopped { volume } => *final(self) == old(
                            self,
                        ).applied_stopped_model(volume),
                        SessionSnapshot::Active {
                            playback_status,
                            shuffling,
                            repeating,
                            position,
                            volume,
                            track,
                        } => *final(self) == old(self).applied_active_model(
                            playback_status,
                            shuffling,
                            repeating,
                            position,
                            volume,
                            track,
                        ),
                    }
                },
            },
    {
        match outcome {
            Err(failure) => {
                if failure.is_session_absent() {
                    self.set_playback_status(PlaybackStatus::Stopped);
                    self.set_volume(None);
                    self.set_shuffling(None);
                    self.set_repeating(None);
                    self.set_position(None);
                    self.track.apply_facts(None);
                    Ok(())
                } else {
                    Err(failure)
                }
            },
            Ok(SessionSnapshot::Stopped { volume }) => {
                self.set_playback_status(PlaybackStatus::Stopped);
                self.set_volume(volume);
                Ok(())
            },
            Ok(
                SessionSnapshot::Active {
                    playback_status,
                    shuffling,
                    repeating,
                    position,
                    volume,
                    track,
                },
            ) => {
                self.set_playback_status(playback_status);
                self.set_volume(volume);
                self.set_shuffling(shuffling);
                self.set_repeating(repeating);
                self.set_position(position);
                self.track.apply_facts(track);
                Ok(())
            },
        }
    }
}

/// Acknowledging the whole aggregate clears every change report without
/// touching any value, and doing it twice in a row is the same as once.
pub proof fn lemma_status_reset(s: SpotifyStatus)
    ensures
        !s.reset_model().dirty(),
        s.reset_model().reset_model() == s.reset_model(),
{
}

impl Default for SpotifyStatus {
    /// The aggregate at process start: transport stopped, everything else
    /// unknown, no change reported anywhere.
    fn default() -> (s: SpotifyStatus)
        ensures
            s.track == Track::unknown(),
            s.playback_status.value == PlaybackStatus::Stopped,
            s.playback_status.baseline == PlaybackStatus::Stopped,
            s.shuffling == (ATracked::<Option<bool>> { value: None, baseline: None }),
            s.repeating == (ATracked::<Option<bool>> { value: None, baseline: None }),
            s.position == (ATracked::<Option<u64>> { value: None, baseline: None }),
            s.volume == (ATracked::<Option<i32>> { value: None, baseline: None }),
    {
        SpotifyStatus {
            track: Track::default(),
            playback_status: ATracked::new(PlaybackStatus::Stopped),
            shuffling: ATracked::new(None),
            repeating: ATracked::new(None),
            position: ATracked::new(None),
            volume: ATracked::new(None),
        }
    }
}

} // verus!

