//! The publish handshake and the rendering of what gets published.
//!
//! Two threads cooperate: a sampler that refreshes the status aggregate on a
//! cadence, and a publisher that owns the sink.  They exchange the commands
//! of [`MprisCommand`] over two one-directional channels and rendezvous on a
//! [`Gate`].  Every round opened for a detected change yields exactly one
//! emission, fixed before the sampler may acknowledge the aggregate, so no
//! change is cleared unobserved and none is published twice.

use vstd::prelude::*;
use crate::status::PlaybackStatus;
use crate::status::SpotifyStatus;

verus! {

/// A command exchanged between the sampler and the publisher.
#[derive(Clone, Copy, PartialEq, Eq, Structural, Debug)]
pub enum MprisCommand {
    /// Publisher to sampler: the round's emission is fixed; resetting is safe.
    Ack,
    /// Sampler to publisher: a change was detected, a round is open.
    Tick,
    /// Shutdown of the publisher loop.
    Stop,
}

/// Where the rendezvous between the two threads stands.
#[derive(Clone, Copy, PartialEq, Eq, Structural, Debug)]
pub enum GatePhase {
    /// No round in flight.
    Idle,
    /// The sampler detected a change and awaits the publisher.
    TickPending,
    /// The publisher fixed this round's emission; the sampler may now
    /// acknowledge the aggregate and close the round.
    Acked,
    /// The publisher loop was torn down; no further round can open.
    Stopped,
}

/// The groups of properties carried by one change notification.  The track
/// metadata travels as one group and is included exactly when some track
/// field changed; the transport, loop, shuffle, volume and position groups
/// are always included.
#[derive(Clone, Copy, PartialEq, Eq, Structural, Debug)]
pub struct GroupSelection {
    pub metadata: bool,
    pub playback_status: bool,
    pub loop_status: bool,
    pub shuffle: bool,
    pub volume: bool,
    pub position: bool,
}

impl GroupSelection {
    /// The selection owed for an aggregate in a given state.
    pub open spec fn for_status(status: SpotifyStatus) -> GroupSelection {
        GroupSelection {
            metadata: status.track.dirty(),
            playback_status: true,
            loop_status: true,
            shuffle: true,
            volume: true,
            position: true,
        }
    }
}

/// Computes which property groups one change notification must carry:
/// the track-metadata group exactly when some track field is unacknowledged,
/// the remaining groups always.
pub fn select_groups(status: &SpotifyStatus) -> (sel: GroupSelection)
    ensures
        sel == GroupSelection::for_status(*status),
{
    GroupSelection {
        metadata: status.track().has_changed(),
        playback_status: true,
        loop_status: true,
        shuffle: true,
        volume: true,
        position: true,
    }
}

/// The rendezvous gate between the sampler and the publisher.
///
/// The phase enforces the two-phase protocol: a round opens only from
/// `Idle`, the emission is fixed exactly once per round, and the aggregate
/// may be acknowledged only after that.  The ghost counters witness it:
/// whenever no round is past its emission, the number of emissions equals
/// the number of completed rounds.
pub struct Gate {
    pub phase: GatePhase,
    /// Completed rounds.
    pub rounds: Ghost<nat>,
    /// Emissions fixed by the publisher.
    pub emits: Ghost<nat>,
}

impl Gate {
    /// One emission per round: the counters differ exactly while a round
    /// sits between its emission and its completion.
    pub open spec fn wf(self) -> bool {
        self.emits@ == self.rounds@ + (if self.phase is Acked {
            1nat
        } else {
            0nat
        })
    }

    /// A fresh gate: no round in flight, nothing emitted.
    pub fn new() -> (g: Gate)
        ensures
            g.phase is Idle,
            g.rounds@ == 0,
            g.emits@ == 0,
            g.wf(),
    {
        Gate { phase: GatePhase::Idle, rounds: Ghost(0nat), emits: Ghost(0nat) }
    }

    /// The sampler opens a round for a detected change; the returned `Tick`
    /// is what it must send to the publisher before blocking for `Ack`.
    pub fn begin_round(&mut self) -> (cmd: MprisCommand)
        requires
            old(self).wf(),
            old(self).phase is Idle,
        ensures
            final(self).wf(),
            final(self).phase is TickPending,
            final(self).rounds == old(self).rounds,
            final(self).emits == old(self).emits,
            cmd is Tick,
    {
        self.phase = GatePhase::TickPending;
        MprisCommand::Tick
    }

    /// The sampler's decision after a successful refresh: open a round
    /// exactly when the aggregate reports a change, else do nothing.
    pub fn maybe_begin_round(&mut self, status: &SpotifyStatus) -> (cmd: Option<MprisCommand>)
        requires
            old(self).wf(),
            old(self).phase is Idle,
        ensures
            final(self).wf(),
            final(self).rounds == old(self).rounds,
            final(self).emits == old(self).emits,
            cmd is Some <==> status.dirty(),
            status.dirty() ==> final(self).phase is TickPending && cmd == Some(
                MprisCommand::Tick,
            ),
            !status.dirty() ==> *final(self) == *old(self),
    {
        if status.has_changed() {
            Some(self.begin_round())
        } else {
            None
        }
    }

    /// The publisher, having received `Tick`, fixes this round's one
    /// emission: it selects the groups from the aggregate's change reports
    /// while the round is still open, and only then hands back the `Ack`
    /// that releases the sampler.  No change can slip in between the
    /// selection and the acknowledgment, because the sampler is blocked
    /// until `Ack` and acknowledges only through [`Gate::complete_round`].
    pub fn acknowledge(&mut self, status: &SpotifyStatus) -> (reply: (MprisCommand, GroupSelection))
        requires
            old(self).wf(),
            old(self).phase is TickPending,
        ensures
            final(self).wf(),
            final(self).phase is Acked,
            final(self).rounds == old(self).rounds,
            final(self).emits@ == old(self).emits@ + 1,
            reply.0 is Ack,
            reply.1 == GroupSelection::for_status(*status),
    {
        let sel = select_groups(status);
        self.phase = GatePhase::Acked;
        self.emits = Ghost(self.emits@ + 1);
        (MprisCommand::Ack, sel)
    }

    /// The sampler, having received `Ack`, closes the round: the aggregate
    /// is acknowledged only now, after the publisher has fixed its
    /// selection, so a detected change is never cleared unobserved.
    pub fn complete_round(&mut self, status: &mut SpotifyStatus)
        requires
            old(self).wf(),
            old(self).phase is Acked,
        ensures
            final(self).wf(),
            final(self).phase is Idle,
            final(self).rounds@ == old(self).rounds@ + 1,
            final(self).emits == old(self).emits,
            *final(status) == old(status).reset_model(),
    {
        status.reset();
        self.phase = GatePhase::Idle;
        self.rounds = Ghost(self.rounds@ + 1);
    }

    /// Shutdown between rounds; the returned `Stop` tears the publisher
    /// loop down, and no further round can open.
    pub fn stop(&mut self) -> (cmd: MprisCommand)
        requires
            old(self).wf(),
            old(self).phase is Idle,
        ensures
            final(self).wf(),
            final(self).phase is Stopped,
            final(self).rounds == old(self).rounds,
            final(self).emits == old(self).emits,
            cmd is Stop,
    {
        self.phase = GatePhase::Stopped;
        MprisCommand::Stop
    }
}

/// Whenever no round sits between its emission and its completion, the
/// publisher has emitted exactly once per completed round: for any single
/// detected change, one emission is fixed before the next round can begin —
/// none duplicated, none dropped.
pub proof fn lemma_one_emission_per_round(g: Gate)
    requires
        g.wf(),
        !(g.phase is Acked),
    ensures
        g.emits@ == g.rounds@,
{
}

/// The transport state as the sink's consumers read it.
pub open spec fn playback_status_label(s: PlaybackStatus) -> Seq<char> {
    match s {
        PlaybackStatus::Stopped => "Stopped"@,
        PlaybackStatus::Playing => "Playing"@,
        PlaybackStatus::Paused => "Paused"@,
    }
}

/// Renders the transport state for the pull path; it reads the current
/// value and never consults or mutates the change reports.
pub fn get_playbackstatus(status: &SpotifyStatus) -> (r: String)
    ensures
        r@ == playback_status_label(status.playback_status.value),
{
    match status.playback_status() {
        PlaybackStatus::Stopped => "Stopped".to_owned(),
        PlaybackStatus::Playing => "Playing".to_owned(),
        PlaybackStatus::Paused => "Paused".to_owned(),
    }
}

/// The loop setting as the sink's consumers read it: an unknown or unset
/// repeat flag reads as no looping.
pub open spec fn loop_status_label(repeating: Option<bool>) -> Seq<char> {
    if repeating == Some(true) {
        "Playlist"@
    } else {
        "None"@
    }
}

/// Renders the loop setting for the pull path.
pub fn get_loopstatus(status: &SpotifyStatus) -> (r: String)
    ensures
        r@ == loop_status_label(status.repeating.value),
{
    match status.is_repeating() {
        Some(true) => "Playlist".to_owned(),
        _ => "None".to_owned(),
    }
}

/// Renders the shuffle flag for the pull path: unknown reads as off.
pub fn get_shuffle(status: &SpotifyStatus) -> (r: bool)
    ensures
        r == (status.shuffling.value == Some(true)),
{
    match status.is_shuffling() {
        Some(v) => v,
        None => false,
    }
}

/// Renders the playhead position, in microseconds, for the pull path:
/// unknown reads as zero.
pub fn get_position(status: &SpotifyStatus) -> (r: u64)
    ensures
        r == (match status.position.value {
            Some(p) => p,
            None => 0u64,
        }),
{
    match status.position() {
        Some(p) => p,
        None => 0,
    }
}

/// The string a possibly unknown field renders as: its value, or empty.
pub open spec fn string_or_empty(v: Option<String>) -> Seq<char> {
    match v {
        Some(s) => s@,
        None => Seq::<char>::empty(),
    }
}

fn clone_or_empty(v: &Option<String>) -> (r: String)
    ensures
        r@ == string_or_empty(*v),
{
    match v {
        Some(s) => s.clone(),
        None => String::new(),
    }
}

/// The track metadata as one flat record, ready for the sink's schema.
/// Unknown strings render empty, unknown numbers as zero; the length is the
/// sampled duration scaled by a thousand.
#[derive(Debug)]
pub struct MetadataSnapshot {
    pub track_id: String,
    pub length: i64,
    pub art_url: String,
    pub album: String,
    pub album_artist: String,
    pub artist: String,
    pub disc_number: i32,
    pub title: String,
    pub track_number: i32,
    pub url: String,
}

/// Renders the current track metadata for the pull path; it reads current
/// values only, independent of any pending change reports.
pub fn get_metadata(status: &SpotifyStatus) -> (m: MetadataSnapshot)
    ensures
        m.track_id@ == string_or_empty(status.track.id.value),
        m.length == (match status.track.duration.value {
            Some(d) => d as int * 1000,
            None => 0int,
        }),
        m.art_url@ == string_or_empty(status.track.artwork_url.value),
        m.album@ == string_or_empty(status.track.album.value),
        m.album_artist@ == string_or_empty(status.track.album_artist.value),
        m.artist@ == string_or_empty(status.track.artist.value),
        m.disc_number == (match status.track.disk_number.value {
            Some(d) => d,
            None => 0i32,
        }),
        m.title@ == string_or_empty(status.track.name.value),
        m.track_number == 0,
        m.url@ == string_or_empty(status.track.url.value),
{
    let track = status.track();
    MetadataSnapshot {
        track_id: clone_or_empty(track.id()),
        length: match track.duration() {
            Some(d) => (*d as i64) * 1000,
            None => 0,
        },
        art_url: clone_or_empty(track.artwork_url()),
        album: clone_or_empty(track.album()),
        album_artist: clone_or_empty(track.album_artist()),
        artist: clone_or_empty(track.artist()),
        disc_number: match track.disk_number() {
            Some(d) => *d,
            None => 0,
        },
        title: clone_or_empty(track.name()),
        track_number: 0,
        url: clone_or_empty(track.url()),
    }
}

} // verus!
