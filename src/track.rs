//! The state of the observed track and the steps of one poll of the player.
//!
//! A poll runs as a small state machine. [`Track::begin_tick`] takes the
//! player's metadata descriptor and answers with the next [`Action`]: load a
//! new file, query the position, or emit. [`Track::update_track`],
//! [`Track::record_position`] and [`Track::record_status`] take the outcome
//! of each action in turn. Any failure demotes the status to `Stopped` and
//! ends the poll with the path, metadata and duration as they were.
use vstd::prelude::*;
use crate::metadata::{Metadata, lemma_pairs_map_index, pairs_map, unique_keys};
use crate::tags::ExtractError;

verus! {

/// The status label of a snapshot. `Quit` means that no player is reachable.
#[derive(Debug, Clone, Copy, PartialEq, Eq, Structural)]
pub enum Status {
    Playing,
    Paused,
    Stopped,
    Quit,
}

/// The playback status that a player reports.
#[derive(Debug, Clone, Copy, PartialEq, Eq, Structural)]
pub enum PlayerStatus {
    Playing,
    Paused,
    Stopped,
}

/// The text of a status label.
pub open spec fn status_label(s: Status) -> Seq<char> {
    match s {
        Status::Playing => seq!['P', 'l', 'a', 'y', 'i', 'n', 'g'],
        Status::Paused => seq!['P', 'a', 'u', 's', 'e', 'd'],
        Status::Stopped => seq!['S', 't', 'o', 'p', 'p', 'e', 'd'],
        Status::Quit => seq!['Q', 'u', 'i', 't'],
    }
}

/// The status label for what the player reports.
pub open spec fn status_of(p: PlayerStatus) -> Status {
    match p {
        PlayerStatus::Playing => Status::Playing,
        PlayerStatus::Paused => Status::Paused,
        PlayerStatus::Stopped => Status::Stopped,
    }
}

impl Status {
    /// The label's text: `Playing`, `Paused`, `Stopped` or `Quit`.
    pub fn label(&self) -> (r: String)
        ensures
            r@ == status_label(*self),
    {
        match self {
            Status::Playing => {
                proof {
                    reveal_strlit("Playing");
                }
                let t = "Playing".to_owned();
                assert(t@ =~= status_label(*self));
                t
            },
            Status::Paused => {
                proof {
                    reveal_strlit("Paused");
                }
                let t = "Paused".to_owned();
                assert(t@ =~= status_label(*self));
                t
            },
            Status::Stopped => {
                proof {
                    reveal_strlit("Stopped");
                }
                let t = "Stopped".to_owned();
                assert(t@ =~= status_label(*self));
                t
            },
            Status::Quit => {
                proof {
                    reveal_strlit("Quit");
                }
                let t = "Quit".to_owned();
                assert(t@ =~= status_label(*self));
                t
            },
        }
    }

    /// The label for a status that the player reports.
    pub fn from_player(p: PlayerStatus) -> (r: Status)
        ensures
            r == status_of(p),
    {
        match p {
            PlayerStatus::Playing => Status::Playing,
            PlayerStatus::Paused => Status::Paused,
            PlayerStatus::Stopped => Status::Stopped,
        }
    }
}

/// What the player says of its current track: the file's location and the
/// track's length in microseconds, each when it is known.
pub struct Descriptor {
    pub url: Option<String>,
    pub length: Option<u64>,
}

/// What the caller does next in a poll.
pub enum Action {
    /// Read the tags of the file at `path`, then call [`Track::update_track`].
    Extract { path: String, duration: u64 },
    /// Ask the player for the position, then call [`Track::record_position`].
    QueryPosition,
    /// Ask the player for its status, then call [`Track::record_status`].
    QueryStatus,
    /// The poll is over: emit the snapshot.
    Emit,
}

/// The mathematical form of an [`Action`].
pub ghost enum ActionView {
    Extract { path: Seq<char>, duration: u64 },
    QueryPosition,
    QueryStatus,
    Emit,
}

impl View for Action {
    type V = ActionView;

    open spec fn view(&self) -> ActionView {
        match self {
            Action::Extract { path, duration } => ActionView::Extract {
                path: path@,
                duration: *duration,
            },
            Action::QueryPosition => ActionView::QueryPosition,
            Action::QueryStatus => ActionView::QueryStatus,
            Action::Emit => ActionView::Emit,
        }
    }
}

/// The state of the observed track.
pub struct Track {
    /// The file that is loaded; empty when none is.
    pub path: String,
    pub metadata: Metadata,
    /// Elapsed playback time in microseconds.
    pub position: u64,
    /// Length of the track in microseconds; 0 when unknown.
    pub duration: u64,
    pub status: Status,
}

/// The mathematical form of a [`Track`].
pub ghost struct TrackView {
    pub path: Seq<char>,
    pub metadata: Map<Seq<char>, Seq<char>>,
    pub position: u64,
    pub duration: u64,
    pub status: Status,
}

impl View for Track {
    type V = TrackView;

    open spec fn view(&self) -> TrackView {
        TrackView {
            path: self.path@,
            metadata: self.metadata@,
            position: self.position,
            duration: self.duration,
            status: self.status,
        }
    }
}

/// What is emitted for a track: everything but its path.
pub struct Snapshot {
    /// The metadata as pairs with unique keys.
    pub metadata: Vec<(String, String)>,
    pub position: u64,
    pub duration: u64,
    pub status: Status,
}

/// The mathematical form of a [`Snapshot`].
pub ghost struct SnapshotView {
    pub metadata: Map<Seq<char>, Seq<char>>,
    pub position: u64,
    pub duration: u64,
    pub status: Status,
}

impl View for Snapshot {
    type V = SnapshotView;

    open spec fn view(&self) -> SnapshotView {
        SnapshotView {
            metadata: pairs_map(self.metadata@),
            position: self.position,
            duration: self.duration,
            status: self.status,
        }
    }
}

/// The snapshot of a track state.
pub open spec fn snapshot_of(t: TrackView) -> SnapshotView {
    SnapshotView {
        metadata: t.metadata,
        position: t.position,
        duration: t.duration,
        status: t.status,
    }
}

/// The state when no player is reachable: nothing loaded, all zero, `Quit`.
pub open spec fn quit_state() -> TrackView {
    TrackView {
        path: Seq::empty(),
        metadata: Map::empty(),
        position: 0,
        duration: 0,
        status: Status::Quit,
    }
}

/// The state after a failed step: only the status changes, to `Stopped`.
pub open spec fn demoted(t: TrackView) -> TrackView {
    TrackView { status: Status::Stopped, ..t }
}

/// The first step of a poll, given the player's descriptor, or none when the
/// query failed.
pub open spec fn begin_step(t: TrackView, desc: Option<Descriptor>) -> (TrackView, ActionView) {
    match desc {
        None => (demoted(t), ActionView::Emit),
        Some(d) => match d.url {
            None => (demoted(t), ActionView::Emit),
            Some(url) => if url@ == t.path {
                (t, ActionView::QueryPosition)
            } else {
                match d.length {
                    None => (demoted(t), ActionView::Emit),
                    Some(len) => (t, ActionView::Extract { path: url@, duration: len }),
                }
            },
        },
    }
}

/// The metadata map of an extraction's outcome.
pub open spec fn extracted_view(e: Result<Metadata, ExtractError>) -> Result<
    Map<Seq<char>, Seq<char>>,
    ExtractError,
> {
    match e {
        Ok(m) => Ok(m@),
        Err(err) => Err(err),
    }
}

/// The step after extraction: on success the path, metadata and duration are
/// replaced together.
pub open spec fn load_step(
    t: TrackView,
    path: Seq<char>,
    duration: u64,
    extracted: Result<Map<Seq<char>, Seq<char>>, ExtractError>,
) -> (TrackView, ActionView) {
    match extracted {
        Ok(m) => (
            TrackView { path: path, metadata: m, duration: duration, ..t },
            ActionView::QueryPosition,
        ),
        Err(_) => (demoted(t), ActionView::Emit),
    }
}

/// The step after the position query, given its answer or none on failure.
pub open spec fn position_step(t: TrackView, position: Option<u64>) -> (TrackView, ActionView) {
    match position {
        None => (demoted(t), ActionView::Emit),
        Some(p) => (TrackView { position: p, ..t }, ActionView::QueryStatus),
    }
}

/// The last step of a poll, given the player's status or none on failure.
pub open spec fn status_step(t: TrackView, status: Option<PlayerStatus>) -> TrackView {
    match status {
        None => demoted(t),
        Some(s) => TrackView { status: status_of(s), ..t },
    }
}

/// A whole poll, given every answer the player and the extractor could give;
/// each answer counts only if the poll gets to ask for it.
pub open spec fn run_tick(
    t: TrackView,
    desc: Option<Descriptor>,
    extracted: Result<Map<Seq<char>, Seq<char>>, ExtractError>,
    position: Option<u64>,
    status: Option<PlayerStatus>,
) -> TrackView {
    let (t1, a1) = begin_step(t, desc);
    let (t2, a2) = match a1 {
        ActionView::Extract { path, duration } => load_step(t1, path, duration, extracted),
        _ => (t1, a1),
    };
    let (t3, a3) = match a2 {
        ActionView::QueryPosition => position_step(t2, position),
        _ => (t2, a2),
    };
    match a3 {
        ActionView::QueryStatus => status_step(t3, status),
        _ => t3,
    }
}

impl Track {
    /// The metadata map is well formed.
    pub open spec fn wf(&self) -> bool {
        self.metadata.wf()
    }

    /// A track state with nothing loaded and status `Quit`.
    pub fn new() -> (r: Track)
        ensures
            r.wf(),
            r@ == quit_state(),
    {
        Track {
            path: String::new(),
            metadata: Metadata::new(),
            position: 0,
            duration: 0,
            status: Status::Quit,
        }
    }

    /// Sets the status to `Stopped` after a failed step, leaving the rest.
    pub fn demote(&mut self)
        ensures
            final(self)@ == demoted(old(self)@),
            final(self).metadata == old(self).metadata,
    {
        self.status = Status::Stopped;
    }

    /// Starts a poll with the player's metadata descriptor, or none when the
    /// query failed. The file is to be loaded only when its path differs from
    /// the one already loaded.
    pub fn begin_tick(&mut self, desc: Option<Descriptor>) -> (r: Action)
        requires
            old(self).wf(),
        ensures
            final(self).wf(),
            (final(self)@, r@) == begin_step(old(self)@, desc),
    {
        match desc {
            None => {
                self.demote();
                Action::Emit
            },
            Some(d) => match d.url {
                None => {
                    self.demote();
                    Action::Emit
                },
                Some(url) => {
                    if url == self.path {
                        Action::QueryPosition
                    } else {
                        match d.length {
                            None => {
                                self.demote();
                                Action::Emit
                            },
                            Some(len) => Action::Extract { path: url, duration: len },
                        }
                    }
                },
            },
        }
    }

    /// Takes the outcome of reading the tags of `path`. On success the path,
    /// metadata and duration are replaced together; on failure they stay and
    /// the status becomes `Stopped`.
    pub fn update_track(
        &mut self,
        path: String,
        duration: u64,
        extracted: Result<Metadata, ExtractError>,
    ) -> (r: Action)
        requires
            old(self).wf(),
            extracted is Ok ==> extracted->Ok_0.wf(),
        ensures
            final(self).wf(),
            (final(self)@, r@) == load_step(old(self)@, path@, duration, extracted_view(extracted)),
    {
        match extracted {
            Ok(m) => {
                self.path = path;
                self.metadata = m;
                self.duration = duration;
                Action::QueryPosition
            },
            Err(_) => {
                self.demote();
                Action::Emit
            },
        }
    }

    /// Takes the player's position, or none when the query failed.
    pub fn record_position(&mut self, position: Option<u64>) -> (r: Action)
        requires
            old(self).wf(),
        ensures
            final(self).wf(),
            (final(self)@, r@) == position_step(old(self)@, position),
    {
        match position {
            Some(p) => {
                self.position = p;
                Action::QueryStatus
            },
            None => {
                self.demote();
                Action::Emit
            },
        }
    }

    /// Takes the player's status, or none when the query failed; the poll is
    /// then over.
    pub fn record_status(&mut self, status: Option<PlayerStatus>) -> (r: Action)
        requires
            old(self).wf(),
        ensures
            final(self).wf(),
            final(self)@ == status_step(old(self)@, status),
            r@ == ActionView::Emit,
    {
        match status {
            Some(s) => {
                self.status = Status::from_player(s);
            },
            None => {
                self.demote();
            },
        }
        Action::Emit
    }

    /// Clears the state to `Quit`, as when no player is reachable.
    pub fn reset(&mut self)
        ensures
            final(self).wf(),
            final(self)@ == quit_state(),
    {
        self.path = String::new();
        self.metadata = Metadata::new();
        self.position = 0;
        self.duration = 0;
        self.status = Status::Quit;
    }

    /// The snapshot to emit for this state.
    pub fn snapshot(&self) -> (r: Snapshot)
        requires
            self.wf(),
        ensures
            unique_keys(r.metadata@),
            r@ == snapshot_of(self@),
    {
        Snapshot {
            metadata: self.metadata.to_pairs(),
            position: self.position,
            duration: self.duration,
            status: self.status,
        }
    }

    /// Ends a player session: the state is cleared to `Quit` and its snapshot,
    /// the one to emit before looking for the player again, is returned.
    pub fn end_session(&mut self) -> (r: Snapshot)
        ensures
            final(self).wf(),
            final(self)@ == quit_state(),
            r@ == snapshot_of(quit_state()),
            r.metadata@.len() == 0,
    {
        self.reset();
        let r = self.snapshot();
        proof {
            if r.metadata@.len() > 0 {
                lemma_pairs_map_index(r.metadata@, 0);
                assert(pairs_map(r.metadata@).dom().contains(r.metadata@[0].0@));
            }
        }
        r
    }
}

/// A poll whose descriptor names the file already loaded leaves the path,
/// metadata and duration as they were, whatever the position and status.
pub proof fn lemma_same_path_keeps_track(
    t: TrackView,
    desc: Descriptor,
    extracted: Result<Map<Seq<char>, Seq<char>>, ExtractError>,
    position: Option<u64>,
    status: Option<PlayerStatus>,
)
    requires
        desc.url is Some,
        desc.url->0@ == t.path,
    ensures
        run_tick(t, Some(desc), extracted, position, status).path == t.path,
        run_tick(t, Some(desc), extracted, position, status).metadata == t.metadata,
        run_tick(t, Some(desc), extracted, position, status).duration == t.duration,
{
}

/// A poll that moves to a new file and reads its tags takes the new path, the
/// new metadata and the new duration together.
pub proof fn lemma_new_path_loads_together(
    t: TrackView,
    desc: Descriptor,
    m: Map<Seq<char>, Seq<char>>,
    position: Option<u64>,
    status: Option<PlayerStatus>,
)
    requires
        desc.url is Some,
        desc.url->0@ != t.path,
        desc.length is Some,
    ensures
        run_tick(t, Some(desc), Ok(m), position, status).path == desc.url->0@,
        run_tick(t, Some(desc), Ok(m), position, status).metadata == m,
        run_tick(t, Some(desc), Ok(m), position, status).duration == desc.length->0,
{
}

/// A poll that moves to a new file whose tags cannot be read keeps the old
/// path, metadata and duration, and ends with status `Stopped`.
pub proof fn lemma_failed_load_keeps_track(
    t: TrackView,
    desc: Descriptor,
    err: ExtractError,
    position: Option<u64>,
    status: Option<PlayerStatus>,
)
    requires
        desc.url is Some,
        desc.url->0@ != t.path,
    ensures
        run_tick(t, Some(desc), Err(err), position, status).path == t.path,
        run_tick(t, Some(desc), Err(err), position, status).metadata == t.metadata,
        run_tick(t, Some(desc), Err(err), position, status).duration == t.duration,
        run_tick(t, Some(desc), Err(err), position, status).status == Status::Stopped,
{
}

/// In every poll the metadata and duration change only together with the
/// path: a poll that ends on the same path has left both as they were.
pub proof fn lemma_metadata_moves_with_path(
    t: TrackView,
    desc: Option<Descriptor>,
    extracted: Result<Map<Seq<char>, Seq<char>>, ExtractError>,
    position: Option<u64>,
    status: Option<PlayerStatus>,
)
    ensures
        run_tick(t, desc, extracted, position, status).path == t.path ==> run_tick(
            t,
            desc,
            extracted,
            position,
            status,
        ).metadata == t.metadata && run_tick(t, desc, extracted, position, status).duration
            == t.duration,
{
}

} // verus!
