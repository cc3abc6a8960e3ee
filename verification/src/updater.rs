use vstd::prelude::*;

verus! {

/// Messages that switch the updater's tickers on and off.
#[derive(Clone, Copy, Debug, PartialEq, Eq, Structural)]
pub enum UpdateActions {
    Playback(bool),
    LoadingLibrary(bool),
    LoadingTrack(bool),
}

/// The updater's switchboard: what is currently running or loading.
#[derive(Clone, Copy, Debug, PartialEq, Eq, Structural)]
pub struct UpdaterFlags {
    pub playback: bool,
    pub loading_library: bool,
    pub loading_track: bool,
}

impl UpdaterFlags {
    pub fn init() -> (r: UpdaterFlags)
        ensures
            !r.playback,
            !r.loading_library,
            !r.loading_track,
    {
        UpdaterFlags { playback: false, loading_library: false, loading_track: false }
    }

    /// Fold one message into the switchboard.
    pub fn apply(&mut self, action: UpdateActions)
        ensures
            *final(self) == (match action {
                UpdateActions::Playback(run) => UpdaterFlags { playback: run, ..*old(self) },
                UpdateActions::LoadingLibrary(run) => UpdaterFlags {
                    loading_library: run,
                    ..*old(self)
                },
                UpdateActions::LoadingTrack(run) => UpdaterFlags {
                    loading_track: run,
                    ..*old(self)
                },
            }),
    {
        match action {
            UpdateActions::Playback(run) => self.playback = run,
            UpdateActions::LoadingLibrary(run) => self.loading_library = run,
            UpdateActions::LoadingTrack(run) => self.loading_track = run,
        }
    }

    /// The clock and progress tickers run while playback does.
    pub fn clock_should_run(&self) -> (r: bool)
        ensures
            r == self.playback,
    {
        self.playback
    }

    /// The spinner ticker runs while the library scan or a track load does.
    pub fn loading_should_run(&self) -> (r: bool)
        ensures
            r == (self.loading_library || self.loading_track),
    {
        self.loading_library || self.loading_track
    }
}

pub const NANOS_PER_SECOND: u64 = 1000000000;

/// Time until the next whole second of elapsed playback.
pub fn next_clock_tick(elapsed_nanos: u64) -> (r: u64)
    ensures
        r == NANOS_PER_SECOND - elapsed_nanos % NANOS_PER_SECOND,
        0 < r <= NANOS_PER_SECOND,
{
    NANOS_PER_SECOND - elapsed_nanos % NANOS_PER_SECOND
}

/// Time until the progress bar gains its next cell: the track's duration
/// split over the bar width, minus the elapsed remainder of the current
/// cell. `None` when the bar has no cells or the track is shorter than one
/// nanosecond per cell.
pub fn next_progress_tick(duration_nanos: u64, bar_width: u64, elapsed_nanos: u64) -> (r: Option<
    u64,
>)
    ensures
        ({
            if bar_width == 0 || duration_nanos / bar_width == 0 {
                r is None
            } else {
                ({
                    let interval = duration_nanos / bar_width;
                    r == Option::Some((interval - elapsed_nanos % interval) as u64)
                })
            }
        }),
{
    if bar_width == 0 {
        return Option::None;
    }
    let interval = duration_nanos / bar_width;
    if interval == 0 {
        return Option::None;
    }
    Option::Some(interval - elapsed_nanos % interval)
}

} // verus!
