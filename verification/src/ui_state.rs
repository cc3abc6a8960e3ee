use vstd::prelude::*;

verus! {

pub const LOADING_ICONS_LEN: u8 = 8;

/// Nanoseconds for one full revolution of the loading spinner.
pub const FULL_ROTATION_NANOS: u64 = 500000000;

/// The eighth of a revolution between two spinner frames, in nanoseconds.
pub const LOADING_STEP_NANOS: u64 = 62500000;

/// The spinner frame for a rotation step: three braille dots circling the
/// cell once every eight steps.
pub open spec fn spec_loading_icon(rotation: int) -> char {
    let r = rotation % 8;
    if r == 0 {
        '⠙'
    } else if r == 1 {
        '⠸'
    } else if r == 2 {
        '⢰'
    } else if r == 3 {
        '⣠'
    } else if r == 4 {
        '⣄'
    } else if r == 5 {
        '⡆'
    } else if r == 6 {
        '⠇'
    } else {
        '⠋'
    }
}

/// One spinner frame.
pub fn loading_icon(rotation: u8) -> (r: char)
    ensures
        r == spec_loading_icon(rotation as int),
{
    let i = rotation % 8;
    if i == 0 {
        '⠙'
    } else if i == 1 {
        '⠸'
    } else if i == 2 {
        '⢰'
    } else if i == 3 {
        '⣠'
    } else if i == 4 {
        '⣄'
    } else if i == 5 {
        '⡆'
    } else if i == 6 {
        '⠇'
    } else {
        '⠋'
    }
}

/// Time until the spinner next advances: the rest of the current eighth of
/// a revolution.
pub fn next_loading_rotation_interval(now_nanos: u64) -> (r: u64)
    ensures
        r == LOADING_STEP_NANOS - now_nanos % LOADING_STEP_NANOS,
        0 < r <= LOADING_STEP_NANOS,
{
    LOADING_STEP_NANOS - now_nanos % LOADING_STEP_NANOS
}

/// Presentation state shared with the render path: terminal size, the
/// library-scan flag, the published progress-bar width and the spinner
/// step. In the running program each field lives in one atomic.
#[derive(Clone, Copy, Debug, PartialEq, Eq, Structural)]
pub struct GlobalUiState {
    pub width: u16,
    pub height: u16,
    pub is_scanning: bool,
    pub progress_width: usize,
    pub loading_rotation: u8,
}

/// A point-in-time copy of the shared presentation state.
#[derive(Clone, Copy, Debug, PartialEq, Eq, Structural)]
pub struct GlobalUiStateSnapshot {
    pub width: u16,
    pub height: u16,
    pub is_scanning: bool,
    pub progress_width: usize,
    pub loading_rotation: u8,
}

impl GlobalUiState {
    pub fn init() -> (r: GlobalUiState)
        ensures
            r.width == 0,
            r.height == 0,
            !r.is_scanning,
            r.progress_width == 0,
            r.loading_rotation == 0,
    {
        GlobalUiState {
            width: 0,
            height: 0,
            is_scanning: false,
            progress_width: 0,
            loading_rotation: 0,
        }
    }

    pub fn update_term_size(&mut self, width: u16, height: u16)
        ensures
            final(self).width == width,
            final(self).height == height,
            final(self).is_scanning == old(self).is_scanning,
            final(self).progress_width == old(self).progress_width,
            final(self).loading_rotation == old(self).loading_rotation,
    {
        self.width = width;
        self.height = height;
    }

    pub fn update_scanning_state(&mut self, is_scanning: bool)
        ensures
            *final(self) == (GlobalUiState { is_scanning, ..*old(self) }),
    {
        self.is_scanning = is_scanning;
    }

    pub fn update_progress_width(&mut self, width: usize)
        ensures
            *final(self) == (GlobalUiState { progress_width: width, ..*old(self) }),
    {
        self.progress_width = width;
    }

    /// Advance the spinner one step, wrapping after a full revolution.
    pub fn increment_loading_rotation(&mut self)
        requires
            old(self).loading_rotation < LOADING_ICONS_LEN,
        ensures
            *final(self) == (GlobalUiState {
                loading_rotation: if old(self).loading_rotation + 1 >= LOADING_ICONS_LEN {
                    0
                } else {
                    (old(self).loading_rotation + 1) as u8
                },
                ..*old(self)
            }),
    {
        let state = self.loading_rotation + 1;
        if state >= LOADING_ICONS_LEN {
            self.loading_rotation = 0;
        } else {
            self.loading_rotation = state;
        }
    }

    pub fn width(&self) -> (r: u16)
        ensures
            r == self.width,
    {
        self.width
    }

    pub fn height(&self) -> (r: u16)
        ensures
            r == self.height,
    {
        self.height
    }

    pub fn is_scanning(&self) -> (r: bool)
        ensures
            r == self.is_scanning,
    {
        self.is_scanning
    }

    pub fn progress_width(&self) -> (r: usize)
        ensures
            r == self.progress_width,
    {
        self.progress_width
    }

    pub fn loading_rotation(&self) -> (r: u8)
        ensures
            r == self.loading_rotation,
    {
        self.loading_rotation
    }

    pub fn loading_icon(&self) -> (r: char)
        ensures
            r == spec_loading_icon(self.loading_rotation as int),
    {
        loading_icon(self.loading_rotation)
    }

    pub fn snapshot(&self) -> (r: GlobalUiStateSnapshot)
        ensures
            r.width == self.width,
            r.height == self.height,
            r.is_scanning == self.is_scanning,
            r.progress_width == self.progress_width,
            r.loading_rotation == self.loading_rotation,
    {
        GlobalUiStateSnapshot {
            width: self.width,
            height: self.height,
            is_scanning: self.is_scanning,
            progress_width: self.progress_width,
            loading_rotation: self.loading_rotation,
        }
    }
}

impl GlobalUiStateSnapshot {
    pub fn loading_icon(&self) -> (r: char)
        ensures
            r == spec_loading_icon(self.loading_rotation as int),
    {
        loading_icon(self.loading_rotation)
    }
}

} // verus!
