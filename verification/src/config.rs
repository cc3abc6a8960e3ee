use vstd::prelude::*;

use crate::style::Color;
use crate::text_util::chars_string;
use crate::text_util::str_chars;

verus! {

/// A three-byte color override.
#[derive(Clone, Copy, Debug, PartialEq, Eq, Structural)]
pub struct ConfRgb {
    pub r: u8,
    pub g: u8,
    pub b: u8,
}

impl ConfRgb {
    pub fn to_tuple(self) -> (t: (u8, u8, u8))
        ensures
            t.0 == self.r,
            t.1 == self.g,
            t.2 == self.b,
    {
        (self.r, self.g, self.b)
    }

    pub fn new(r: u8, g: u8, b: u8) -> (c: ConfRgb)
        ensures
            c == (ConfRgb { r, g, b }),
    {
        ConfRgb { r, g, b }
    }
}

/// The RGB values used for each named color when both the terminal and the
/// configuration allow true color.
#[derive(Clone, Copy, Debug, PartialEq, Eq, Structural)]
pub struct ConfColor {
    pub custom_rgb_colors: bool,
    pub black: ConfRgb,
    pub gray_dark: ConfRgb,
    pub gray_light: ConfRgb,
    pub white: ConfRgb,
    pub red: ConfRgb,
    pub yellow: ConfRgb,
    pub green: ConfRgb,
    pub cyan: ConfRgb,
    pub blue: ConfRgb,
    pub magenta: ConfRgb,
    pub bright_red: ConfRgb,
    pub bright_yellow: ConfRgb,
    pub bright_green: ConfRgb,
    pub bright_cyan: ConfRgb,
    pub bright_blue: ConfRgb,
    pub bright_magenta: ConfRgb,
}

/// The default palette.
pub open spec fn spec_default_palette() -> ConfColor {
    ConfColor {
        custom_rgb_colors: false,
        black: ConfRgb { r: 0, g: 0, b: 0 },
        gray_dark: ConfRgb { r: 150, g: 150, b: 150 },
        gray_light: ConfRgb { r: 200, g: 200, b: 200 },
        white: ConfRgb { r: 255, g: 255, b: 255 },
        red: ConfRgb { r: 224, g: 83, b: 83 },
        yellow: ConfRgb { r: 210, g: 184, b: 67 },
        green: ConfRgb { r: 147, g: 191, b: 83 },
        cyan: ConfRgb { r: 100, g: 212, b: 192 },
        blue: ConfRgb { r: 60, g: 165, b: 210 },
        magenta: ConfRgb { r: 204, g: 127, b: 193 },
        bright_red: ConfRgb { r: 234, g: 86, b: 108 },
        bright_yellow: ConfRgb { r: 211, g: 225, b: 73 },
        bright_green: ConfRgb { r: 119, g: 246, b: 101 },
        bright_cyan: ConfRgb { r: 126, g: 235, b: 233 },
        bright_blue: ConfRgb { r: 95, g: 179, b: 244 },
        bright_magenta: ConfRgb { r: 241, g: 137, b: 215 },
    }
}

impl ConfColor {
    /// The default palette.
    pub fn init() -> (c: ConfColor)
        ensures
            c == spec_default_palette(),
    {
        ConfColor {
            custom_rgb_colors: false,
            black: ConfRgb { r: 0, g: 0, b: 0 },
            gray_dark: ConfRgb { r: 150, g: 150, b: 150 },
            gray_light: ConfRgb { r: 200, g: 200, b: 200 },
            white: ConfRgb { r: 255, g: 255, b: 255 },
            red: ConfRgb { r: 224, g: 83, b: 83 },
            yellow: ConfRgb { r: 210, g: 184, b: 67 },
            green: ConfRgb { r: 147, g: 191, b: 83 },
            cyan: ConfRgb { r: 100, g: 212, b: 192 },
            blue: ConfRgb { r: 60, g: 165, b: 210 },
            magenta: ConfRgb { r: 204, g: 127, b: 193 },
            bright_red: ConfRgb { r: 234, g: 86, b: 108 },
            bright_yellow: ConfRgb { r: 211, g: 225, b: 73 },
            bright_green: ConfRgb { r: 119, g: 246, b: 101 },
            bright_cyan: ConfRgb { r: 126, g: 235, b: 233 },
            bright_blue: ConfRgb { r: 95, g: 179, b: 244 },
            bright_magenta: ConfRgb { r: 241, g: 137, b: 215 },
        }
    }
}

/// The verbosity levels the log configuration can name.
#[derive(Clone, Copy, Debug, PartialEq, Eq, Structural)]
pub enum ConfLogLevel {
    Error,
    Warning,
    Info,
    Debug,
    Trace,
}

pub open spec fn spec_level_name(l: ConfLogLevel) -> Seq<char> {
    match l {
        ConfLogLevel::Error => "ERROR"@,
        ConfLogLevel::Warning => "WARN"@,
        ConfLogLevel::Info => "INFO"@,
        ConfLogLevel::Debug => "DEBUG"@,
        ConfLogLevel::Trace => "TRACE"@,
    }
}

impl ConfLogLevel {
    /// The level name the log subscriber is configured with.
    pub fn to_level(&self) -> (r: String)
        ensures
            r@ == spec_level_name(*self),
    {
        match self {
            ConfLogLevel::Error => String::from_str("ERROR"),
            ConfLogLevel::Warning => String::from_str("WARN"),
            ConfLogLevel::Info => String::from_str("INFO"),
            ConfLogLevel::Debug => String::from_str("DEBUG"),
            ConfLogLevel::Trace => String::from_str("TRACE"),
        }
    }
}

/// The logging options.
#[derive(Clone, Debug, PartialEq, Eq)]
pub struct ConfLog {
    pub enable_logging: bool,
    pub log_path: String,
    pub log_level: ConfLogLevel,
    pub log_libraries: bool,
}

impl ConfLog {
    pub fn init() -> (c: ConfLog)
        ensures
            !c.enable_logging,
            c.log_path@.len() == 0,
            c.log_level == ConfLogLevel::Info,
            !c.log_libraries,
    {
        ConfLog {
            enable_logging: false,
            log_path: String::new(),
            log_level: ConfLogLevel::Info,
            log_libraries: false,
        }
    }
}

/// The theme: which named color each part of the screen is drawn with.
#[derive(Clone, Copy, Debug, PartialEq, Eq, Structural)]
pub struct ConfTheme {
    pub background: Color,
    pub border: Color,
    pub album_text: Color,
    pub album_divider: Color,
    pub track_highlight: Color,
    pub track_artist_name: Color,
    pub selectable_normal: Color,
    pub selectable_highlight_active: Color,
    pub selectable_highlight_inactive: Color,
    pub icon_color_done: Color,
    pub icon_color_playing: Color,
    pub icon_color_queued: Color,
}

/// The default theme.
pub open spec fn spec_default_theme() -> ConfTheme {
    ConfTheme {
        background: Color::Default,
        border: Color::Blue,
        album_text: Color::Default,
        album_divider: Color::Cyan,
        track_highlight: Color::Yellow,
        track_artist_name: Color::GrayDark,
        selectable_normal: Color::Default,
        selectable_highlight_active: Color::Cyan,
        selectable_highlight_inactive: Color::Red,
        icon_color_done: Color::Red,
        icon_color_playing: Color::Yellow,
        icon_color_queued: Color::Green,
    }
}

impl ConfTheme {
    pub fn init() -> (c: ConfTheme)
        ensures
            c == spec_default_theme(),
    {
        ConfTheme {
            background: Color::Default,
            border: Color::Blue,
            album_text: Color::Default,
            album_divider: Color::Cyan,
            track_highlight: Color::Yellow,
            track_artist_name: Color::GrayDark,
            selectable_normal: Color::Default,
            selectable_highlight_active: Color::Cyan,
            selectable_highlight_inactive: Color::Red,
            icon_color_done: Color::Red,
            icon_color_playing: Color::Yellow,
            icon_color_queued: Color::Green,
        }
    }
}

/// The whole configuration, frozen at startup.
#[derive(Clone, Debug, PartialEq, Eq)]
pub struct Config {
    pub framerate: u16,
    pub media_dirs: Vec<String>,
    pub logging: ConfLog,
    pub theme: ConfTheme,
    pub color: ConfColor,
}

/// What `~`-expansion yields for one path: only a path whose first
/// component is exactly `~` is touched (a name merely beginning with `~`
/// is kept); `~/rest` becomes `home/rest` and a bare `~` the home
/// directory itself; without a home directory such a path cannot be
/// expanded.
pub open spec fn spec_expand_home(path: Seq<char>, home: Option<Seq<char>>) -> Option<Seq<char>> {
    if path.len() == 0 || path[0] != '~' {
        Option::Some(path)
    } else if path.len() >= 2 && path[1] != '/' {
        Option::Some(path)
    } else {
        match home {
            Option::None => Option::None,
            Option::Some(h) => {
                if path.len() >= 2 {
                    Option::Some(h + seq!['/'] + path.skip(2))
                } else {
                    Option::Some(h)
                }
            },
        }
    }
}

/// Expand a leading `~/` to the home directory; `Err` carries the path
/// that could not be expanded.
pub fn expand_home_dir(path: &String, home: &Option<String>) -> (r: Result<String, String>)
    ensures
        match spec_expand_home(path@, match *home {
            Option::Some(h) => Option::Some(h@),
            Option::None => Option::None,
        }) {
            Option::Some(s) => r is Ok && r->Ok_0@ == s,
            Option::None => r is Err && r->Err_0@ == path@,
        },
{
    let cs = str_chars(path.as_str());
    if cs.len() == 0 {
        return Result::Ok(path.clone());
    }
    if cs[0] != '~' {
        return Result::Ok(path.clone());
    }
    if cs.len() >= 2 && cs[1] != '/' {
        return Result::Ok(path.clone());
    }
    match home {
        Option::None => Result::Err(path.clone()),
        Option::Some(h) => {
            if cs.len() >= 2 {
                let mut out = str_chars(h.as_str());
                let ghost base = out@;
                out.push('/');
                let mut i: usize = 2;
                while i < cs.len()
                    invariant
                        cs@ == path@,
                        2 <= i <= cs@.len(),
                        out@ == base + seq!['/'] + path@.subrange(2, i as int),
                    decreases cs@.len() - i,
                {
                    out.push(cs[i]);
                    proof {
                        assert(out@ =~= base + seq!['/'] + path@.subrange(2, i + 1));
                    }
                    i = i + 1;
                }
                proof {
                    assert(out@ =~= h@ + seq!['/'] + path@.skip(2));
                }
                Result::Ok(chars_string(&out))
            } else {
                Result::Ok(h.clone())
            }
        },
    }
}

impl Config {
    /// The configuration a first run writes out: sixty frames per second,
    /// the given media directories, and the default logging, theme and
    /// palette.
    pub fn init(media_dirs: Vec<String>) -> (c: Config)
        ensures
            c.framerate == 60,
            c.media_dirs@ == media_dirs@,
            !c.logging.enable_logging,
            c.theme == spec_default_theme(),
            c.color == spec_default_palette(),
    {
        Config {
            framerate: 60,
            media_dirs,
            logging: ConfLog::init(),
            theme: ConfTheme::init(),
            color: ConfColor::init(),
        }
    }

    /// Expand `~/` in the log path and in every media directory; `Err`
    /// carries the first path that could not be expanded.
    pub fn fix_home_dir_paths(self, home: &Option<String>) -> (r: Result<Config, String>)
        ensures
            ({
                let hv = match *home {
                    Option::Some(h) => Option::Some(h@),
                    Option::None => Option::None,
                };
                match r {
                    Result::Ok(c) => {
                        &&& spec_expand_home(self.logging.log_path@, hv) == Option::Some(
                            c.logging.log_path@,
                        )
                        &&& c.media_dirs@.len() == self.media_dirs@.len()
                        &&& forall|i: int|
                            0 <= i < self.media_dirs@.len() ==> spec_expand_home(
                                (#[trigger] self.media_dirs@[i])@,
                                hv,
                            ) == Option::Some(c.media_dirs@[i]@)
                        &&& c.framerate == self.framerate
                        &&& c.theme == self.theme
                        &&& c.color == self.color
                    },
                    Result::Err(p) => {
                        if spec_expand_home(self.logging.log_path@, hv) is None {
                            p@ == self.logging.log_path@
                        } else {
                            exists|i: int|
                                {
                                    &&& 0 <= i < self.media_dirs@.len()
                                    &&& spec_expand_home(
                                        (#[trigger] self.media_dirs@[i])@,
                                        hv,
                                    ) is None
                                    &&& forall|k: int|
                                        0 <= k < i ==> spec_expand_home(
                                            (#[trigger] self.media_dirs@[k])@,
                                            hv,
                                        ) is Some
                                    &&& p@ == self.media_dirs@[i]@
                                }
                        }
                    },
                }
            }),
    {
        let log_path = match expand_home_dir(&self.logging.log_path, home) {
            Result::Ok(p) => p,
            Result::Err(p) => {
                return Result::Err(p);
            },
        };
        let ghost hv = match home {
            Option::Some(h) => Option::Some(h@),
            Option::None => Option::<Seq<char>>::None,
        };
        let mut dirs: Vec<String> = Vec::new();
        let mut i: usize = 0;
        while i < self.media_dirs.len()
            invariant
                0 <= i <= self.media_dirs@.len(),
                dirs@.len() == i,
                hv == (match *home {
                    Option::Some(h) => Option::<Seq<char>>::Some(h@),
                    Option::None => Option::<Seq<char>>::None,
                }),
                forall|k: int|
                    0 <= k < i ==> spec_expand_home((#[trigger] self.media_dirs@[k])@, hv)
                        == Option::Some(dirs@[k]@),
                spec_expand_home(self.logging.log_path@, hv) is Some,
            decreases self.media_dirs@.len() - i,
        {
            match expand_home_dir(&self.media_dirs[i], home) {
                Result::Ok(p) => dirs.push(p),
                Result::Err(p) => {
                    proof {
                        let j = i as int;
                        assert(spec_expand_home((self.media_dirs@[j])@, hv) is None);
                        assert(forall|k: int|
                            0 <= k < j ==> spec_expand_home(
                                (#[trigger] self.media_dirs@[k])@,
                                hv,
                            ) is Some);
                        assert(exists|w: int|
                            {
                                &&& 0 <= w < self.media_dirs@.len()
                                &&& spec_expand_home((#[trigger] self.media_dirs@[w])@, hv) is None
                                &&& forall|k: int|
                                    0 <= k < w ==> spec_expand_home(
                                        (#[trigger] self.media_dirs@[k])@,
                                        hv,
                                    ) is Some
                                &&& p@ == self.media_dirs@[w]@
                            });
                    }
                    return Result::Err(p);
                },
            }
            i = i + 1;
        }
        Result::Ok(
            Config {
                framerate: self.framerate,
                media_dirs: dirs,
                logging: ConfLog {
                    enable_logging: self.logging.enable_logging,
                    log_path,
                    log_level: self.logging.log_level,
                    log_libraries: self.logging.log_libraries,
                },
                theme: self.theme,
                color: self.color,
            },
        )
    }
}

} // verus!
