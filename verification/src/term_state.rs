use vstd::prelude::*;

use crate::config::ConfColor;
use crate::config::ConfRgb;
use crate::style::Color;
use crate::style::Theme;
use crate::text_util::chars_string;
use crate::text_util::fit_chars;
use crate::text_util::spec_term_text;
use crate::text_util::str_chars;
use crate::time_span::dec_chars;
use crate::time_span::push_dec;

verus! {

/// The 4-bit SGR code for a named color, or nothing for `Default`.
pub open spec fn spec_bit4_num(color: Color, fg: bool) -> Option<int> {
    match (fg, color) {
        (_, Color::Default) => Option::None,
        (true, Color::Black) => Option::Some(30int),
        (true, Color::GrayDark) => Option::Some(90int),
        (true, Color::GrayLight) => Option::Some(37int),
        (true, Color::White) => Option::Some(97int),
        (true, Color::Red) => Option::Some(31int),
        (true, Color::Yellow) => Option::Some(33int),
        (true, Color::Green) => Option::Some(32int),
        (true, Color::Cyan) => Option::Some(36int),
        (true, Color::Blue) => Option::Some(34int),
        (true, Color::Magenta) => Option::Some(35int),
        (true, Color::BrightRed) => Option::Some(91int),
        (true, Color::BrightYellow) => Option::Some(93int),
        (true, Color::BrightGreen) => Option::Some(92int),
        (true, Color::BrightCyan) => Option::Some(96int),
        (true, Color::BrightBlue) => Option::Some(94int),
        (true, Color::BrightMagenta) => Option::Some(95int),
        (false, Color::Black) => Option::Some(40int),
        (false, Color::GrayDark) => Option::Some(100int),
        (false, Color::GrayLight) => Option::Some(47int),
        (false, Color::White) => Option::Some(107int),
        (false, Color::Red) => Option::Some(41int),
        (false, Color::Yellow) => Option::Some(43int),
        (false, Color::Green) => Option::Some(42int),
        (false, Color::Cyan) => Option::Some(46int),
        (false, Color::Blue) => Option::Some(44int),
        (false, Color::Magenta) => Option::Some(45int),
        (false, Color::BrightRed) => Option::Some(101int),
        (false, Color::BrightYellow) => Option::Some(103int),
        (false, Color::BrightGreen) => Option::Some(102int),
        (false, Color::BrightCyan) => Option::Some(106int),
        (false, Color::BrightBlue) => Option::Some(104int),
        (false, Color::BrightMagenta) => Option::Some(105int),
    }
}

/// What one 4-bit color contributes to an SGR sequence.
pub open spec fn spec_bit4(color: Color, fg: bool) -> Seq<char> {
    match spec_bit4_num(color, fg) {
        Option::None => Seq::empty(),
        Option::Some(n) => seq![';'] + dec_chars(n),
    }
}

/// The RGB triple the palette gives a named color; `Default` has none.
pub open spec fn spec_rgb_of(conf: ConfColor, color: Color) -> Option<ConfRgb> {
    match color {
        Color::Default => Option::None,
        Color::Black => Option::Some(conf.black),
        Color::GrayDark => Option::Some(conf.gray_dark),
        Color::GrayLight => Option::Some(conf.gray_light),
        Color::White => Option::Some(conf.white),
        Color::Red => Option::Some(conf.red),
        Color::Yellow => Option::Some(conf.yellow),
        Color::Green => Option::Some(conf.green),
        Color::Cyan => Option::Some(conf.cyan),
        Color::Blue => Option::Some(conf.blue),
        Color::Magenta => Option::Some(conf.magenta),
        Color::BrightRed => Option::Some(conf.bright_red),
        Color::BrightYellow => Option::Some(conf.bright_yellow),
        Color::BrightGreen => Option::Some(conf.bright_green),
        Color::BrightCyan => Option::Some(conf.bright_cyan),
        Color::BrightBlue => Option::Some(conf.bright_blue),
        Color::BrightMagenta => Option::Some(conf.bright_magenta),
    }
}

/// What one 24-bit color contributes to an SGR sequence:
/// `;38;2;r;g;b` for a foreground, `;48;2;r;g;b` for a background.
pub open spec fn spec_bit24(conf: ConfColor, color: Color, fg: bool) -> Seq<char> {
    match spec_rgb_of(conf, color) {
        Option::None => Seq::empty(),
        Option::Some(rgb) => {
            let prefix: int = if fg {
                38
            } else {
                48
            };
            seq![';'] + dec_chars(prefix) + seq![';'] + dec_chars(2) + seq![';'] + dec_chars(
                rgb.r as int,
            ) + seq![';'] + dec_chars(rgb.g as int) + seq![';'] + dec_chars(rgb.b as int)
        },
    }
}

pub open spec fn spec_color_part(conf: ConfColor, truecolor: bool, color: Color, fg: bool) -> Seq<
    char,
> {
    if truecolor {
        spec_bit24(conf, color, fg)
    } else {
        spec_bit4(color, fg)
    }
}

/// One whole SGR styling sequence: reset, optional bold, foreground, then
/// the background (falling back to the configured background color).
#[verifier::opaque]
pub open spec fn spec_style_code(
    conf: ConfColor,
    background: Color,
    truecolor: bool,
    fg: Color,
    bg: Color,
    bold: bool,
) -> Seq<char> {
    let bg2 = if bg is Default {
        background
    } else {
        bg
    };
    seq!['\u{1b}', '[', '0'] + (if bold {
        seq![';', '1']
    } else {
        Seq::empty()
    }) + spec_color_part(conf, truecolor, fg, true) + spec_color_part(conf, truecolor, bg2, false)
        + seq!['m']
}

/// The styling a theme picks for a row: inverse video on the selection
/// color when selected, the base color on the default background else.
#[verifier::opaque]
pub open spec fn spec_theme_code(
    conf: ConfColor,
    background: Color,
    truecolor: bool,
    theme: Theme,
) -> Seq<char> {
    if theme.is_selected {
        spec_style_code(conf, background, truecolor, Color::Black, theme.color_selected, theme.bold)
    } else {
        spec_style_code(conf, background, truecolor, theme.color_base, Color::Default, theme.bold)
    }
}

/// The frame being built: one growing character buffer plus the color
/// configuration chosen at startup.
pub struct TermState {
    pub frame: Vec<char>,
    pub conf_color: ConfColor,
    pub background: Color,
    pub truecolor: bool,
}

impl TermState {
    /// A fresh buffer for the given palette; 24-bit codes are emitted only
    /// when the terminal offers true color and the palette asks for it.
    pub fn new(conf_color: ConfColor, background: Color, truecolor_env: bool) -> (r: TermState)
        ensures
            r.frame@.len() == 0,
            r.conf_color == conf_color,
            r.background == background,
            r.truecolor == (truecolor_env && conf_color.custom_rgb_colors),
    {
        TermState {
            frame: Vec::new(),
            conf_color,
            background,
            truecolor: truecolor_env && conf_color.custom_rgb_colors,
        }
    }

    /// Drop the finished frame and start the next one.
    pub fn clear(&mut self)
        ensures
            final(self).frame@.len() == 0,
            final(self).conf_color == old(self).conf_color,
            final(self).background == old(self).background,
            final(self).truecolor == old(self).truecolor,
    {
        self.frame.clear();
    }

    pub open spec fn same_config(self, other: TermState) -> bool {
        &&& self.conf_color == other.conf_color
        &&& self.background == other.background
        &&& self.truecolor == other.truecolor
    }

    pub fn newline(&mut self)
        ensures
            final(self).same_config(*old(self)),
            final(self).frame@ == old(self).frame@ + seq!['\r', '\n'],
    {
        self.frame.push('\r');
        self.frame.push('\n');
        proof {
            assert(self.frame@ =~= old(self).frame@ + seq!['\r', '\n']);
        }
    }

    pub fn push(&mut self, c: char)
        ensures
            final(self).same_config(*old(self)),
            final(self).frame@ == old(self).frame@ + seq![c],
    {
        self.frame.push(c);
        proof {
            assert(self.frame@ =~= old(self).frame@ + seq![c]);
        }
    }

    /// Append `c` `n` times.
    pub fn push_repeat(&mut self, c: char, n: usize)
        ensures
            final(self).same_config(*old(self)),
            final(self).frame@ == old(self).frame@ + crate::text_util::repeat_char(c, n as int),
    {
        let mut k: usize = 0;
        while k < n
            invariant
                k <= n,
                self.same_config(*old(self)),
                self.frame@ == old(self).frame@ + crate::text_util::repeat_char(c, k as int),
            decreases n - k,
        {
            self.frame.push(c);
            proof {
                assert(self.frame@ =~= old(self).frame@ + crate::text_util::repeat_char(
                    c,
                    k + 1,
                ));
            }
            k = k + 1;
        }
    }

    /// Append a string's characters.
    pub fn push_str(&mut self, s: &str)
        ensures
            final(self).same_config(*old(self)),
            final(self).frame@ == old(self).frame@ + s@,
    {
        let cs = str_chars(s);
        self.push_chars(&cs);
    }

    pub fn push_chars(&mut self, cs: &Vec<char>)
        ensures
            final(self).same_config(*old(self)),
            final(self).frame@ == old(self).frame@ + cs@,
    {
        let mut k: usize = 0;
        while k < cs.len()
            invariant
                k <= cs@.len(),
                self.same_config(*old(self)),
                self.frame@ == old(self).frame@ + cs@.take(k as int),
            decreases cs@.len() - k,
        {
            self.frame.push(cs[k]);
            proof {
                assert(self.frame@ =~= old(self).frame@ + cs@.take(k + 1));
            }
            k = k + 1;
        }
        proof {
            assert(self.frame@ =~= old(self).frame@ + cs@);
        }
    }

    #[verifier::rlimit(100)]
    fn push_color(&mut self, color: Color, fg: bool)
        ensures
            final(self).same_config(*old(self)),
            final(self).frame@ == old(self).frame@ + spec_color_part(
                old(self).conf_color,
                old(self).truecolor,
                color,
                fg,
            ),
    {
        let ghost base = self.frame@;
        if self.truecolor {
            let rgb = match color {
                Color::Default => {
                    proof {
                        assert(self.frame@ =~= base + spec_color_part(
                            self.conf_color,
                            self.truecolor,
                            color,
                            fg,
                        ));
                    }
                    return ;
                },
                Color::Black => self.conf_color.black,
                Color::GrayDark => self.conf_color.gray_dark,
                Color::GrayLight => self.conf_color.gray_light,
                Color::White => self.conf_color.white,
                Color::Red => self.conf_color.red,
                Color::Yellow => self.conf_color.yellow,
                Color::Green => self.conf_color.green,
                Color::Cyan => self.conf_color.cyan,
                Color::Blue => self.conf_color.blue,
                Color::Magenta => self.conf_color.magenta,
                Color::BrightRed => self.conf_color.bright_red,
                Color::BrightYellow => self.conf_color.bright_yellow,
                Color::BrightGreen => self.conf_color.bright_green,
                Color::BrightCyan => self.conf_color.bright_cyan,
                Color::BrightBlue => self.conf_color.bright_blue,
                Color::BrightMagenta => self.conf_color.bright_magenta,
            };
            let prefix: u64 = if fg {
                38
            } else {
                48
            };
            self.frame.push(';');
            push_dec(&mut self.frame, prefix);
            self.frame.push(';');
            push_dec(&mut self.frame, 2);
            self.frame.push(';');
            push_dec(&mut self.frame, rgb.r as u64);
            self.frame.push(';');
            push_dec(&mut self.frame, rgb.g as u64);
            self.frame.push(';');
            push_dec(&mut self.frame, rgb.b as u64);
            proof {
                assert(self.frame@ =~= base + spec_color_part(
                    self.conf_color,
                    self.truecolor,
                    color,
                    fg,
                ));
            }
        } else {
            let code: u64 = match (fg, color) {
                (_, Color::Default) => {
                    proof {
                        assert(self.frame@ =~= base + spec_color_part(
                            self.conf_color,
                            self.truecolor,
                            color,
                            fg,
                        ));
                    }
                    return ;
                },
                (true, Color::Black) => 30,
                (true, Color::GrayDark) => 90,
                (true, Color::GrayLight) => 37,
                (true, Color::White) => 97,
                (true, Color::Red) => 31,
                (true, Color::Yellow) => 33,
                (true, Color::Green) => 32,
                (true, Color::Cyan) => 36,
                (true, Color::Blue) => 34,
                (true, Color::Magenta) => 35,
                (true, Color::BrightRed) => 91,
                (true, Color::BrightYellow) => 93,
                (true, Color::BrightGreen) => 92,
                (true, Color::BrightCyan) => 96,
                (true, Color::BrightBlue) => 94,
                (true, Color::BrightMagenta) => 95,
                (false, Color::Black) => 40,
                (false, Color::GrayDark) => 100,
                (false, Color::GrayLight) => 47,
                (false, Color::White) => 107,
                (false, Color::Red) => 41,
                (false, Color::Yellow) => 43,
                (false, Color::Green) => 42,
                (false, Color::Cyan) => 46,
                (false, Color::Blue) => 44,
                (false, Color::Magenta) => 45,
                (false, Color::BrightRed) => 101,
                (false, Color::BrightYellow) => 103,
                (false, Color::BrightGreen) => 102,
                (false, Color::BrightCyan) => 106,
                (false, Color::BrightBlue) => 104,
                (false, Color::BrightMagenta) => 105,
            };
            self.frame.push(';');
            push_dec(&mut self.frame, code);
            proof {
                assert(self.frame@ =~= base + spec_color_part(
                    self.conf_color,
                    self.truecolor,
                    color,
                    fg,
                ));
            }
        }
    }

    /// Append one SGR styling sequence.
    pub fn style(&mut self, fg: Color, bg: Color, bold: bool)
        ensures
            final(self).same_config(*old(self)),
            final(self).frame@ == old(self).frame@ + spec_style_code(
                old(self).conf_color,
                old(self).background,
                old(self).truecolor,
                fg,
                bg,
                bold,
            ),
    {
        let ghost base = self.frame@;
        let bg2 = match bg {
            Color::Default => self.background,
            _ => bg,
        };
        self.frame.push('\u{1b}');
        self.frame.push('[');
        self.frame.push('0');
        if bold {
            self.frame.push(';');
            self.frame.push('1');
        }
        self.push_color(fg, true);
        self.push_color(bg2, false);
        self.frame.push('m');
        proof {
            reveal(spec_style_code);
            assert(self.frame@ =~= base + spec_style_code(
                self.conf_color,
                self.background,
                self.truecolor,
                fg,
                bg,
                bold,
            ));
        }
    }

    /// Append the SGR sequence a theme picks for a row.
    pub fn style_theme(&mut self, theme: Theme)
        ensures
            final(self).same_config(*old(self)),
            final(self).frame@ == old(self).frame@ + spec_theme_code(
                old(self).conf_color,
                old(self).background,
                old(self).truecolor,
                theme,
            ),
    {
        proof {
            reveal(spec_theme_code);
        }
        if theme.is_selected {
            self.style(Color::Black, theme.color_selected, theme.bold);
        } else {
            self.style(theme.color_base, Color::Default, theme.bold);
        }
    }

    /// Append the plain SGR sequence for unstyled cells.
    pub fn style_empty(&mut self)
        ensures
            final(self).same_config(*old(self)),
            final(self).frame@ == old(self).frame@ + spec_style_code(
                old(self).conf_color,
                old(self).background,
                old(self).truecolor,
                Color::Default,
                Color::Default,
                false,
            ),
    {
        self.style(Color::Default, Color::Default, false);
    }

    /// Append `prefix` and `string` fitted to exactly `len` cells.
    pub fn fit_str(&mut self, prefix: Option<&str>, string: &str, len: usize)
        requires
            (match prefix {
                Option::Some(p) => p@.len(),
                Option::None => 0,
            }) + string@.len() <= usize::MAX / 3,
        ensures
            final(self).same_config(*old(self)),
            final(self).frame@ == old(self).frame@ + spec_term_text(
                (match prefix {
                    Option::Some(p) => p@,
                    Option::None => Seq::<char>::empty(),
                }) + string@,
                len as int,
            ),
    {
        let mut buf: Vec<char> = match prefix {
            Option::Some(p) => str_chars(p),
            Option::None => Vec::new(),
        };
        let more = str_chars(string);
        let ghost pre = buf@;
        let mut k: usize = 0;
        while k < more.len()
            invariant
                k <= more@.len(),
                more@ == string@,
                buf@ == pre + more@.take(k as int),
            decreases more@.len() - k,
        {
            buf.push(more[k]);
            proof {
                assert(buf@ =~= pre + more@.take(k + 1));
            }
            k = k + 1;
        }
        proof {
            assert(buf@ =~= pre + string@);
        }
        let fitted = fit_chars(buf, len);
        self.push_chars(&fitted);
    }

    /// The finished frame.
    pub fn output(&self) -> (r: String)
        ensures
            r@ == self.frame@,
    {
        chars_string(&self.frame)
    }
}

} // verus!
