use vstd::prelude::*;

use crate::config::ConfColor;
use crate::config::ConfTheme;
use crate::library::LibraryColumn;
use crate::library::LibrarySelectMode;
use crate::library::LibraryTab;
use crate::library_entry::LibraryFilterEntry;
use crate::library_entry::TrackFile;
use crate::library_entry::spec_filter_name;
use crate::playback_clock::PlaybackState;
use crate::playlist::PlaylistState;
use crate::playlist::spec_filter_state;
use crate::playlist::spec_track_state;
use crate::render_data::RenderDataCommon;
use crate::render_data::RenderDataViewLibrary;
use crate::sorted_list::sat_sub;
use crate::style::Color;
use crate::style::Theme;
use crate::term_state::TermState;
use crate::term_state::spec_style_code;
use crate::term_state::spec_theme_code;
use crate::text_util::repeat_char;
use crate::text_util::spec_term_text;
use crate::text_util::str_chars;
use crate::text_util::text_width;
use crate::text_util::text_width_of;
use crate::time_span::TimeSpan;
use crate::time_span::dec_chars;
use crate::time_span::push_dec;
use crate::time_span::push_two_dec;
use crate::time_span::render_duration;
use crate::time_span::spec_render_duration;
use crate::time_span::two_dec_chars;
use crate::playback_clock::spec_state_icon;

verus! {

/// The indicator cell for a row's relation to the playlist.
pub open spec fn spec_indicator_icon(
    pl: PlaylistState,
    pb: PlaybackState,
    spinner: char,
) -> char {
    match pl {
        PlaylistState::Absent => ' ',
        PlaylistState::Played => '-',
        PlaylistState::Playing => spec_state_icon(pb, spinner),
        PlaylistState::Queued => '+',
    }
}

/// The indicator color for a row's relation to the playlist.
pub open spec fn spec_indicator_color(pl: PlaylistState, th: ConfTheme) -> Color {
    match pl {
        PlaylistState::Absent => Color::Default,
        PlaylistState::Played => th.icon_color_done,
        PlaylistState::Playing => th.icon_color_playing,
        PlaylistState::Queued => th.icon_color_queued,
    }
}

/// Strings short enough for a row to lay out without overflow.
pub open spec fn track_strings_bounded(t: TrackFile) -> bool {
    &&& t.track_title@.len() <= 65536
    &&& match t.album_artist {
        Option::Some(s) => s@.len() <= 65536,
        Option::None => true,
    }
    &&& match t.album_title {
        Option::Some(s) => s@.len() <= 65536,
        Option::None => true,
    }
    &&& match t.track_artist {
        Option::Some(s) => s@.len() <= 65536,
        Option::None => true,
    }
}

pub open spec fn filter_strings_bounded(e: LibraryFilterEntry) -> bool {
    spec_filter_name(e).len() <= 65536
}

/// One row of the filter column: the playback indicator cell, then the
/// entry's name fitted beside it.
#[verifier::opaque]
pub open spec fn spec_filter_row(
    conf: ConfColor,
    bgc: Color,
    tc: bool,
    th: ConfTheme,
    plist: Seq<TrackFile>,
    psel: int,
    pb: PlaybackState,
    spinner: char,
    width: int,
    entry: LibraryFilterEntry,
    is_active: bool,
    is_selected: bool,
) -> Seq<char> {
    let pl = spec_filter_state(plist, psel, entry);
    let theme = Theme {
        color_base: th.selectable_normal,
        color_selected: if is_active {
            th.selectable_highlight_active
        } else {
            th.selectable_highlight_inactive
        },
        is_selected,
        bold: false,
    };
    let ithm = Theme { color_base: spec_indicator_color(pl, th), ..theme };
    spec_theme_code(conf, bgc, tc, ithm) + seq![spec_indicator_icon(pl, pb, spinner)]
        + spec_theme_code(conf, bgc, tc, theme) + seq![' '] + spec_term_text(
        spec_filter_name(entry),
        sat_sub(width, 3),
    ) + seq![' ']
}

/// One album banner row: the album title in bold, a divider line, and the
/// album's year.
#[verifier::opaque]
pub open spec fn spec_album_head(
    conf: ConfColor,
    bgc: Color,
    tc: bool,
    th: ConfTheme,
    album_name: Seq<char>,
    len_album: int,
) -> Seq<char> {
    spec_style_code(conf, bgc, tc, Color::Default, Color::Default, false) + seq![' ']
        + spec_style_code(conf, bgc, tc, th.selectable_normal, Color::Default, true)
        + spec_term_text(album_name, len_album)
}

#[verifier::opaque]
pub open spec fn spec_album_line(
    conf: ConfColor,
    bgc: Color,
    tc: bool,
    th: ConfTheme,
    len_line: int,
) -> Seq<char> {
    if len_line <= 0 {
        Seq::<char>::empty()
    } else if len_line == 1 {
        seq![' ']
    } else {
        seq![' '] + spec_style_code(conf, bgc, tc, th.album_divider, Color::Default, true)
            + repeat_char('━', len_line - 1)
    }
}

#[verifier::opaque]
pub open spec fn spec_album_tail(
    conf: ConfColor,
    bgc: Color,
    tc: bool,
    th: ConfTheme,
    year: Option<u16>,
) -> Seq<char> {
    seq![' '] + spec_style_code(conf, bgc, tc, th.album_text, Color::Default, true) + (match year {
        Option::Some(y) => dec_chars(y as int),
        Option::None => repeat_char('-', 4),
    }) + seq![' ']
}

pub open spec fn spec_album_row(
    conf: ConfColor,
    bgc: Color,
    tc: bool,
    th: ConfTheme,
    width: int,
    track: TrackFile,
) -> Seq<char> {
    let len_dynamic = sat_sub(width, 7);
    let album_name = match track.album_title {
        Option::Some(s) => s@,
        Option::None => "<missing>"@,
    };
    let aw = text_width(album_name) as int;
    let len_line = sat_sub(len_dynamic, aw);
    let len_album = if len_line < 2 {
        len_dynamic
    } else {
        aw
    };
    spec_album_head(conf, bgc, tc, th, album_name, len_album) + spec_album_line(
        conf,
        bgc,
        tc,
        th,
        len_line,
    ) + spec_album_tail(conf, bgc, tc, th, track.year)
}

/// One track row: indicator, track number, the title fitted to the free
/// space, the track artist when it differs from the album artist, and the
/// duration.
#[verifier::opaque]
pub open spec fn spec_track_lead(
    conf: ConfColor,
    bgc: Color,
    tc: bool,
    th: ConfTheme,
    pl: PlaylistState,
    pb: PlaybackState,
    spinner: char,
    theme: Theme,
    number: Option<u8>,
) -> Seq<char> {
    spec_theme_code(conf, bgc, tc, (Theme { color_base: spec_indicator_color(pl, th), ..theme }))
        + seq![spec_indicator_icon(pl, pb, spinner)] + seq![' '] + spec_theme_code(
        conf,
        bgc,
        tc,
        (Theme { color_base: th.track_highlight, ..theme }),
    ) + (match number {
        Option::Some(n) => two_dec_chars(n as int),
        Option::None => repeat_char('-', 2),
    }) + seq![' ']
}

#[verifier::opaque]
pub open spec fn spec_track_artist_part(
    conf: ConfColor,
    bgc: Color,
    tc: bool,
    th: ConfTheme,
    theme: Theme,
    track: TrackFile,
    len_artist: int,
) -> Seq<char> {
    let artist_differs = match (track.track_artist, track.album_artist) {
        (Option::Some(a), Option::Some(b)) => a@ != b@,
        (Option::None, Option::None) => false,
        _ => true,
    };
    if len_artist == 0 {
        Seq::<char>::empty()
    } else if !artist_differs || track.track_artist is None {
        repeat_char(' ', len_artist)
    } else {
        spec_theme_code(conf, bgc, tc, (Theme { color_base: th.track_artist_name, ..theme }))
            + spec_term_text(" - "@ + track.track_artist->Some_0@, len_artist)
    }
}

#[verifier::opaque]
pub open spec fn spec_track_tail(
    conf: ConfColor,
    bgc: Color,
    tc: bool,
    th: ConfTheme,
    theme: Theme,
    secs: int,
) -> Seq<char> {
    seq![' '] + spec_theme_code(conf, bgc, tc, (Theme { color_base: th.track_highlight, ..theme }))
        + spec_render_duration(secs) + repeat_char(' ', 2)
}

#[verifier::opaque]
pub open spec fn spec_track_row(
    conf: ConfColor,
    bgc: Color,
    tc: bool,
    th: ConfTheme,
    plist: Seq<TrackFile>,
    psel: int,
    pb: PlaybackState,
    spinner: char,
    width: int,
    track: TrackFile,
    is_active: bool,
    is_selected: bool,
) -> Seq<char> {
    let pl = spec_track_state(plist, psel, track.id_track);
    let len_duration: int = if track.duration.secs > 3600 {
        8
    } else {
        5
    };
    let len_dynamic = sat_sub(width, 8 + len_duration);
    let theme = Theme {
        color_base: th.selectable_normal,
        color_selected: if is_active {
            th.selectable_highlight_active
        } else {
            Color::Default
        },
        is_selected: is_selected && is_active,
        bold: false,
    };
    let tw = text_width(track.track_title@) as int;
    let len_artist = sat_sub(len_dynamic, tw);
    let len_track = if len_artist == 0 {
        len_dynamic
    } else {
        tw
    };
    spec_track_lead(conf, bgc, tc, th, pl, pb, spinner, theme, track.track_number)
        + spec_theme_code(conf, bgc, tc, theme) + spec_term_text(track.track_title@, len_track)
        + spec_track_artist_part(conf, bgc, tc, th, theme, track, len_artist) + spec_track_tail(
        conf,
        bgc,
        tc,
        th,
        theme,
        track.duration.secs as int,
    )
}


/// The filter row is its pieces in order.
proof fn lemma_filter_row_chunks(
    conf: ConfColor,
    bgc: Color,
    tc: bool,
    th: ConfTheme,
    plist: Seq<TrackFile>,
    psel: int,
    pb: PlaybackState,
    spinner: char,
    width: int,
    entry: LibraryFilterEntry,
    is_active: bool,
    is_selected: bool,
)
    ensures
        ({
            let pl = spec_filter_state(plist, psel, entry);
            let theme = Theme {
                color_base: th.selectable_normal,
                color_selected: if is_active {
                    th.selectable_highlight_active
                } else {
                    th.selectable_highlight_inactive
                },
                is_selected,
                bold: false,
            };
            spec_filter_row(
                conf,
                bgc,
                tc,
                th,
                plist,
                psel,
                pb,
                spinner,
                width,
                entry,
                is_active,
                is_selected,
            ) == spec_theme_code(
                conf,
                bgc,
                tc,
                (Theme { color_base: spec_indicator_color(pl, th), ..theme }),
            ) + seq![spec_indicator_icon(pl, pb, spinner)] + spec_theme_code(conf, bgc, tc, theme)
                + seq![' '] + spec_term_text(spec_filter_name(entry), sat_sub(width, 3)) + seq![' ']
        }),
{
    reveal(spec_filter_row);
}

/// The track row is its pieces in order.
proof fn lemma_track_row_chunks(
    conf: ConfColor,
    bgc: Color,
    tc: bool,
    th: ConfTheme,
    plist: Seq<TrackFile>,
    psel: int,
    pb: PlaybackState,
    spinner: char,
    width: int,
    track: TrackFile,
    is_active: bool,
    is_selected: bool,
)
    ensures
        ({
            let pl = spec_track_state(plist, psel, track.id_track);
            let len_duration: int = if track.duration.secs > 3600 {
                8
            } else {
                5
            };
            let len_dynamic = sat_sub(width, 8 + len_duration);
            let theme = Theme {
                color_base: th.selectable_normal,
                color_selected: if is_active {
                    th.selectable_highlight_active
                } else {
                    Color::Default
                },
                is_selected: is_selected && is_active,
                bold: false,
            };
            let tw = text_width(track.track_title@) as int;
            let len_artist = sat_sub(len_dynamic, tw);
            let len_track = if len_artist == 0 {
                len_dynamic
            } else {
                tw
            };
            spec_track_row(
                conf,
                bgc,
                tc,
                th,
                plist,
                psel,
                pb,
                spinner,
                width,
                track,
                is_active,
                is_selected,
            ) == spec_track_lead(conf, bgc, tc, th, pl, pb, spinner, theme, track.track_number)
                + spec_theme_code(conf, bgc, tc, theme) + spec_term_text(
                track.track_title@,
                len_track,
            ) + spec_track_artist_part(conf, bgc, tc, th, theme, track, len_artist)
                + spec_track_tail(conf, bgc, tc, th, theme, track.duration.secs as int)
        }),
{
    reveal(spec_track_row);
}

fn render_filter_indicator(
    output: &mut TermState,
    th: &ConfTheme,
    pl: &PlaylistState,
    pb: &PlaybackState,
    spinner: char,
    theme: Theme,
)
    ensures
        final(output).same_config(*old(output)),
        final(output).frame@ == old(output).frame@ + spec_theme_code(
            old(output).conf_color,
            old(output).background,
            old(output).truecolor,
            (Theme { color_base: spec_indicator_color(*pl, *th), ..theme }),
        ) + seq![spec_indicator_icon(*pl, *pb, spinner)],
{
    let ghost base = output.frame@;
    let ithm = indicator_theme(pl, th, theme);
    output.style_theme(ithm);
    output.push(indicator_icon(pl, pb, spinner));
    proof {
        assert(output.frame@ =~= base + spec_theme_code(
            old(output).conf_color,
            old(output).background,
            old(output).truecolor,
            (Theme { color_base: spec_indicator_color(*pl, *th), ..theme }),
        ) + seq![spec_indicator_icon(*pl, *pb, spinner)]);
    }
}

fn render_fitted_name(output: &mut TermState, theme: Theme, name: &str, room: usize)
    requires
        name@.len() <= 65536,
    ensures
        final(output).same_config(*old(output)),
        final(output).frame@ == old(output).frame@ + spec_theme_code(
            old(output).conf_color,
            old(output).background,
            old(output).truecolor,
            theme,
        ) + seq![' '] + spec_term_text(name@, room as int) + seq![' '],
{
    let ghost base = output.frame@;
    output.style_theme(theme);
    output.push(' ');
    output.fit_str(Option::None, name, room);
    output.push(' ');
    proof {
        assert(Seq::<char>::empty() + name@ =~= name@);
        assert(output.frame@ =~= base + spec_theme_code(
            old(output).conf_color,
            old(output).background,
            old(output).truecolor,
            theme,
        ) + seq![' '] + spec_term_text(name@, room as int) + seq![' ']);
    }
}

fn render_track_title(output: &mut TermState, theme: Theme, title: &str, len_track: usize)
    requires
        title@.len() <= 65536,
    ensures
        final(output).same_config(*old(output)),
        final(output).frame@ == old(output).frame@ + spec_theme_code(
            old(output).conf_color,
            old(output).background,
            old(output).truecolor,
            theme,
        ) + spec_term_text(title@, len_track as int),
{
    let ghost base = output.frame@;
    output.style_theme(theme);
    output.fit_str(Option::None, title, len_track);
    proof {
        assert(Seq::<char>::empty() + title@ =~= title@);
        assert(output.frame@ =~= base + spec_theme_code(
            old(output).conf_color,
            old(output).background,
            old(output).truecolor,
            theme,
        ) + spec_term_text(title@, len_track as int));
    }
}

fn indicator_theme(pl: &PlaylistState, th: &ConfTheme, theme: Theme) -> (r: Theme)
    ensures
        r == (Theme { color_base: spec_indicator_color(*pl, *th), ..theme }),
{
    match pl {
        PlaylistState::Absent => theme.recolor(Color::Default),
        PlaylistState::Played => theme.recolor(th.icon_color_done),
        PlaylistState::Playing => theme.recolor(th.icon_color_playing),
        PlaylistState::Queued => theme.recolor(th.icon_color_queued),
    }
}

fn indicator_icon(pl: &PlaylistState, pb: &PlaybackState, spinner: char) -> (r: char)
    ensures
        r == spec_indicator_icon(*pl, *pb, spinner),
{
    match pl {
        PlaylistState::Absent => ' ',
        PlaylistState::Played => '-',
        PlaylistState::Playing => pb.icon(spinner),
        PlaylistState::Queued => '+',
    }
}

fn render_filter_row_inner(
    output: &mut TermState,
    th: &ConfTheme,
    pl: &PlaylistState,
    pb: &PlaybackState,
    spinner: char,
    width: usize,
    entry: &LibraryFilterEntry,
    is_active: bool,
    is_selected: bool,
)
    requires
        filter_strings_bounded(*entry),
    ensures
        final(output).same_config(*old(output)),
        final(output).frame@ == old(output).frame@ + ({
            let theme = Theme {
                color_base: th.selectable_normal,
                color_selected: if is_active {
                    th.selectable_highlight_active
                } else {
                    th.selectable_highlight_inactive
                },
                is_selected,
                bold: false,
            };
            spec_theme_code(
                old(output).conf_color,
                old(output).background,
                old(output).truecolor,
                (Theme { color_base: spec_indicator_color(*pl, *th), ..theme }),
            ) + seq![spec_indicator_icon(*pl, *pb, spinner)] + spec_theme_code(
                old(output).conf_color,
                old(output).background,
                old(output).truecolor,
                theme,
            ) + seq![' '] + spec_term_text(spec_filter_name(*entry), sat_sub(width as int, 3))
                + seq![' ']
        }),
{
    let theme = Theme {
        color_base: th.selectable_normal,
        color_selected: if is_active {
            th.selectable_highlight_active
        } else {
            th.selectable_highlight_inactive
        },
        is_selected,
        bold: false,
    };
    render_filter_indicator(output, th, pl, pb, spinner, theme);
    let name = entry.name();
    render_fitted_name(output, theme, name.as_str(), if width >= 3 {
        width - 3
    } else {
        0
    });
}

/// Draw one filter-column row.
pub fn render_filter_row(
    output: &mut TermState,
    common: &RenderDataCommon,
    width: usize,
    entry: &LibraryFilterEntry,
    is_active: bool,
    is_selected: bool,
) -> (nothing: ())
    requires
        filter_strings_bounded(*entry),
        width <= 65535,
    ensures
        final(output).same_config(*old(output)),
        final(output).frame@ == old(output).frame@ + spec_filter_row(
            old(output).conf_color,
            old(output).background,
            old(output).truecolor,
            common.theme,
            common.playlist.list@,
            common.playlist.selected as int,
            common.playback.state,
            crate::ui_state::spec_loading_icon(common.term.loading_rotation as int),
            width as int,
            *entry,
            is_active,
            is_selected,
        ),
{
    let ghost spin = crate::ui_state::spec_loading_icon(common.term.loading_rotation as int);
    let spinner = crate::ui_state::loading_icon(common.term.loading_rotation);
    let playlist_state = common.playlist.get_playback_state_for_filter(entry);
    render_filter_row_inner(
        output,
        &common.theme,
        &playlist_state,
        &common.playback.state,
        spinner,
        width,
        entry,
        is_active,
        is_selected,
    );
    proof {
        lemma_filter_row_chunks(
            old(output).conf_color,
            old(output).background,
            old(output).truecolor,
            common.theme,
            common.playlist.list@,
            common.playlist.selected as int,
            common.playback.state,
            spin,
            width as int,
            *entry,
            is_active,
            is_selected,
        );
    }
}

fn render_album_name(
    output: &mut TermState,
    th: &ConfTheme,
    name: &str,
    len_album: usize,
    len_line: usize,
)
    requires
        name@.len() <= 65536,
    ensures
        final(output).same_config(*old(output)),
        final(output).frame@ == old(output).frame@ + spec_album_head(
            old(output).conf_color,
            old(output).background,
            old(output).truecolor,
            *th,
            name@,
            len_album as int,
        ) + spec_album_line(
            old(output).conf_color,
            old(output).background,
            old(output).truecolor,
            *th,
            len_line as int,
        ),
{
    let ghost base = output.frame@;
    let ghost cc = output.conf_color;
    let ghost bgc = output.background;
    let ghost tcl = output.truecolor;
    output.style_empty();
    output.push(' ');
    output.style(th.selectable_normal, Color::Default, true);
    output.fit_str(Option::None, name, len_album);
    let ghost p1 = base + spec_album_head(cc, bgc, tcl, *th, name@, len_album as int);
    proof {
        reveal(spec_album_head);
        assert(Seq::<char>::empty() + name@ =~= name@);
        assert(output.frame@ =~= p1);
    }
    if len_line == 1 {
        output.push(' ');
    } else if len_line >= 2 {
        output.push(' ');
        output.style(th.album_divider, Color::Default, true);
        output.push_repeat('━', len_line - 1);
    }
    proof {
        reveal(spec_album_line);
        assert(output.frame@ =~= p1 + spec_album_line(cc, bgc, tcl, *th, len_line as int));
    }
}

fn render_album_year(output: &mut TermState, th: &ConfTheme, year: &Option<u16>)
    ensures
        final(output).same_config(*old(output)),
        final(output).frame@ == old(output).frame@ + spec_album_tail(
            old(output).conf_color,
            old(output).background,
            old(output).truecolor,
            *th,
            *year,
        ),
{
    let ghost base = output.frame@;
    output.push(' ');
    output.style(th.album_text, Color::Default, true);
    match year {
        Option::Some(y) => {
            push_dec(&mut output.frame, *y as u64);
        },
        Option::None => {
            output.push_repeat('-', 4);
        },
    }
    output.push(' ');
    proof {
        reveal(spec_album_tail);
        assert(output.frame@ =~= base + spec_album_tail(
            old(output).conf_color,
            old(output).background,
            old(output).truecolor,
            *th,
            *year,
        ));
    }
}

/// Draw one album banner row.
pub fn render_album_row(
    output: &mut TermState,
    common: &RenderDataCommon,
    width: usize,
    track: &TrackFile,
) -> (nothing: ())
    requires
        track_strings_bounded(*track),
        width <= 65535,
    ensures
        final(output).same_config(*old(output)),
        final(output).frame@ == old(output).frame@ + spec_album_row(
            old(output).conf_color,
            old(output).background,
            old(output).truecolor,
            common.theme,
            width as int,
            *track,
        ),
{
    let ghost base = output.frame@;
    let ghost cc = output.conf_color;
    let ghost bgc = output.background;
    let ghost tcl = output.truecolor;
    let len_dynamic = if width >= 7 {
        width - 7
    } else {
        0
    };
    let name: &str = match &track.album_title {
        Option::Some(s) => s.as_str(),
        Option::None => "<missing>",
    };
    proof {
        reveal_strlit("<missing>");
    }
    let name_chars = str_chars(name);
    let aw = text_width_of(&name_chars);
    let len_line = if len_dynamic >= aw {
        len_dynamic - aw
    } else {
        0
    };
    let len_album = if len_line < 2 {
        len_dynamic
    } else {
        aw
    };
    render_album_name(output, &common.theme, name, len_album, len_line);
    render_album_year(output, &common.theme, &track.year);
    proof {
        assert(output.frame@ =~= base + spec_album_row(
            cc,
            bgc,
            tcl,
            common.theme,
            width as int,
            *track,
        ));
    }
}

fn render_track_lead(
    output: &mut TermState,
    th: &ConfTheme,
    pl: &PlaylistState,
    pb: &PlaybackState,
    spinner: char,
    theme: Theme,
    number: &Option<u8>,
)
    ensures
        final(output).same_config(*old(output)),
        final(output).frame@ == old(output).frame@ + spec_track_lead(
            old(output).conf_color,
            old(output).background,
            old(output).truecolor,
            *th,
            *pl,
            *pb,
            spinner,
            theme,
            *number,
        ),
{
    let ghost base = output.frame@;
    let ithm = indicator_theme(pl, th, theme);
    output.style_theme(ithm);
    output.push(indicator_icon(pl, pb, spinner));
    output.push(' ');
    output.style_theme(theme.recolor(th.track_highlight));
    match number {
        Option::Some(n) => {
            push_two_dec(&mut output.frame, *n as u64);
        },
        Option::None => {
            output.push_repeat('-', 2);
        },
    }
    output.push(' ');
    proof {
        reveal(spec_track_lead);
        assert(output.frame@ =~= base + spec_track_lead(
            old(output).conf_color,
            old(output).background,
            old(output).truecolor,
            *th,
            *pl,
            *pb,
            spinner,
            theme,
            *number,
        ));
    }
}

fn render_track_artist(
    output: &mut TermState,
    th: &ConfTheme,
    theme: Theme,
    track: &TrackFile,
    len_artist: usize,
)
    requires
        track_strings_bounded(*track),
    ensures
        final(output).same_config(*old(output)),
        final(output).frame@ == old(output).frame@ + spec_track_artist_part(
            old(output).conf_color,
            old(output).background,
            old(output).truecolor,
            *th,
            theme,
            *track,
            len_artist as int,
        ),
{
    let ghost base = output.frame@;
    let artist_differs = match (&track.track_artist, &track.album_artist) {
        (Option::Some(a), Option::Some(b)) => !(*a == *b),
        (Option::None, Option::None) => false,
        _ => true,
    };
    if len_artist > 0 {
        match (&track.track_artist, artist_differs) {
            (Option::Some(artist), true) => {
                output.style_theme(theme.recolor(th.track_artist_name));
                proof {
                    reveal_strlit(" - ");
                }
                output.fit_str(Option::Some(" - "), artist.as_str(), len_artist);
            },
            _ => {
                output.push_repeat(' ', len_artist);
            },
        }
    }
    proof {
        reveal(spec_track_artist_part);
        assert(output.frame@ =~= base + spec_track_artist_part(
            old(output).conf_color,
            old(output).background,
            old(output).truecolor,
            *th,
            theme,
            *track,
            len_artist as int,
        ));
    }
}

fn render_track_tail(output: &mut TermState, th: &ConfTheme, theme: Theme, duration: TimeSpan)
    ensures
        final(output).same_config(*old(output)),
        final(output).frame@ == old(output).frame@ + spec_track_tail(
            old(output).conf_color,
            old(output).background,
            old(output).truecolor,
            *th,
            theme,
            duration.secs as int,
        ),
{
    let ghost base = output.frame@;
    output.push(' ');
    output.style_theme(theme.recolor(th.track_highlight));
    render_duration(&mut output.frame, duration);
    output.push_repeat(' ', 2);
    proof {
        reveal(spec_track_tail);
        assert(output.frame@ =~= base + spec_track_tail(
            old(output).conf_color,
            old(output).background,
            old(output).truecolor,
            *th,
            theme,
            duration.secs as int,
        ));
    }
}

fn render_track_row_inner(
    output: &mut TermState,
    th: &ConfTheme,
    pl: &PlaylistState,
    pb: &PlaybackState,
    spinner: char,
    width: usize,
    track: &TrackFile,
    is_active: bool,
    is_selected: bool,
)
    requires
        track_strings_bounded(*track),
        width <= 65535,
    ensures
        final(output).same_config(*old(output)),
        final(output).frame@ == old(output).frame@ + ({
            let cc = old(output).conf_color;
            let bgc = old(output).background;
            let tcl = old(output).truecolor;
            let len_duration: int = if track.duration.secs > 3600 {
                8
            } else {
                5
            };
            let len_dynamic = sat_sub(width as int, 8 + len_duration);
            let theme = Theme {
                color_base: th.selectable_normal,
                color_selected: if is_active {
                    th.selectable_highlight_active
                } else {
                    Color::Default
                },
                is_selected: is_selected && is_active,
                bold: false,
            };
            let tw = text_width(track.track_title@) as int;
            let len_artist = sat_sub(len_dynamic, tw);
            let len_track = if len_artist == 0 {
                len_dynamic
            } else {
                tw
            };
            spec_track_lead(cc, bgc, tcl, *th, *pl, *pb, spinner, theme, track.track_number)
                + spec_theme_code(cc, bgc, tcl, theme) + spec_term_text(
                track.track_title@,
                len_track,
            ) + spec_track_artist_part(cc, bgc, tcl, *th, theme, *track, len_artist)
                + spec_track_tail(cc, bgc, tcl, *th, theme, track.duration.secs as int)
        }),
{
    let ghost base = output.frame@;
    let ghost cc = output.conf_color;
    let ghost bgc = output.background;
    let ghost tcl = output.truecolor;
    let len_duration: usize = if track.duration.secs > 3600 {
        8
    } else {
        5
    };
    let len_dynamic = if width >= 8 + len_duration {
        width - 8 - len_duration
    } else {
        0
    };
    let theme = Theme {
        color_base: th.selectable_normal,
        color_selected: if is_active {
            th.selectable_highlight_active
        } else {
            Color::Default
        },
        is_selected: is_selected && is_active,
        bold: false,
    };
    render_track_lead(output, th, pl, pb, spinner, theme, &track.track_number);
    let title_chars = str_chars(track.track_title.as_str());
    let tw = text_width_of(&title_chars);
    let len_artist = if len_dynamic >= tw {
        len_dynamic - tw
    } else {
        0
    };
    let len_track = if len_artist == 0 {
        len_dynamic
    } else {
        tw
    };
    render_track_title(output, theme, track.track_title.as_str(), len_track);
    render_track_artist(output, th, theme, track, len_artist);
    render_track_tail(output, th, theme, track.duration);
}

/// Draw one track row.
pub fn render_track_row(
    output: &mut TermState,
    common: &RenderDataCommon,
    width: usize,
    track: &TrackFile,
    is_active: bool,
    is_selected: bool,
) -> (nothing: ())
    requires
        track_strings_bounded(*track),
        width <= 65535,
    ensures
        final(output).same_config(*old(output)),
        final(output).frame@ == old(output).frame@ + spec_track_row(
            old(output).conf_color,
            old(output).background,
            old(output).truecolor,
            common.theme,
            common.playlist.list@,
            common.playlist.selected as int,
            common.playback.state,
            crate::ui_state::spec_loading_icon(common.term.loading_rotation as int),
            width as int,
            *track,
            is_active,
            is_selected,
        ),
{
    let ghost spin = crate::ui_state::spec_loading_icon(common.term.loading_rotation as int);
    let spinner = crate::ui_state::loading_icon(common.term.loading_rotation);
    let playlist_state = common.playlist.get_playback_state_for_track(track.id_track);
    render_track_row_inner(
        output,
        &common.theme,
        &playlist_state,
        &common.playback.state,
        spinner,
        width,
        track,
        is_active,
        is_selected,
    );
    proof {
        lemma_track_row_chunks(
            old(output).conf_color,
            old(output).background,
            old(output).truecolor,
            common.theme,
            common.playlist.list@,
            common.playlist.selected as int,
            common.playback.state,
            spin,
            width as int,
            *track,
            is_active,
            is_selected,
        );
    }
}

pub open spec fn spec_tab_name(t: LibraryTab) -> Seq<char> {
    match t {
        LibraryTab::Artists => "Artists"@,
        LibraryTab::Year => "Year"@,
    }
}

pub open spec fn spec_mode_name(m: LibrarySelectMode) -> Seq<char> {
    match m {
        LibrarySelectMode::All => "All"@,
        LibrarySelectMode::Artist => "Artist"@,
        LibrarySelectMode::Album => "Album"@,
        LibrarySelectMode::Track => "Track"@,
    }
}

fn tab_name(t: &LibraryTab) -> (r: &'static str)
    ensures
        r@ == spec_tab_name(*t),
{
    match t {
        LibraryTab::Artists => "Artists",
        LibraryTab::Year => "Year",
    }
}

fn mode_name(m: &LibrarySelectMode) -> (r: &'static str)
    ensures
        r@ == spec_mode_name(*m),
{
    match m {
        LibrarySelectMode::All => "All",
        LibrarySelectMode::Artist => "Artist",
        LibrarySelectMode::Album => "Album",
        LibrarySelectMode::Track => "Track",
    }
}

/// The top row: the scan spinner, the filter tab's name over the filter
/// column, and the bulk-select mode's name over the track column, in
/// inverse video.
#[verifier::opaque]
pub open spec fn spec_header(
    conf: ConfColor,
    bgc: Color,
    tc: bool,
    th: ConfTheme,
    width: int,
    filter_width: int,
    tab: LibraryTab,
    mode: LibrarySelectMode,
    scanning: bool,
    spinner: char,
) -> Seq<char> {
    spec_style_code(conf, bgc, tc, Color::Black, th.border, true) + seq![
        if scanning {
            spinner
        } else {
            ' '
        },
    ] + seq![' '] + spec_term_text("filter by "@ + spec_tab_name(tab), sat_sub(filter_width, 2))
        + spec_term_text("   select "@ + spec_mode_name(mode), sat_sub(width, filter_width))
}

/// Draw the header row.
fn render_header(
    output: &mut TermState,
    common: &RenderDataCommon,
    width: usize,
    filter_width: usize,
    library_tab: &LibraryTab,
    select_mode: &LibrarySelectMode,
)
    requires
        filter_width <= width <= 65535,
    ensures
        final(output).same_config(*old(output)),
        final(output).frame@ == old(output).frame@ + spec_header(
            old(output).conf_color,
            old(output).background,
            old(output).truecolor,
            common.theme,
            width as int,
            filter_width as int,
            *library_tab,
            *select_mode,
            common.term.is_scanning,
            crate::ui_state::spec_loading_icon(common.term.loading_rotation as int),
        ),
{
    let ghost base = output.frame@;
    output.style(Color::Black, common.theme.border, true);
    let loading = if common.term.is_scanning {
        crate::ui_state::loading_icon(common.term.loading_rotation)
    } else {
        ' '
    };
    output.push(loading);
    output.push(' ');
    proof {
        reveal_strlit("filter by ");
        reveal_strlit("   select ");
        reveal_strlit("Artists");
        reveal_strlit("Year");
        reveal_strlit("All");
        reveal_strlit("Artist");
        reveal_strlit("Album");
        reveal_strlit("Track");
    }
    output.fit_str(Option::Some("filter by "), tab_name(library_tab), if filter_width >= 2 {
        filter_width - 2
    } else {
        0
    });
    output.fit_str(Option::Some("   select "), mode_name(select_mode), width - filter_width);
    proof {
        reveal(spec_header);
        assert(output.frame@ =~= base + spec_header(
            old(output).conf_color,
            old(output).background,
            old(output).truecolor,
            common.theme,
            width as int,
            filter_width as int,
            *library_tab,
            *select_mode,
            common.term.is_scanning,
            crate::ui_state::spec_loading_icon(common.term.loading_rotation as int),
        ));
    }
}

/// The separator cell between the two columns.
#[verifier::opaque]
pub open spec fn spec_border(conf: ConfColor, bgc: Color, tc: bool, th: ConfTheme) -> Seq<char> {
    spec_style_code(conf, bgc, tc, th.border, Color::Default, false) + seq!['┃']
}

/// The left (filter) cell of one body row; rows past the list are blank.
pub open spec fn spec_left_cell(
    conf: ConfColor,
    bgc: Color,
    tc: bool,
    th: ConfTheme,
    plist: Seq<TrackFile>,
    psel: int,
    pb: PlaybackState,
    spinner: char,
    filter_width: int,
    left: Seq<LibraryFilterEntry>,
    left_selected: int,
    col_active: bool,
    i: int,
) -> Seq<char> {
    if i < left.len() {
        spec_filter_row(
            conf,
            bgc,
            tc,
            th,
            plist,
            psel,
            pb,
            spinner,
            filter_width,
            left[i],
            col_active,
            i == left_selected,
        )
    } else {
        spec_style_code(conf, bgc, tc, Color::Default, Color::Default, false) + repeat_char(
            ' ',
            filter_width,
        )
    }
}

/// The right (track) cell of one body row: an album banner row, a track
/// row, or blank past the list.
pub open spec fn spec_right_cell(
    conf: ConfColor,
    bgc: Color,
    tc: bool,
    th: ConfTheme,
    plist: Seq<TrackFile>,
    psel: int,
    pb: PlaybackState,
    spinner: char,
    track_width: int,
    right: Seq<TrackFile>,
    right_selected: int,
    col_active: bool,
    i: int,
) -> Seq<char> {
    if i < right.len() {
        if right[i].is_album_padding {
            spec_album_row(conf, bgc, tc, th, track_width, right[i])
        } else {
            spec_track_row(
                conf,
                bgc,
                tc,
                th,
                plist,
                psel,
                pb,
                spinner,
                track_width,
                right[i],
                col_active,
                i == right_selected,
            )
        }
    } else {
        spec_style_code(conf, bgc, tc, Color::Default, Color::Default, false) + repeat_char(
            ' ',
            track_width,
        )
    }
}

/// The body rows from row `i` on: each is a new line, the filter cell, the
/// border, and the track cell.
pub open spec fn spec_rows_from(
    conf: ConfColor,
    bgc: Color,
    tc: bool,
    th: ConfTheme,
    plist: Seq<TrackFile>,
    psel: int,
    pb: PlaybackState,
    spinner: char,
    filter_width: int,
    track_width: int,
    view: RenderDataViewLibrary,
    i: int,
) -> Seq<char>
    decreases view.list_height - i,
{
    if i < 0 || i >= view.list_height {
        Seq::empty()
    } else {
        seq!['\r', '\n'] + spec_left_cell(
            conf,
            bgc,
            tc,
            th,
            plist,
            psel,
            pb,
            spinner,
            filter_width,
            view.left@,
            view.left_selected as int,
            view.column_selected is Filter,
            i,
        ) + spec_border(conf, bgc, tc, th) + spec_right_cell(
            conf,
            bgc,
            tc,
            th,
            plist,
            psel,
            pb,
            spinner,
            track_width,
            view.right@,
            view.right_selected as int,
            view.column_selected is Tracks,
            i,
        ) + spec_rows_from(
            conf,
            bgc,
            tc,
            th,
            plist,
            psel,
            pb,
            spinner,
            filter_width,
            track_width,
            view,
            i + 1,
        )
    }
}

fn render_body_row(
    output: &mut TermState,
    common: &RenderDataCommon,
    view: &RenderDataViewLibrary,
    filter_width: usize,
    track_width: usize,
    i: usize,
)
    requires
        (i as int) < view.list_height,
        filter_width <= 65535,
        track_width <= 65535,
        forall|k: int|
            0 <= k < view.left@.len() ==> filter_strings_bounded(#[trigger] view.left@[k]),
        forall|k: int|
            0 <= k < view.right@.len() ==> track_strings_bounded(#[trigger] view.right@[k]),
    ensures
        final(output).same_config(*old(output)),
        final(output).frame@ == old(output).frame@ + seq!['\r', '\n'] + spec_left_cell(
            old(output).conf_color,
            old(output).background,
            old(output).truecolor,
            common.theme,
            common.playlist.list@,
            common.playlist.selected as int,
            common.playback.state,
            crate::ui_state::spec_loading_icon(common.term.loading_rotation as int),
            filter_width as int,
            view.left@,
            view.left_selected as int,
            view.column_selected is Filter,
            i as int,
        ) + spec_border(
            old(output).conf_color,
            old(output).background,
            old(output).truecolor,
            common.theme,
        ) + spec_right_cell(
            old(output).conf_color,
            old(output).background,
            old(output).truecolor,
            common.theme,
            common.playlist.list@,
            common.playlist.selected as int,
            common.playback.state,
            crate::ui_state::spec_loading_icon(common.term.loading_rotation as int),
            track_width as int,
            view.right@,
            view.right_selected as int,
            view.column_selected is Tracks,
            i as int,
        ),
{
    output.newline();
    let filter_active = matches!(view.column_selected, LibraryColumn::Filter);
    let tracks_active = matches!(view.column_selected, LibraryColumn::Tracks);
    if i < view.left.len() {
        render_filter_row(
            output,
            common,
            filter_width,
            &view.left[i],
            filter_active,
            i == view.left_selected,
        );
    } else {
        output.style_empty();
        output.push_repeat(' ', filter_width);
    }
    proof {
        assert(output.frame@ =~= old(output).frame@ + seq!['\r', '\n'] + spec_left_cell(
            old(output).conf_color,
            old(output).background,
            old(output).truecolor,
            common.theme,
            common.playlist.list@,
            common.playlist.selected as int,
            common.playback.state,
            crate::ui_state::spec_loading_icon(common.term.loading_rotation as int),
            filter_width as int,
            view.left@,
            view.left_selected as int,
            view.column_selected is Filter,
            i as int,
        )) by {
        }
    }
    let ghost mid = output.frame@;
    output.style(common.theme.border, Color::Default, false);
    output.push('┃');
    proof {
        reveal(spec_border);
        assert(output.frame@ =~= mid + spec_border(
            old(output).conf_color,
            old(output).background,
            old(output).truecolor,
            common.theme,
        )) by {
            reveal(spec_border);
        }
    }
    let ghost mid2 = output.frame@;
    if i < view.right.len() {
        if view.right[i].is_album_padding {
            render_album_row(output, common, track_width, &view.right[i]);
        } else {
            render_track_row(
                output,
                common,
                track_width,
                &view.right[i],
                tracks_active,
                i == view.right_selected,
            );
        }
    } else {
        output.style_empty();
        output.push_repeat(' ', track_width);
    }
    proof {
        assert(output.frame@ =~= mid2 + spec_right_cell(
            old(output).conf_color,
            old(output).background,
            old(output).truecolor,
            common.theme,
            common.playlist.list@,
            common.playlist.selected as int,
            common.playback.state,
            crate::ui_state::spec_loading_icon(common.term.loading_rotation as int),
            track_width as int,
            view.right@,
            view.right_selected as int,
            view.column_selected is Tracks,
            i as int,
        )) by {
        }
    }
}

/// Draw the whole library view into the frame: header, then the visible
/// rows of both columns side by side. The filter column takes a third of
/// the width, at most 45 cells; one border cell separates the columns.
pub fn draw_library_view(
    output: &mut TermState,
    common: &RenderDataCommon,
    view: &RenderDataViewLibrary,
) -> (nothing: ())
    requires
        common.term.width <= 65535,
        view.list_height <= 65535,
        forall|k: int|
            0 <= k < view.left@.len() ==> filter_strings_bounded(#[trigger] view.left@[k]),
        forall|k: int|
            0 <= k < view.right@.len() ==> track_strings_bounded(#[trigger] view.right@[k]),
    ensures
        final(output).same_config(*old(output)),
        final(output).frame@ == old(output).frame@ + spec_header(
            old(output).conf_color,
            old(output).background,
            old(output).truecolor,
            common.theme,
            common.term.width as int,
            ({
                let fw = (common.term.width as int) / 3;
                if fw < 45 {
                    fw
                } else {
                    45
                }
            }),
            view.tab_selected,
            view.track_select_mode,
            common.term.is_scanning,
            crate::ui_state::spec_loading_icon(common.term.loading_rotation as int),
        ) + spec_rows_from(
            old(output).conf_color,
            old(output).background,
            old(output).truecolor,
            common.theme,
            common.playlist.list@,
            common.playlist.selected as int,
            common.playback.state,
            crate::ui_state::spec_loading_icon(common.term.loading_rotation as int),
            ({
                let fw = (common.term.width as int) / 3;
                if fw < 45 {
                    fw
                } else {
                    45
                }
            }),
            sat_sub(
                common.term.width as int,
                ({
                    let fw = (common.term.width as int) / 3;
                    if fw < 45 {
                        fw
                    } else {
                        45
                    }
                }) + 1,
            ),
            *view,
            0,
        ),
{
    let ghost base = output.frame@;
    let width = common.term.width as usize;
    let fw3 = width / 3;
    let filter_width = if fw3 < 45 {
        fw3
    } else {
        45
    };
    let track_width = if width >= filter_width + 1 {
        width - filter_width - 1
    } else {
        0
    };
    render_header(
        output,
        common,
        width,
        filter_width,
        &view.tab_selected,
        &view.track_select_mode,
    );
    let ghost hdr = spec_header(
        old(output).conf_color,
        old(output).background,
        old(output).truecolor,
        common.theme,
        width as int,
        filter_width as int,
        view.tab_selected,
        view.track_select_mode,
        common.term.is_scanning,
        crate::ui_state::spec_loading_icon(common.term.loading_rotation as int),
    );
    let ghost full = base + hdr + spec_rows_from(
        old(output).conf_color,
        old(output).background,
        old(output).truecolor,
        common.theme,
        common.playlist.list@,
        common.playlist.selected as int,
        common.playback.state,
        crate::ui_state::spec_loading_icon(common.term.loading_rotation as int),
        filter_width as int,
        track_width as int,
        *view,
        0,
    );
    let mut i: usize = 0;
    while i < view.list_height
        invariant
            0 <= i <= view.list_height,
            view.list_height <= 65535,
            filter_width <= 65535,
            track_width <= 65535,
            forall|k: int|
                0 <= k < view.left@.len() ==> filter_strings_bounded(#[trigger] view.left@[k]),
            forall|k: int|
                0 <= k < view.right@.len() ==> track_strings_bounded(#[trigger] view.right@[k]),
            output.same_config(*old(output)),
            output.frame@ + spec_rows_from(
                old(output).conf_color,
                old(output).background,
                old(output).truecolor,
                common.theme,
                common.playlist.list@,
                common.playlist.selected as int,
                common.playback.state,
                crate::ui_state::spec_loading_icon(common.term.loading_rotation as int),
                filter_width as int,
                track_width as int,
                *view,
                i as int,
            ) == full,
        decreases view.list_height - i,
    {
        render_body_row(output, common, view, filter_width, track_width, i);
        proof {
            assert(output.frame@ + spec_rows_from(
                old(output).conf_color,
                old(output).background,
                old(output).truecolor,
                common.theme,
                common.playlist.list@,
                common.playlist.selected as int,
                common.playback.state,
                crate::ui_state::spec_loading_icon(common.term.loading_rotation as int),
                filter_width as int,
                track_width as int,
                *view,
                i + 1,
            ) =~= full) by {
            }
        }
        i = i + 1;
    }
    proof {
        assert(output.frame@ =~= full);
    }
}

} // verus!
