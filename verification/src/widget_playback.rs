use vstd::prelude::*;

use crate::playback_clock::PlaybackState;
use crate::playback_clock::spec_state_icon;
use crate::render_data::RenderDataCommon;
use crate::sorted_list::sat_sub;
use crate::style::Color;
use crate::term_state::TermState;
use crate::term_state::spec_style_code;
use crate::text_util::repeat_char;
use crate::time_span::TimeSpan;
use crate::time_span::render_duration;
use crate::time_span::spec_render_duration;

verus! {

/// How many of `remaining` bar cells are filled at `elapsed` out of
/// `duration` nanoseconds: the elapsed share, capped at the full bar, and
/// the full bar for a track of no length.
pub open spec fn spec_progress_fill(remaining: int, elapsed_ns: int, duration_ns: int) -> int {
    if duration_ns == 0 {
        remaining
    } else {
        let q = remaining * elapsed_ns / duration_ns;
        if q > remaining {
            remaining
        } else {
            q
        }
    }
}

/// At the start of a track the bar is empty; at its full duration the bar
/// is full, whatever width the bar has.
pub proof fn law_progress_fill_ends(remaining: int, duration_ns: int)
    requires
        remaining >= 0,
        duration_ns >= 0,
    ensures
        duration_ns > 0 ==> spec_progress_fill(remaining, 0, duration_ns) == 0,
        spec_progress_fill(remaining, duration_ns, duration_ns) == remaining,
{
    if duration_ns > 0 {
        assert(remaining * 0 == 0) by (nonlinear_arith);
        assert(remaining * duration_ns / duration_ns == remaining) by (nonlinear_arith)
            requires
                remaining >= 0,
                duration_ns > 0,
        ;
    }
}

fn progress_fill(remaining: usize, elapsed: TimeSpan, duration: TimeSpan) -> (r: usize)
    requires
        elapsed.wf(),
        duration.wf(),
        remaining <= 65535,
    ensures
        r as int == spec_progress_fill(remaining as int, elapsed.total(), duration.total()),
        r <= remaining,
{
    let dur_ns: u128 = (duration.secs as u128) * 1000000000 + (duration.nanos as u128);
    let ela_ns: u128 = (elapsed.secs as u128) * 1000000000 + (elapsed.nanos as u128);
    proof {
        assert(dur_ns == duration.total());
        assert(ela_ns == elapsed.total());
    }
    if dur_ns == 0 {
        return remaining;
    }
    proof {
        assert(ela_ns <= 18446744073709551615000000000 + 999999999);
        assert((remaining as u128) * ela_ns <= 65535 * 18446744073709551616000000000)
            by (nonlinear_arith)
            requires
                remaining <= 65535,
                ela_ns <= 18446744073709551616000000000,
        ;
    }
    let q: u128 = (remaining as u128) * ela_ns / dur_ns;
    if q > remaining as u128 {
        remaining
    } else {
        q as usize
    }
}

/// The bottom status line: two spaces, the state icon, the elapsed and
/// total times, and the progress bar; a terminal under twenty cells wide
/// gets a blank line, and a stopped or loading player a slashed-out bar.
pub open spec fn spec_playback_status(
    conf: crate::config::ConfColor,
    background: Color,
    truecolor: bool,
    width: int,
    state: PlaybackState,
    spinner: char,
    elapsed: TimeSpan,
    duration: TimeSpan,
) -> Seq<char> {
    let style = spec_style_code(conf, background, truecolor, Color::Black, Color::Blue, true);
    if width < 20 {
        style + repeat_char(' ', width)
    } else {
        let head = style + repeat_char(' ', 2) + seq![spec_state_icon(state, spinner)]
            + repeat_char(' ', 1);
        if state is Stopped || state is Loading {
            head + seq!['-', '-', ':', '-', '-', '/', '-', '-', ':', '-', '-', ' ', '[']
                + repeat_char('/', width - 20) + seq![']', ' ', ' ']
        } else {
            let dur_str = spec_render_duration(elapsed.secs as int) + seq!['/']
                + spec_render_duration(duration.secs as int);
            let remaining = sat_sub(width, 10 + dur_str.len() as int);
            let fill = spec_progress_fill(remaining, elapsed.total(), duration.total());
            head + dur_str + seq![' ', '['] + repeat_char('━', fill) + seq!['➤'] + repeat_char(
                '⋅',
                remaining - fill,
            ) + seq![']'] + repeat_char(' ', 2)
        }
    }
}

/// Draw the playback status line; the result is the width the progress
/// bar was drawn with, to be published for the progress ticker, or `None`
/// when the line was too narrow to hold a bar.
#[verifier::rlimit(100)]
pub fn render_playback_status_widget(output: &mut TermState, common: &RenderDataCommon) -> (r:
    Option<usize>)
    requires
        common.term.width <= 65535,
        common.playback.elapsed.wf(),
        common.playback.duration.wf(),
    ensures
        final(output).same_config(*old(output)),
        final(output).frame@ == old(output).frame@ + spec_playback_status(
            old(output).conf_color,
            old(output).background,
            old(output).truecolor,
            common.term.width as int,
            common.playback.state,
            crate::ui_state::spec_loading_icon(common.term.loading_rotation as int),
            common.playback.elapsed,
            common.playback.duration,
        ),
        r == (if common.term.width < 20 {
            Option::<usize>::None
        } else if common.playback.state is Stopped || common.playback.state is Loading {
            Option::Some((common.term.width - 20) as usize)
        } else {
            Option::Some(
                sat_sub(
                    common.term.width as int,
                    10 + (spec_render_duration(common.playback.elapsed.secs as int) + seq!['/']
                        + spec_render_duration(common.playback.duration.secs as int)).len() as int,
                ) as usize,
            )
        }),
{
    let ghost base = output.frame@;
    let width = common.term.width as usize;
    output.style(Color::Black, Color::Blue, true);
    if width < 20 {
        output.push_repeat(' ', width);
        proof {
            assert(output.frame@ =~= base + spec_playback_status(
                old(output).conf_color,
                old(output).background,
                old(output).truecolor,
                common.term.width as int,
                common.playback.state,
                crate::ui_state::spec_loading_icon(common.term.loading_rotation as int),
                common.playback.elapsed,
                common.playback.duration,
            ));
        }
        return Option::None;
    }
    let spinner = crate::ui_state::loading_icon(common.term.loading_rotation);
    output.push_repeat(' ', 2);
    output.push(common.playback.state.icon(spinner));
    output.push_repeat(' ', 1);
    match common.playback.state {
        PlaybackState::Stopped | PlaybackState::Loading => {
            let progress_width = width - 20;
            output.push_str("--:--/--:-- [");
            output.push_repeat('/', progress_width);
            output.push_str("]  ");
            proof {
                reveal_strlit("--:--/--:-- [");
                reveal_strlit("]  ");
                assert(output.frame@ =~= base + spec_playback_status(
                    old(output).conf_color,
                    old(output).background,
                    old(output).truecolor,
                    common.term.width as int,
                    common.playback.state,
                    crate::ui_state::spec_loading_icon(common.term.loading_rotation as int),
                    common.playback.elapsed,
                    common.playback.duration,
                ));
            }
            Option::Some(progress_width)
        },
        PlaybackState::Paused | PlaybackState::Playing => {
            let mut dur_str: Vec<char> = Vec::new();
            render_duration(&mut dur_str, common.playback.elapsed);
            dur_str.push('/');
            render_duration(&mut dur_str, common.playback.duration);
            proof {
                assert(dur_str@ =~= spec_render_duration(common.playback.elapsed.secs as int)
                    + seq!['/'] + spec_render_duration(common.playback.duration.secs as int));
            }
            let dlen = dur_str.len();
            let remaining = if width >= 10 && width - 10 >= dlen {
                width - 10 - dlen
            } else {
                0
            };
            let fill = progress_fill(remaining, common.playback.elapsed, common.playback.duration);
            output.push_chars(&dur_str);
            output.push(' ');
            output.push('[');
            output.push_repeat('━', fill);
            output.push('➤');
            output.push_repeat('⋅', remaining - fill);
            output.push(']');
            output.push_repeat(' ', 2);
            proof {
                assert(output.frame@ =~= base + spec_playback_status(
                    old(output).conf_color,
                    old(output).background,
                    old(output).truecolor,
                    common.term.width as int,
                    common.playback.state,
                    crate::ui_state::spec_loading_icon(common.term.loading_rotation as int),
                    common.playback.elapsed,
                    common.playback.duration,
                ));
            }
            Option::Some(remaining)
        },
    }
}

} // verus!
