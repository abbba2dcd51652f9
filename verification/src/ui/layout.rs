//! The texts and measures of the screen that are worked out from the
//! session: durations, the progress bar, the heading of the results.

use crate::display::{page_count, total_pages};
use crate::text::{decimal, padded_decimal, push_char, push_decimal, push_padded_decimal};
use crate::ui::app::App;
use vstd::prelude::*;
use vstd::string::StringExecFns;

verus! {

/// A duration of `seconds` as hours, minutes and seconds; without the hours
/// where there are none.
pub open spec fn duration_text(seconds: nat) -> Seq<char> {
    let hrs = seconds / 3600;
    let mins = (seconds % 3600) / 60;
    let secs = seconds % 60;
    if hrs > 0 {
        decimal(hrs) + seq![':'] + padded_decimal(mins, 2) + seq![':'] + padded_decimal(secs, 2)
    } else {
        decimal(mins) + seq![':'] + padded_decimal(secs, 2)
    }
}

/// Writes a duration for the status line.
pub fn format_duration(seconds: u64) -> (r: String)
    ensures
        r@ == duration_text(seconds as nat),
{
    let hrs = seconds / 3600;
    let mins = (seconds % 3600) / 60;
    let secs = seconds % 60;
    let mut r = String::new();
    if hrs > 0 {
        push_decimal(&mut r, hrs as u128);
        push_char(&mut r, ':');
        push_padded_decimal(&mut r, mins as u128, 2);
    } else {
        push_decimal(&mut r, mins as u128);
    }
    push_char(&mut r, ':');
    push_padded_decimal(&mut r, secs as u128, 2);
    r
}

/// How many of the `width` cells of the progress bar are filled when
/// `time_pos` of `duration` seconds have played: the same share, rounded
/// down, never more than all; none for an item without duration.
pub open spec fn filled_cells(time_pos: int, duration: int, width: int) -> int {
    if duration <= 0 {
        0
    } else if time_pos * width / duration > width {
        width
    } else {
        time_pos * width / duration
    }
}

/// The filled and the empty cells of a progress bar of `width` cells.
pub fn progress_cells(time_pos: u64, duration: u64, width: usize) -> (r: (usize, usize))
    ensures
        r.0 == filled_cells(time_pos as int, duration as int, width as int),
        r.0 + r.1 == width,
{
    if duration == 0 {
        return (0, width);
    }
    let t: u128 = time_pos as u128;
    let w: u128 = width as u128;
    assert(0 <= t * w <= 0xffff_ffff_ffff_ffff * 0xffff_ffff_ffff_ffff) by (nonlinear_arith)
        requires
            0 <= t <= 0xffff_ffff_ffff_ffff,
            0 <= w <= 0xffff_ffff_ffff_ffff,
    ;
    let share: u128 = t * w / (duration as u128);
    if share > w {
        (width, 0)
    } else {
        let filled = share as usize;
        (filled, width - filled)
    }
}

/// The heading of the results panel: the page, and either the number of
/// pages and results or the number of results so far.
pub open spec fn results_heading(page: int, page_size: int, total: int, exhausted: bool) -> Seq<
    char,
> {
    if exhausted {
        "Page "@ + decimal((page + 1) as nat) + seq!['/'] + decimal(
            page_count(total, page_size) as nat,
        ) + " | "@ + decimal(total as nat) + " total"@
    } else {
        "Page "@ + decimal((page + 1) as nat) + " | "@ + decimal(total as nat) + "+ loaded"@
    }
}

/// The heading of the results panel for the session `app`.
pub fn results_title(app: &App) -> (r: String)
    ensures
        r@ == results_heading(
            app.page as int,
            app.page_size as int,
            app.total_results as int,
            app.exhausted,
        ),
{
    let mut r = "Page ".to_owned();
    push_decimal(&mut r, app.page as u128 + 1);
    if app.exhausted {
        push_char(&mut r, '/');
        push_decimal(&mut r, total_pages(app.total_results, app.page_size) as u128);
        r.append(" | ");
        push_decimal(&mut r, app.total_results as u128);
        r.append(" total");
    } else {
        r.append(" | ");
        push_decimal(&mut r, app.total_results as u128);
        r.append("+ loaded");
    }
    r
}

/// Whether row `row` of the queue shows the track that is playing: the head
/// of the queue while a player is active.
pub fn is_now_playing(app: &App, row: usize) -> (r: bool)
    ensures
        r == (row == 0 && app.player_manager is Some),
{
    row == 0 && app.player_manager.is_some()
}

} // verus!
