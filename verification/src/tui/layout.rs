use vstd::prelude::*;

verus! {

/// How many lines of a log of `total` lines a panel of `visible_lines` shows.
pub open spec fn shown(total: int, visible_lines: int) -> int {
    if total < visible_lines {
        total
    } else {
        visible_lines
    }
}

/// How far back the log is in fact scrolled: as far as was asked, but no
/// further than to its first line.
pub open spec fn effective_offset(total: int, scroll_offset: int, visible_lines: int) -> int {
    let furthest = total - shown(total, visible_lines);
    if scroll_offset < furthest {
        scroll_offset
    } else {
        furthest
    }
}

/// The part of a message log that its panel shows: the indices `start` and
/// `end` of the first line shown and of the line after the last. The panel
/// shows as many lines as it holds, or all there are, ending `scroll_offset`
/// lines above the newest, and never scrolls past the oldest line.
pub fn visible_window(total: usize, scroll_offset: usize, visible_lines: usize) -> (window: (
    usize,
    usize,
))
    ensures
        window.1 == total - effective_offset(total as int, scroll_offset as int, visible_lines as int),
        window.1 - window.0 == shown(total as int, visible_lines as int),
        window.0 <= window.1 <= total,
{
    let max_offset: usize = if total > visible_lines {
        total - visible_lines
    } else {
        0
    };
    let offset: usize = if scroll_offset < max_offset {
        scroll_offset
    } else {
        max_offset
    };
    let end: usize = total - offset;
    let start: usize = if end > visible_lines {
        end - visible_lines
    } else {
        0
    };
    (start, end)
}

/// The height of a panel's inside: what its frame leaves of `height` rows.
pub fn inner_height(height: u16) -> (lines: usize)
    ensures
        lines == if height >= 2 {
            height - 2
        } else {
            0
        },
{
    if height >= 2 {
        (height - 2) as usize
    } else {
        0
    }
}

} // verus!
