//! Where things go on the screen: the widths of the table's columns, the place of the
//! cursor in an edit, and the box of the suggestions. All of it is arithmetic on cells;
//! where a sum outgrows its type it stays at the type's largest value.

use crate::app::Column;
use crate::profile::{profile_views, Profile, ProfileView};
use crate::text::texts;
use vstd::prelude::*;

verus! {

/// A rectangle of cells on the screen.
#[derive(Debug, Clone, Copy, PartialEq, Eq, Structural)]
pub struct Area {
    pub x: u16,
    pub y: u16,
    pub width: u16,
    pub height: u16,
}

/// How much room the content of each of the three columns of the table asks for.
#[derive(Debug, Clone, Copy, PartialEq, Eq, Structural)]
pub struct ColumnWidths {
    pub profile: usize,
    pub user: usize,
    pub adc: usize,
}

/// The number of bytes that a text takes up.
pub open spec fn byte_len(s: Seq<char>) -> usize {
    vstd::utf8::encode_utf8(s).len() as usize
}

/// The larger of two numbers.
pub open spec fn larger(a: int, b: int) -> int {
    if a >= b {
        a
    } else {
        b
    }
}

/// The smaller of two numbers.
pub open spec fn smaller(a: int, b: int) -> int {
    if a <= b {
        a
    } else {
        b
    }
}

/// A number of cells as far as a `usize` holds it.
pub open spec fn capped(n: int) -> usize {
    if n >= usize::MAX {
        usize::MAX
    } else if n <= 0 {
        0
    } else {
        n as usize
    }
}

/// A number of cells as far as a `u16` holds it.
pub open spec fn capped16(n: int) -> u16 {
    if n >= u16::MAX {
        u16::MAX
    } else if n <= 0 {
        0
    } else {
        n as u16
    }
}

/// The widths that the headers of the columns ask for.
pub open spec fn header_widths() -> ColumnWidths {
    ColumnWidths { profile: 7, user: 12, adc: 13 }
}

/// The widths that the headers and the first `n` rows ask for: for each column the widest
/// of its texts, a name counted with `padding` cells more.
pub open spec fn widths_upto(
    names: Seq<Seq<char>>,
    profiles: Seq<ProfileView>,
    padding: usize,
    n: int,
) -> ColumnWidths
    decreases n,
{
    if n <= 0 {
        header_widths()
    } else {
        let before = widths_upto(names, profiles, padding, n - 1);
        let p = profiles[n - 1];
        ColumnWidths {
            profile: larger(
                before.profile as int,
                capped(byte_len(names[n - 1]) + padding) as int,
            ) as usize,
            user: larger(
                before.user as int,
                larger(byte_len(p.user_account) as int, byte_len(p.user_project) as int),
            ) as usize,
            adc: larger(
                before.adc as int,
                larger(byte_len(p.adc_account) as int, byte_len(p.adc_quota_project) as int),
            ) as usize,
        }
    }
}

fn max_of(a: usize, b: usize) -> (r: usize)
    ensures
        r == larger(a as int, b as int),
{
    if a >= b {
        a
    } else {
        b
    }
}

/// The widths that the content of the table asks for: the headers and every row, as far as
/// there is a profile for a name.
pub fn content_widths(names: &Vec<String>, profiles: &Vec<Profile>, padding: usize) -> (r:
    ColumnWidths)
    ensures
        r == widths_upto(
            texts(names@),
            profile_views(profiles@),
            padding,
            smaller(names@.len() as int, profiles@.len() as int),
        ),
{
    let rows = if names.len() <= profiles.len() {
        names.len()
    } else {
        profiles.len()
    };
    let mut w = ColumnWidths { profile: 7, user: 12, adc: 13 };
    let mut i: usize = 0;
    while i < rows
        invariant
            i <= rows,
            rows <= names.len(),
            rows <= profiles.len(),
            w == widths_upto(texts(names@), profile_views(profiles@), padding, i as int),
        decreases rows - i,
    {
        let p = &profiles[i];
        assert(texts(names@)[i as int] == names@[i as int]@);
        assert(profile_views(profiles@)[i as int] == p@);
        let name_width = names[i].as_str().len().saturating_add(padding);
        w = ColumnWidths {
            profile: max_of(w.profile, name_width),
            user: max_of(
                w.user,
                max_of(p.user_account.as_str().len(), p.user_project.as_str().len()),
            ),
            adc: max_of(
                w.adc,
                max_of(p.adc_account.as_str().len(), p.adc_quota_project.as_str().len()),
            ),
        };
        i += 1;
    }
    w
}

/// The sum of the three widths.
pub open spec fn total_of(w: ColumnWidths) -> usize {
    capped(w.profile + w.user + w.adc)
}

/// The room that the three columns ask for together.
pub fn total_width(w: ColumnWidths) -> (r: usize)
    ensures
        r == total_of(w),
{
    w.profile.saturating_add(w.user).saturating_add(w.adc)
}

/// The share of `inner` cells that falls to a column of the width `width` among columns of
/// the total width `total`, rounded down, but one cell at least. A total of 0 counts as 1.
pub open spec fn share_of(width: usize, total: usize, inner: u16) -> u16 {
    capped16(larger(1, width * inner / larger(total as int, 1)))
}

/// The cells that a column gets of `inner` cells.
pub fn share(width: usize, total: usize, inner: u16) -> (r: u16)
    ensures
        r == share_of(width, total, inner),
{
    let t: u128 = if total == 0 {
        1
    } else {
        total as u128
    };
    assert(width * inner <= 0xffff_ffff_ffff_ffff * 0xffff) by (nonlinear_arith)
        requires
            0 <= width <= 0xffff_ffff_ffff_ffff,
            0 <= inner <= 0xffff,
    ;
    let cells: u128 = (width as u128) * (inner as u128) / t;
    if cells >= 0xffff {
        0xffff
    } else if cells < 1 {
        1
    } else {
        cells as u16
    }
}

/// The share of a column in hundredths of the table's width.
pub fn percentage(width: usize, total: usize) -> (r: u16)
    ensures
        r == share_of(width, total, 100),
{
    share(width, total, 100)
}

/// How far to the right of the table's inner edge the column of an edit begins: behind the
/// first column for the primary role, behind the first two for the secondary one.
pub open spec fn column_offset_of(column: Column, first: u16, second: u16) -> u16 {
    match column {
        Column::Adc => capped16(first + second),
        _ => first,
    }
}

/// Where the column of an edit begins, counted from the table's inner edge.
pub fn column_offset(column: Column, first: u16, second: u16) -> (r: u16)
    ensures
        r == column_offset_of(column, first, second),
{
    match column {
        Column::Adc => first.saturating_add(second),
        _ => first,
    }
}

/// The line of the screen on which the selected profile begins: below the table's border
/// and its header of three lines, with two lines for each row.
pub open spec fn row_line_of(table: Area, row: usize) -> int {
    table.y + 4 + 2 * row
}

/// A number of cells as a `u16`, the largest one where it does not fit.
fn to_cells(n: usize) -> (r: u16)
    ensures
        r == capped16(n as int),
{
    if n >= 0xffff {
        0xffff
    } else {
        n as u16
    }
}

/// Where the cursor stands in an edit: behind the text of the field being edited, the
/// account on the first line of the row and the project on the second.
pub fn cursor_position(
    table: Area,
    offset: u16,
    text_len: usize,
    row: usize,
    on_project: bool,
) -> (r: (u16, u16))
    ensures
        r.0 == capped16(table.x + 1 + offset + text_len),
        r.1 == capped16(
            row_line_of(table, row) + if on_project {
                1int
            } else {
                0int
            },
        ),
{
    let x = table.x.saturating_add(1).saturating_add(offset).saturating_add(to_cells(text_len));
    let line: u16 = if on_project {
        1
    } else {
        0
    };
    let rows = to_cells(row);
    let y = table.y.saturating_add(4).saturating_add(rows).saturating_add(rows).saturating_add(
        line,
    );
    (x, y)
}

/// The box of the suggestions. It is as wide as the widest suggestion and four cells more,
/// but 20 cells at least and 50 at most, and as high as there are suggestions and two lines
/// more, but 12 lines at most. It begins at the column of the edit, on the line below the
/// field being edited, and is moved left and up as far as it takes to fit on a screen of
/// `screen_width` by `screen_height` cells.
pub open spec fn suggestion_box_of(
    screen_width: u16,
    screen_height: u16,
    table: Area,
    offset: u16,
    row: usize,
    on_project: bool,
    widest: usize,
    count: usize,
) -> Area {
    let width = larger(20, smaller(50, widest + 4));
    let height = smaller(12, count + 2);
    let x = capped16(table.x + 1 + offset);
    let y = capped16(
        row_line_of(table, row) + if on_project {
            2int
        } else {
            1int
        },
    );
    Area {
        x: smaller(x as int, larger(0, screen_width - width)) as u16,
        y: smaller(y as int, larger(0, screen_height - height)) as u16,
        width: width as u16,
        height: height as u16,
    }
}

/// The box in which the suggestions are shown.
pub fn suggestion_box(
    screen_width: u16,
    screen_height: u16,
    table: Area,
    offset: u16,
    row: usize,
    on_project: bool,
    widest: usize,
    count: usize,
) -> (r: Area)
    ensures
        r == suggestion_box_of(
            screen_width,
            screen_height,
            table,
            offset,
            row,
            on_project,
            widest,
            count,
        ),
{
    let width: u16 = if widest >= 46 {
        50
    } else if widest <= 16 {
        20
    } else {
        (widest + 4) as u16
    };
    let height: u16 = if count >= 10 {
        12
    } else {
        (count + 2) as u16
    };
    let x = table.x.saturating_add(1).saturating_add(offset);
    let line: u16 = if on_project {
        2
    } else {
        1
    };
    let rows = to_cells(row);
    let y = table.y.saturating_add(4).saturating_add(rows).saturating_add(rows).saturating_add(
        line,
    );
    let max_x = screen_width.saturating_sub(width);
    let max_y = screen_height.saturating_sub(height);
    Area {
        x: if x <= max_x {
            x
        } else {
            max_x
        },
        y: if y <= max_y {
            y
        } else {
            max_y
        },
        width,
        height,
    }
}

/// How the suggestions scroll: how many positions there are, and at which the list stands
/// so that the selected suggestion is in the middle of the box where the list allows it.
/// `None` where all the suggestions are visible at once.
pub open spec fn scroll_of(selected: usize, count: usize, visible: usize) -> Option<
    (usize, usize),
> {
    if count > visible {
        Some(
            (
                (count - visible) as usize,
                smaller(larger(0, selected - visible / 2), count - visible) as usize,
            ),
        )
    } else {
        None
    }
}

/// The length and the position of the scrollbar of the suggestions, if one is needed.
pub fn scroll_position(selected: usize, count: usize, visible: usize) -> (r: Option<
    (usize, usize),
>)
    ensures
        r == scroll_of(selected, count, visible),
{
    if count > visible {
        let last = count - visible;
        let middle = selected.saturating_sub(visible / 2);
        Some(
            (
                last,
                if middle <= last {
                    middle
                } else {
                    last
                },
            ),
        )
    } else {
        None
    }
}

} // verus!
