use gcloud_switch::app::Column;
use gcloud_switch::layout::{
    column_offset, content_widths, cursor_position, percentage, scroll_position, share,
    suggestion_box, total_width, Area, ColumnWidths,
};
use gcloud_switch::profile::Profile;

fn profile(user: &str, user_project: &str, adc: &str, adc_project: &str) -> Profile {
    Profile::new(
        user.to_string(),
        user_project.to_string(),
        adc.to_string(),
        adc_project.to_string(),
    )
}

fn table() -> Area {
    Area { x: 0, y: 1, width: 80, height: 20 }
}

#[test]
fn headers_set_the_least_widths() {
    let w = content_widths(&vec![], &vec![], 0);
    assert_eq!(w, ColumnWidths { profile: 7, user: 12, adc: 13 });
    assert_eq!(total_width(w), 32);
}

#[test]
fn widest_content_sets_the_width() {
    let names = vec!["a".to_string(), "production".to_string()];
    let profiles = vec![
        profile("someone@example.com", "p", "x", "a-long-quota-project"),
        profile("b", "an-even-longer-project-id", "svc", "q"),
    ];
    let w = content_widths(&names, &profiles, 0);
    assert_eq!(w, ColumnWidths { profile: 10, user: 25, adc: 20 });
    let padded = content_widths(&names, &profiles, 4);
    assert_eq!(padded, ColumnWidths { profile: 14, user: 25, adc: 20 });
    assert_eq!(total_width(padded), 59);
}

#[test]
fn width_counts_bytes() {
    let w = content_widths(&vec!["büro-süd".to_string()], &vec![profile("", "", "", "")], 0);
    assert_eq!(w.profile, 10);
}

#[test]
fn names_without_a_profile_are_left_out() {
    let names = vec!["a-very-long-profile-name".to_string()];
    assert_eq!(content_widths(&names, &vec![], 0).profile, 7);
}

#[test]
fn shares_are_rounded_down_but_one_at_least() {
    assert_eq!(percentage(10, 55), 18);
    assert_eq!(percentage(25, 55), 45);
    assert_eq!(percentage(20, 55), 36);
    assert_eq!(percentage(0, 55), 1);
    assert_eq!(percentage(55, 55), 100);
    assert_eq!(percentage(5, 0), 500);
    assert_eq!(percentage(700, 1000), 70);
    assert_eq!(share(10, 55, 78), 14);
    assert_eq!(share(1, 1000, 78), 1);
    assert_eq!(share(usize::MAX, 1, 2), u16::MAX);
}

#[test]
fn edit_column_begins_behind_the_columns_before_it() {
    assert_eq!(column_offset(Column::User, 14, 35), 14);
    assert_eq!(column_offset(Column::Both, 14, 35), 14);
    assert_eq!(column_offset(Column::Adc, 14, 35), 49);
    assert_eq!(column_offset(Column::Adc, 60000, 60000), u16::MAX);
}

#[test]
fn cursor_stands_behind_the_text() {
    assert_eq!(cursor_position(table(), 14, 7, 0, false), (22, 5));
    assert_eq!(cursor_position(table(), 14, 7, 0, true), (22, 6));
    assert_eq!(cursor_position(table(), 49, 0, 3, true), (50, 12));
    assert_eq!(cursor_position(table(), 49, 100_000, 40_000, false), (u16::MAX, u16::MAX));
}

#[test]
fn suggestion_box_sits_below_the_field() {
    let placed = suggestion_box(80, 24, table(), 14, 1, false, 17, 3);
    assert_eq!(placed, Area { x: 15, y: 8, width: 21, height: 5 });
    let below_project = suggestion_box(80, 24, table(), 14, 1, true, 17, 3);
    assert_eq!(below_project.y, 9);
}

#[test]
fn suggestion_box_has_bounded_size() {
    assert_eq!(suggestion_box(200, 50, table(), 0, 0, false, 3, 1).width, 20);
    assert_eq!(suggestion_box(200, 50, table(), 0, 0, false, 16, 1).width, 20);
    assert_eq!(suggestion_box(200, 50, table(), 0, 0, false, 45, 1).width, 49);
    assert_eq!(suggestion_box(200, 50, table(), 0, 0, false, 46, 1).width, 50);
    assert_eq!(suggestion_box(200, 50, table(), 0, 0, false, 4000, 1).width, 50);
    assert_eq!(suggestion_box(200, 50, table(), 0, 0, false, 3, 0).height, 2);
    assert_eq!(suggestion_box(200, 50, table(), 0, 0, false, 3, 9).height, 11);
    assert_eq!(suggestion_box(200, 50, table(), 0, 0, false, 3, 10).height, 12);
    assert_eq!(suggestion_box(200, 50, table(), 0, 0, false, 3, 500).height, 12);
}

#[test]
fn suggestion_box_stays_on_the_screen() {
    let placed = suggestion_box(80, 24, table(), 70, 9, true, 30, 20);
    assert_eq!(placed, Area { x: 46, y: 12, width: 34, height: 12 });
    let tiny = suggestion_box(10, 5, table(), 70, 9, true, 30, 20);
    assert_eq!(tiny, Area { x: 0, y: 0, width: 34, height: 12 });
}

#[test]
fn scrollbar_follows_the_selection() {
    assert_eq!(scroll_position(0, 10, 10), None);
    assert_eq!(scroll_position(0, 3, 10), None);
    assert_eq!(scroll_position(0, 30, 10), Some((20, 0)));
    assert_eq!(scroll_position(4, 30, 10), Some((20, 0)));
    assert_eq!(scroll_position(12, 30, 10), Some((20, 7)));
    assert_eq!(scroll_position(29, 30, 10), Some((20, 20)));
    assert_eq!(scroll_position(2, 5, 0), Some((5, 2)));
}
