use r3bar::bar::{
    arrange, spacer_width, total_width, update_width, update_widths, Slot, DEFAULT_GAUGE_WIDTH,
    DEFAULT_SEP_WIDTH,
};
use r3bar::Orientation::{Left, Right};
use r3bar::{Layout, Orientation};

#[test]
fn layout_starts_on_the_right_without_widths() {
    let layout = Layout::new();
    assert_eq!(layout.width, None);
    assert_eq!(layout.minwidth, None);
    assert_eq!(layout.maxwidth, None);
    assert_eq!(layout.smoothwidth, Some(4));
    assert_eq!(layout.orientation, Orientation::Right);
}

#[test]
fn layout_builders_change_one_field() {
    let layout = Layout::new().with_width(Some(210));
    assert_eq!(layout, Layout { width: Some(210), ..Layout::new() });
    let layout = layout.with_minwidth(Some(10));
    assert_eq!(layout, Layout { width: Some(210), minwidth: Some(10), ..Layout::new() });
    let layout = layout.with_orientation(Orientation::Left);
    assert_eq!(
        layout,
        Layout {
            width: Some(210),
            minwidth: Some(10),
            orientation: Orientation::Left,
            ..Layout::new()
        }
    );
    assert_eq!(layout.with_width(None).width, None);
    assert_eq!(layout.with_minwidth(None).minwidth, None);
}

#[test]
fn default_widths() {
    assert_eq!(DEFAULT_GAUGE_WIDTH, 200);
    assert_eq!(DEFAULT_SEP_WIDTH, 24);
}

#[test]
fn width_comes_from_layout_then_content_then_default() {
    let plain = Layout { smoothwidth: None, ..Layout::new() };
    assert_eq!(update_width(&plain.with_width(Some(210)), 0, Some(50)), 210);
    assert_eq!(update_width(&plain, 0, Some(50)), 50);
    assert_eq!(update_width(&plain, 0, None), 200);
}

#[test]
fn width_is_held_between_least_and_greatest() {
    let layout = Layout { minwidth: Some(100), maxwidth: Some(150), smoothwidth: None, ..Layout::new() };
    assert_eq!(update_width(&layout, 0, Some(50)), 100);
    assert_eq!(update_width(&layout, 0, Some(120)), 120);
    assert_eq!(update_width(&layout, 0, Some(500)), 150);
    let crossed = Layout { minwidth: Some(100), maxwidth: Some(80), smoothwidth: None, ..Layout::new() };
    assert_eq!(update_width(&crossed, 0, Some(50)), 80);
}

#[test]
fn width_is_smoothed_against_the_width_before() {
    let layout = Layout::new();
    assert_eq!(update_width(&layout, 100, Some(96)), 100);
    assert_eq!(update_width(&layout, 100, Some(95)), 95);
    assert_eq!(update_width(&layout, 100, Some(104)), 104);
    assert_eq!(update_width(&layout, 100, Some(105)), 105);
    assert_eq!(update_width(&layout, 100, Some(100)), 100);
    assert_eq!(update_width(&layout, u32::MAX, Some(0)), 0);
    assert_eq!(update_width(&layout, 0, Some(u32::MAX)), u32::MAX);
    assert_eq!(update_width(&layout, u32::MAX, Some(u32::MAX - 4)), u32::MAX);
}

#[test]
fn widths_are_updated_gauge_by_gauge() {
    let layouts = vec![Layout::new(), Layout::new().with_width(Some(24)), Layout::new()];
    let previous = vec![100, 0, 7];
    let content = vec![Some(98), Some(999), None];
    assert_eq!(update_widths(&layouts, &previous, &content), vec![100, 24, 200]);
    assert_eq!(update_widths(&vec![], &vec![], &vec![]), Vec::<u32>::new());
}

#[test]
fn total_width_is_the_sum() {
    assert_eq!(total_width(&vec![]), 0);
    assert_eq!(total_width(&vec![200, 24, 100, 24]), 348);
    assert_eq!(total_width(&vec![u32::MAX - 1, 1]), u32::MAX);
}

#[test]
fn spacer_takes_what_the_gauges_leave() {
    assert_eq!(spacer_width(1920, 348), 1572);
    assert_eq!(spacer_width(1920, 1920), 0);
    assert_eq!(spacer_width(1920, 2000), 0);
    assert_eq!(spacer_width(0, 0), 0);
}

#[test]
fn gauges_grow_inward_from_both_sides() {
    let (row, spacer) = arrange(&vec![Left, Right, Left, Right]);
    assert_eq!(
        row,
        vec![
            Slot::Gauge(0),
            Slot::Separator,
            Slot::Gauge(2),
            Slot::Separator,
            Slot::Separator,
            Slot::Gauge(3),
            Slot::Separator,
            Slot::Gauge(1),
        ]
    );
    assert_eq!(spacer, 4);
}

#[test]
fn arrangement_of_one_side_only() {
    assert_eq!(arrange(&vec![]), (vec![], 0));
    assert_eq!(
        arrange(&vec![Right, Right, Right]),
        (
            vec![
                Slot::Separator,
                Slot::Gauge(2),
                Slot::Separator,
                Slot::Gauge(1),
                Slot::Separator,
                Slot::Gauge(0)
            ],
            0
        )
    );
    assert_eq!(
        arrange(&vec![Left, Left]),
        (vec![Slot::Gauge(0), Slot::Separator, Slot::Gauge(1), Slot::Separator], 4)
    );
}
