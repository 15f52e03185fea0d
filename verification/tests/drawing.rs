use mem_widget::reading::FULL_SCALE;
use mem_widget::render::{window_of, SIZE_LIMIT};
use mem_widget::{Marker, MemWidget, Reading, Region, Sample, Tint};
use num_rational::Ratio;

fn reading(total: u64, used: u64, percent: u16) -> Reading {
    Reading::new(total, used, percent).unwrap()
}

fn area(x: u16, y: u16) -> Region {
    Region { x, y, width: 80, height: 24 }
}

#[test]
fn window_reaches_back_a_hundred_ticks() {
    assert_eq!(window_of(1), (-99, 2));
    assert_eq!(window_of(100), (0, 101));
    assert_eq!(window_of(101), (1, 102));
    assert_eq!(window_of(5000), (4900, 5001));
    assert_eq!(window_of(u64::MAX), (18446744073709551515, 18446744073709551616));
}

#[test]
fn window_is_always_101_ticks_wide() {
    for tick in [1u64, 2, 99, 100, 101, 102, 1 << 20, 1 << 53, u64::MAX - 1, u64::MAX] {
        let (low, high) = window_of(tick);
        assert_eq!(high - low, 101);
        assert_eq!(high, tick as i128 + 1);
    }
}

#[test]
fn window_does_not_grow_with_the_history() {
    let mut widget = MemWidget::new(Ratio::from_integer(1));
    for _ in 0..300 {
        widget.update(reading(16, 4, 2500), reading(16, 0, 0));
        let frame = widget.draw(area(0, 0));
        assert_eq!(frame.x_bounds.1 - frame.x_bounds.0, 101);
    }
    let frame = widget.draw(area(0, 0));
    assert_eq!(frame.x_bounds, (201, 302));
    assert_eq!(frame.traces[0].samples.len(), 301);
}

#[test]
fn fresh_widget_draws_its_sentinels() {
    let widget = MemWidget::new(Ratio::from_integer(1));
    assert!(widget.can_draw(area(0, 0)));
    let frame = widget.draw(area(0, 0));
    assert_eq!(frame.title, " Memory Usage ");
    assert_eq!(frame.x_bounds, (-99, 2));
    assert_eq!(frame.y_bounds, (0, FULL_SCALE));
    assert_eq!(frame.y_bounds, (0, 10000));
    assert_eq!(frame.traces.len(), 2);
    assert_eq!(frame.traces[0].samples, &vec![Sample { tick: 1, percent: 0 }]);
    assert_eq!(frame.traces[1].samples, &vec![Sample { tick: 1, percent: 0 }]);
    assert_eq!(frame.captions.len(), 2);
    assert_eq!(frame.captions[0].text, "Main   0% 0 bytes/0 bytes");
    assert_eq!(frame.captions[1].text, "Swap   0% 0 bytes/0 bytes");
}

#[test]
fn drawing_after_five_updates_at_half_utilisation() {
    let mut widget = MemWidget::new(Ratio::from_integer(1));
    for _ in 0..5 {
        widget.update(reading(1000, 500, 5000), reading(1000, 500, 5000));
    }
    let frame = widget.draw(area(10, 20));
    assert_eq!(frame.x_bounds, (-94, 7));
    assert_eq!(frame.captions[0].text, "Main  50% 500 bytes/1000 bytes");
    assert_eq!(frame.captions[1].text, "Swap  50% 500 bytes/1000 bytes");
    assert_eq!(frame.traces[0].samples.len(), 6);
    assert_eq!(frame.traces[1].samples.len(), 6);
    assert_eq!(frame.traces[0].samples[5], Sample { tick: 6, percent: 5000 });
    assert_eq!(frame.traces[1].samples[5], Sample { tick: 6, percent: 5000 });
}

#[test]
fn traces_are_told_apart_by_colour() {
    let mut widget = MemWidget::new(Ratio::from_integer(1));
    widget.update(reading(40, 10, 2500), reading(30, 30, 10000));
    let frame = widget.draw(area(0, 0));
    assert_eq!(frame.traces[0].tint, Tint::Yellow);
    assert_eq!(frame.traces[1].tint, Tint::Blue);
    assert_eq!(frame.traces[0].marker, Marker::Braille);
    assert_eq!(frame.traces[1].marker, Marker::Braille);
    assert_eq!(frame.traces[0].samples, widget.main().samples());
    assert_eq!(frame.traces[1].samples, widget.swap().samples());
    assert_eq!(frame.captions[0].tint, Tint::Yellow);
    assert_eq!(frame.captions[1].tint, Tint::Blue);
}

#[test]
fn captions_stand_below_the_corner_of_the_region() {
    let mut widget = MemWidget::new(Ratio::from_integer(1));
    widget.update(reading(40, 10, 2500), reading(30, 30, 10000));
    let frame = widget.draw(Region { x: 7, y: 11, width: 3, height: 1 });
    assert_eq!((frame.captions[0].x, frame.captions[0].y), (10, 13));
    assert_eq!((frame.captions[1].x, frame.captions[1].y), (10, 14));
    let frame = widget.draw(Region { x: 65532, y: 65532, width: 0, height: 0 });
    assert_eq!((frame.captions[0].x, frame.captions[0].y), (65535, 65534));
    assert_eq!((frame.captions[1].x, frame.captions[1].y), (65535, 65535));
}

#[test]
fn captions_show_sizes_in_binary_units() {
    let mut widget = MemWidget::new(Ratio::from_integer(1));
    widget.update(reading(16 << 30, 1536, 1), reading(1 << 20, 1, 9949));
    let frame = widget.draw(area(0, 0));
    assert_eq!(frame.captions[0].text, "Main   0% 1.50 KiB/16.0 GiB");
    assert_eq!(frame.captions[1].text, "Swap  99% 1 byte/1.00 MiB");
}

#[test]
fn captions_show_the_latest_reading_only() {
    let mut widget = MemWidget::new(Ratio::from_integer(1));
    widget.update(reading(2048, 1024, 5000), reading(4096, 4096, 10000));
    widget.update(reading(2048, 512, 2500), reading(4096, 0, 0));
    let frame = widget.draw(area(0, 0));
    assert_eq!(frame.captions[0].text, "Main  25% 512 bytes/2.00 KiB");
    assert_eq!(frame.captions[1].text, "Swap   0% 0 bytes/4.00 KiB");
}

#[test]
fn drawing_twice_gives_the_same() {
    let mut widget = MemWidget::new(Ratio::from_integer(1));
    for n in 0..12u16 {
        widget.update(reading(1 << 33, 1 << 31, 800 * n), reading(1 << 30, 77, n));
    }
    let first = widget.draw(area(4, 9));
    let second = widget.draw(area(4, 9));
    assert_eq!(first, second);
    assert_eq!(format!("{:?}", first), format!("{:?}", second));
    assert_eq!(widget.tick(), 13);
    assert_eq!(widget.main().samples().len(), 13);
}

#[test]
fn drawing_leaves_the_interval_alone() {
    let mut widget = MemWidget::new(Ratio::new(7, 4));
    widget.update(reading(9, 3, 3333), reading(9, 6, 6667));
    let first = widget.draw(area(0, 0)).captions[0].text.clone();
    assert_eq!(first, "Main  33% 3 bytes/9 bytes");
    assert_eq!(widget.get_update_interval(), Ratio::new(7, 4));
}

#[test]
fn region_at_the_far_edge_cannot_be_drawn_into() {
    let widget = MemWidget::new(Ratio::from_integer(1));
    assert!(widget.can_draw(Region { x: 65532, y: 65532, width: 1, height: 1 }));
    assert!(!widget.can_draw(Region { x: 65533, y: 0, width: 1, height: 1 }));
    assert!(!widget.can_draw(Region { x: 0, y: 65533, width: 1, height: 1 }));
    assert!(!widget.can_draw(Region { x: 65535, y: 65535, width: 1, height: 1 }));
}

#[test]
fn totals_beyond_the_limit_cannot_be_drawn() {
    assert_eq!(SIZE_LIMIT, u64::MAX - 1023);
    let mut widget = MemWidget::new(Ratio::from_integer(1));
    widget.update(reading(SIZE_LIMIT - 1, SIZE_LIMIT - 1, 10000), reading(0, 0, 0));
    assert!(widget.can_draw(area(0, 0)));
    assert_eq!(widget.draw(area(0, 0)).captions[0].text, "Main 100% 15.999999999999998 EiB/15.999999999999998 EiB");
    widget.update(reading(SIZE_LIMIT, 0, 0), reading(0, 0, 0));
    assert!(!widget.can_draw(area(0, 0)));
    widget.update(reading(0, SIZE_LIMIT, 0), reading(0, 0, 0));
    assert!(!widget.can_draw(area(0, 0)));
    widget.update(reading(0, 0, 0), reading(u64::MAX, 0, 0));
    assert!(!widget.can_draw(area(0, 0)));
    widget.update(reading(0, 0, 0), reading(0, u64::MAX, 0));
    assert!(!widget.can_draw(area(0, 0)));
    widget.update(reading(0, 0, 0), reading(0, 0, 0));
    assert!(widget.can_draw(area(0, 0)));
}
