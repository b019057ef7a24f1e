use petabroad::point::Point;
use petabroad::scale::Scale;
use petabroad::viewbox::ViewBox;

fn scale(num: u32, den: u32) -> Scale {
    Scale::new(num, den).expect("a positive scale")
}

fn view_box(x: i32, y: i32, w: u32, h: u32, zoom_in_limit: u32, zoom_out_limit: u32) -> ViewBox {
    ViewBox { top_left: Point { x, y }, w, h, zoom_in_limit, zoom_out_limit }
}

#[test]
fn scale_rejects_zero_parts() {
    assert!(Scale::new(0, 1).is_none());
    assert!(Scale::new(1, 0).is_none());
    assert!(Scale::new(0, 0).is_none());
    assert!(Scale::new(1, 1).is_some());
    assert!(Scale::new(u32::MAX, u32::MAX).is_some());
}

#[test]
fn scale_reports_its_parts_and_direction() {
    let s = scale(21, 20);
    assert_eq!(s.numerator(), 21);
    assert_eq!(s.denominator(), 20);
    assert!(s.zooms_in());
    assert!(!s.zooms_out());
    let back = s.inverse();
    assert_eq!(back.numerator(), 20);
    assert_eq!(back.denominator(), 21);
    assert!(back.zooms_out());
    assert!(!back.zooms_in());
    let one = Scale::identity();
    assert_eq!((one.numerator(), one.denominator()), (1, 1));
    assert!(!one.zooms_in());
    assert!(!one.zooms_out());
    assert!(!scale(7, 7).zooms_in());
    assert!(!scale(7, 7).zooms_out());
}

#[test]
fn divide_truncates_toward_zero() {
    assert_eq!(scale(3, 1).divide(200), 66);
    assert_eq!(scale(2, 1).divide(7), 3);
    assert_eq!(scale(2, 1).divide(1), 0);
    assert_eq!(scale(1, 2).divide(900), 1800);
    assert_eq!(scale(4, 5).divide(40), 50);
    assert_eq!(scale(4, 5).divide(20), 25);
    assert_eq!(scale(21, 20).divide(2000), 1904);
    assert_eq!(scale(19, 20).divide(2000), 2105);
    assert_eq!(scale(7, 10).divide(3), 4);
    assert_eq!(scale(1, 1).divide(0), 0);
    assert_eq!(scale(5, 3).divide(0), 0);
}

#[test]
fn divide_caps_at_the_largest_extent() {
    assert_eq!(scale(1, 2).divide(u32::MAX), u32::MAX);
    assert_eq!(scale(1, u32::MAX).divide(u32::MAX), u32::MAX);
    assert_eq!(scale(1, 2).divide(0x8000_0000), u32::MAX);
    assert_eq!(scale(1, 2).divide(0x7fff_ffff), 0xffff_fffe);
    assert_eq!(scale(1, 1).divide(u32::MAX), u32::MAX);
    assert_eq!(scale(u32::MAX, 1).divide(u32::MAX), 1);
    assert_eq!(scale(u32::MAX, 1).divide(u32::MAX - 1), 0);
}

#[test]
fn divide_agrees_with_single_precision_division_for_the_usual_steps() {
    let steps: [(u32, u32, f32); 4] = [(105, 100, 1.05), (95, 100, 0.95), (70, 100, 0.7), (4, 5, 0.8)];
    for (num, den, factor) in steps {
        for extent in 0..5000u32 {
            assert_eq!(scale(num, den).divide(extent), (extent as f32 / factor) as u32);
        }
    }
}

#[test]
fn points_add_and_subtract_by_axis() {
    let a = Point { x: 3, y: -4 };
    let b = Point { x: -10, y: 6 };
    assert_eq!(a + b, Point { x: -7, y: 2 });
    assert_eq!(a - b, Point { x: 13, y: -10 });
    assert_eq!((a + b) - b, a);
    assert!(a.can_add(b));
    assert!(a.can_sub(b));
    let far = Point { x: i32::MAX, y: i32::MIN };
    assert!(!far.can_add(Point { x: 1, y: 0 }));
    assert!(!far.can_add(Point { x: 0, y: -1 }));
    assert!(far.can_add(Point { x: 0, y: 0 }));
    assert!(far.can_add(Point { x: -1, y: 1 }));
    assert!(!far.can_sub(Point { x: -1, y: 0 }));
    assert!(!far.can_sub(Point { x: 0, y: 1 }));
    assert!(far.can_sub(Point { x: 1, y: -1 }));
}

#[test]
fn zoom_in_limit_leaves_rectangle_unchanged() {
    let mut vb = view_box(0, 0, 200, 200, 100, 0);
    let before = vb;
    assert!(!vb.check_zoom_limits(scale(3, 1)));
    assert!(vb.can_zoom_to_center(scale(3, 1)));
    vb.zoom_to_center(scale(3, 1));
    assert_eq!(vb, before);
}

#[test]
fn zoom_out_limit_leaves_rectangle_unchanged() {
    let mut vb = view_box(0, 0, 900, 900, 0, 1000);
    let before = vb;
    assert!(!vb.check_zoom_limits(scale(1, 2)));
    assert!(vb.can_zoom_to_center(scale(1, 2)));
    vb.zoom_to_center(scale(1, 2));
    assert_eq!(vb, before);
}

#[test]
fn zoom_limits_look_at_the_extents_after_the_zoom() {
    // 301 / 1.05 = 286, at or below the limit of 300: refused although 301 is above it.
    let vb = view_box(0, 0, 301, 5000, 300, 9000);
    assert!(!vb.check_zoom_limits(scale(105, 100)));
    // 316 / 1.05 = 300 exactly (truncated): still refused; 317 / 1.05 = 301: carried out.
    assert!(!view_box(0, 0, 316, 5000, 300, 9000).check_zoom_limits(scale(105, 100)));
    assert!(view_box(0, 0, 317, 5000, 300, 9000).check_zoom_limits(scale(105, 100)));
    // 1900 / 0.95 = 2000, at the out limit: refused; 1899 / 0.95 = 1998: carried out.
    assert!(!view_box(0, 0, 10, 1900, 1, 2000).check_zoom_limits(scale(95, 100)));
    assert!(view_box(0, 0, 10, 1899, 1, 2000).check_zoom_limits(scale(95, 100)));
    // The smaller extent decides a zoom in, the larger one a zoom out.
    assert!(!view_box(0, 0, 5000, 301, 300, 9000).check_zoom_limits(scale(105, 100)));
    assert!(!view_box(0, 0, 1900, 10, 1, 2000).check_zoom_limits(scale(95, 100)));
}

#[test]
fn zoom_limits_disabled_permit_everything() {
    let vb = view_box(0, 0, 1, 1, 0, 0);
    assert!(vb.check_zoom_limits(scale(1000, 1)));
    assert!(vb.check_zoom_limits(scale(1, 1000)));
    assert!(vb.check_zoom_limits(scale(1, 1)));
    let empty = view_box(0, 0, 0, 0, 0, 0);
    assert!(empty.check_zoom_limits(scale(2, 1)));
    assert!(empty.check_zoom_limits(scale(1, 2)));
}

#[test]
fn zoom_by_one_is_never_refused() {
    // Both comparisons would refuse a zoom in either direction here.
    let mut vb = view_box(7, -3, 50, 60, 100, 10);
    let before = vb;
    assert!(!vb.check_zoom_limits(scale(2, 1)));
    assert!(!vb.check_zoom_limits(scale(1, 2)));
    assert!(vb.check_zoom_limits(scale(1, 1)));
    assert!(vb.check_zoom_limits(scale(13, 13)));
    vb.zoom_to_center(scale(13, 13));
    assert_eq!(vb, before);
}

#[test]
fn a_limit_of_zero_is_switched_off_on_its_own() {
    // Only the in limit is set: no zoom out is refused, however large the result.
    let vb = view_box(0, 0, 400, 400, 100, 0);
    assert!(vb.check_zoom_limits(scale(1, 2)));
    assert!(vb.check_zoom_limits(scale(1, 1000)));
    assert!(view_box(0, 0, 200, 200, 100, 0).check_zoom_limits(scale(95, 100)));
    // The in limit still holds: 400 / 4 = 100 is at the limit, 400 / 3 = 133 above it.
    assert!(!vb.check_zoom_limits(scale(4, 1)));
    assert!(vb.check_zoom_limits(scale(3, 1)));
    let mut zoomed = vb;
    zoomed.zoom_to_center(scale(1, 2));
    assert_eq!(zoomed, view_box(-200, -200, 800, 800, 100, 0));
    // Only the out limit is set: no zoom in is refused, not even one that leaves no extent.
    let vb = view_box(0, 0, 1, 200, 0, 1000);
    assert!(vb.check_zoom_limits(scale(2, 1)));
    assert!(vb.check_zoom_limits(scale(1000, 1)));
    // The out limit still holds: 200 * 5 = 1000 is at the limit, 200 * 4 = 800 below it.
    assert!(!vb.check_zoom_limits(scale(1, 5)));
    assert!(vb.check_zoom_limits(scale(1, 4)));
    let mut zoomed = vb;
    zoomed.zoom_to_center(scale(2, 1));
    assert_eq!(zoomed, view_box(0, 50, 0, 100, 0, 1000));
}

#[test]
fn a_map_with_only_a_minimum_set_zooms_out_by_wheel_steps() {
    let mut vb = view_box(0, 0, 200, 200, 100, 0);
    for extent in [210u32, 221, 232, 244] {
        vb.zoom_to_center(scale(95, 100));
        assert_eq!((vb.w, vb.h), (extent, extent));
    }
}

#[test]
fn zoom_to_center_keeps_the_center() {
    let mut vb = view_box(10, 20, 400, 300, 0, 0);
    // centre (210, 170)
    vb.zoom_to_center(scale(2, 1));
    assert_eq!(vb, view_box(110, 95, 200, 150, 0, 0));
    assert_eq!(vb.top_left + Point { x: (vb.w / 2) as i32, y: (vb.h / 2) as i32 }, Point { x: 210, y: 170 });
    vb.zoom_to_center(scale(1, 3));
    assert_eq!(vb, view_box(-90, -55, 600, 450, 0, 0));
    assert_eq!(vb.top_left + Point { x: (vb.w / 2) as i32, y: (vb.h / 2) as i32 }, Point { x: 210, y: 170 });
}

#[test]
fn zoom_to_centers_on_the_given_point() {
    let mut vb = view_box(0, 0, 100, 50, 0, 0);
    vb.zoom_to(Point { x: -40, y: 1000 }, scale(4, 1));
    assert_eq!(vb, view_box(-52, 994, 25, 12, 0, 0));
    let mut limited = view_box(0, 0, 100, 50, 20, 500);
    let before = limited;
    limited.zoom_to(Point { x: -40, y: 1000 }, scale(4, 1));
    assert_eq!(limited, before);
    limited.zoom_to(Point { x: -40, y: 1000 }, scale(2, 1));
    assert_eq!(limited, view_box(-65, 988, 50, 25, 20, 500));
}

#[test]
fn zoom_truncates_odd_halves() {
    let mut vb = view_box(0, 0, 7, 9, 0, 0);
    // centre (3, 4); 7 / 2 = 3, 9 / 2 = 4; halves 1 and 2
    vb.zoom_to_center(scale(2, 1));
    assert_eq!(vb, view_box(2, 2, 3, 4, 0, 0));
}

#[test]
fn zoom_round_trip_restores_extents_within_one_unit() {
    for (w, h) in [(2000u32, 1000u32), (1999, 1001), (7, 9), (1, 1), (640, 480), (0, 5)] {
        for (num, den) in [(4u32, 5u32), (19, 20), (7, 10), (1, 3), (1, 1)] {
            let start = view_box(-17, 23, w, h, 0, 0);
            let mut vb = start;
            vb.zoom_to_center(scale(num, den));
            vb.zoom_to_center(scale(num, den).inverse());
            assert!(vb.w <= start.w && start.w - vb.w <= 1, "{} by {}/{} came back as {}", w, num, den, vb.w);
            assert!(vb.h <= start.h && start.h - vb.h <= 1, "{} by {}/{} came back as {}", h, num, den, vb.h);
            let center = |b: &ViewBox| (b.top_left.x + (b.w / 2) as i32, b.top_left.y + (b.h / 2) as i32);
            assert_eq!(center(&vb), center(&start));
        }
    }
}

#[test]
fn zoom_round_trip_after_zooming_in_may_lose_more_than_one_unit() {
    let start = view_box(0, 0, 11, 11, 0, 0);
    let mut vb = start;
    vb.zoom_to_center(scale(3, 1));
    assert_eq!((vb.w, vb.h), (3, 3));
    vb.zoom_to_center(scale(3, 1).inverse());
    assert_eq!((vb.w, vb.h), (9, 9));
    let center = |b: &ViewBox| (b.top_left.x + (b.w / 2) as i32, b.top_left.y + (b.h / 2) as i32);
    assert_eq!(center(&vb), center(&start));
}

#[test]
fn drag_moves_the_origin_only() {
    let mut vb = view_box(5, 6, 70, 80, 9, 1000);
    vb.drag(Point { x: -15, y: 4 });
    assert_eq!(vb, view_box(-10, 10, 70, 80, 9, 1000));
}

#[test]
fn drag_there_and_back_restores_the_origin() {
    for (dx, dy) in [(0, 0), (1, -1), (-250, 4000), (i32::MAX - 10, i32::MIN + 21)] {
        let start = view_box(10, -20, 2000, 2000, 300, 2000);
        let mut vb = start;
        vb.drag(Point { x: dx, y: dy });
        assert_eq!(vb.top_left, Point { x: 10 + dx, y: -20 + dy });
        vb.drag(Point { x: -dx, y: -dy });
        assert_eq!(vb, start);
    }
}

#[test]
fn drag_is_not_limited_by_zoom_limits() {
    // Extents at both limits: every zoom is refused, a drag is not.
    let mut vb = view_box(0, 0, 300, 2000, 300, 2000);
    assert!(!vb.check_zoom_limits(scale(105, 100)));
    assert!(!vb.check_zoom_limits(scale(95, 100)));
    vb.drag(Point { x: 1, y: 1 });
    assert_eq!(vb.top_left, Point { x: 1, y: 1 });
}

#[test]
fn can_drag_tells_overflow() {
    let vb = view_box(i32::MAX - 1, i32::MIN + 1, 1, 1, 0, 0);
    assert!(vb.can_drag(Point { x: 1, y: -1 }));
    assert!(!vb.can_drag(Point { x: 2, y: 0 }));
    assert!(!vb.can_drag(Point { x: 0, y: -2 }));
}

#[test]
fn can_zoom_tells_overflow() {
    let vb = view_box(0, 0, u32::MAX, 1, 0, 0);
    // The extent stays at the cap; the centre is 2147483647 and half the new extent as much: fits.
    assert!(vb.can_zoom_to_center(scale(1, 2)));
    // Centre far to the left: the new origin would lie below i32::MIN.
    assert!(!vb.can_zoom_to(Point { x: -2, y: 0 }, scale(1, 1)));
    assert!(vb.can_zoom_to(Point { x: -1, y: 0 }, scale(1, 1)));
    assert!(!vb.can_zoom_to(Point { x: 0, y: i32::MIN }, scale(1, 2)));
    assert!(vb.can_zoom_to(Point { x: 0, y: i32::MIN }, scale(2, 1)));
    // A zoom that the limits refuse changes nothing and so always fits.
    let limited = view_box(0, 0, u32::MAX, 1, 5, 10);
    assert!(limited.can_zoom_to(Point { x: i32::MIN, y: i32::MIN }, scale(1, 2)));
    let at_edge = view_box(i32::MAX, i32::MAX, 2, 2, 0, 0);
    // The centre itself lies beyond i32::MAX, the new origin does not.
    assert!(at_edge.can_zoom_to_center(scale(1, 2)));
    let mut moved = at_edge;
    moved.zoom_to_center(scale(1, 2));
    assert_eq!(moved, view_box(i32::MAX - 1, i32::MAX - 1, 4, 4, 0, 0));
    assert!(!at_edge.can_zoom_to_center(scale(2, 1)));
}

#[test]
fn to_string_writes_four_numbers() {
    assert_eq!(view_box(0, 0, 2000, 2000, 300, 2000).to_string(), "0 0 2000 2000");
    assert_eq!(view_box(-5, -2, 50, 25, 0, 0).to_string(), "-5 -2 50 25");
    assert_eq!(view_box(0, 0, 0, 0, 0, 0).to_string(), "0 0 0 0");
    assert_eq!(
        view_box(i32::MIN, i32::MAX, u32::MAX, 10, 1, 2).to_string(),
        "-2147483648 2147483647 4294967295 10"
    );
    assert_eq!(view_box(100, -1009, 7, 1234567890, 0, 0).to_string(), "100 -1009 7 1234567890");
}

#[test]
fn to_string_matches_plain_formatting() {
    for vb in [
        view_box(0, 0, 2000, 2000, 300, 2000),
        view_box(-1, 1, 10, 11, 0, 0),
        view_box(i32::MIN, i32::MAX, u32::MAX, 0, 0, 0),
        view_box(-90009, 1000000, 999, 1000, 0, 0),
    ] {
        assert_eq!(vb.to_string(), format!("{} {} {} {}", vb.top_left.x, vb.top_left.y, vb.w, vb.h));
    }
}

#[test]
fn to_string_has_four_whitespace_separated_integer_tokens() {
    for vb in [
        view_box(0, 0, 2000, 2000, 300, 2000),
        view_box(-1, 1, 10, 11, 0, 0),
        view_box(i32::MIN, i32::MAX, u32::MAX, 0, 0, 0),
    ] {
        let text = vb.to_string();
        let tokens: Vec<&str> = text.split_whitespace().collect();
        assert_eq!(tokens.len(), 4);
        assert_eq!(tokens[0].parse::<i32>().unwrap(), vb.top_left.x);
        assert_eq!(tokens[1].parse::<i32>().unwrap(), vb.top_left.y);
        assert_eq!(tokens[2].parse::<u32>().unwrap(), vb.w);
        assert_eq!(tokens[3].parse::<u32>().unwrap(), vb.h);
    }
}

#[test]
fn parse_reads_back_what_to_string_writes() {
    for vb in [
        view_box(0, 0, 2000, 2000, 300, 2000),
        view_box(-1, 1, 10, 11, 0, 0),
        view_box(i32::MIN, i32::MAX, u32::MAX, 0, 5, 6),
        view_box(-90009, 1000000, 999, 1000, 0, 0),
    ] {
        let read = ViewBox::parse(&vb.to_string()).expect("four numbers");
        assert_eq!(read.top_left, vb.top_left);
        assert_eq!(read.w, vb.w);
        assert_eq!(read.h, vb.h);
        assert_eq!((read.zoom_in_limit, read.zoom_out_limit), (0, 0));
    }
}

#[test]
fn parse_accepts_any_whitespace_and_signs() {
    assert_eq!(ViewBox::parse("  1\t-2\n+3 \r\n 4  "), Some(view_box(1, -2, 3, 4, 0, 0)));
    assert_eq!(ViewBox::parse("001 -0 0007 +0"), Some(view_box(1, 0, 7, 0, 0, 0)));
    assert_eq!(ViewBox::parse("1\u{a0}2\u{2003}3\u{3000}4"), Some(view_box(1, 2, 3, 4, 0, 0)));
}

#[test]
fn parse_rejects_what_is_not_four_fitting_integers() {
    assert_eq!(ViewBox::parse(""), None);
    assert_eq!(ViewBox::parse("   "), None);
    assert_eq!(ViewBox::parse("1 2 3"), None);
    assert_eq!(ViewBox::parse("1 2 3 4 5"), None);
    assert_eq!(ViewBox::parse("a b c d"), None);
    assert_eq!(ViewBox::parse("1 2 3 4x"), None);
    assert_eq!(ViewBox::parse("1 2 3.0 4"), None);
    assert_eq!(ViewBox::parse("1 2 -3 4"), None);
    assert_eq!(ViewBox::parse("1 2 3 -4"), None);
    assert_eq!(ViewBox::parse("1 2 3 4294967296"), None);
    assert_eq!(ViewBox::parse("2147483648 2 3 4"), None);
    assert_eq!(ViewBox::parse("1 -2147483649 3 4"), None);
    assert_eq!(ViewBox::parse("1 2 3 99999999999999999999999999"), None);
    assert_eq!(ViewBox::parse("- 2 3 4"), None);
    assert_eq!(ViewBox::parse("+ 2 3 4"), None);
    assert_eq!(ViewBox::parse("--1 2 3 4"), None);
    assert_eq!(ViewBox::parse("1,2,3,4"), None);
    assert_eq!(ViewBox::parse("1 2 3 \u{663}"), None);
    assert_eq!(ViewBox::parse("1 2 3 4294967295"), Some(view_box(1, 2, 3, u32::MAX, 0, 0)));
    assert_eq!(ViewBox::parse("-2147483648 2147483647 0 0"), Some(view_box(i32::MIN, i32::MAX, 0, 0, 0, 0)));
}

#[test]
fn ten_wheel_steps_stay_above_the_zoom_in_limit() {
    let mut vb = view_box(0, 0, 2000, 2000, 300, 2000);
    let step = scale(105, 100);
    let expected = [1904u32, 1813, 1726, 1643, 1564, 1489, 1418, 1350, 1285, 1223];
    for extent in expected {
        assert!(vb.can_zoom_to_center(step));
        vb.zoom_to_center(step);
        assert_eq!((vb.w, vb.h), (extent, extent));
        assert!(vb.w.min(vb.h) > vb.zoom_in_limit);
        // The centre of the map stays at (1000, 1000).
        assert_eq!(vb.top_left.x + (vb.w / 2) as i32, 1000);
        assert_eq!(vb.top_left.y + (vb.h / 2) as i32, 1000);
    }
    assert_eq!(vb, view_box(389, 389, 1223, 1223, 300, 2000));
}

#[test]
fn wheel_steps_become_no_ops_at_the_zoom_in_limit() {
    let mut vb = view_box(0, 0, 2000, 2000, 300, 2000);
    let step = scale(105, 100);
    let mut steps = 0;
    loop {
        let before = vb;
        vb.zoom_to_center(step);
        assert!(vb.w.min(vb.h) > 300);
        if vb == before {
            break;
        }
        steps += 1;
        assert!(steps < 1000);
    }
    // 2000 shrinks to 304 in 38 steps; 304 / 1.05 = 289 would lie below the limit.
    assert_eq!(steps, 38);
    assert_eq!((vb.w, vb.h), (304, 304));
    for _ in 0..5 {
        let before = vb;
        vb.zoom_to_center(step);
        assert_eq!(vb, before);
    }
    // A rectangle that is already at or below the limit does not zoom in at all.
    let mut small = view_box(0, 0, 300, 400, 300, 2000);
    small.zoom_to_center(step);
    assert_eq!(small, view_box(0, 0, 300, 400, 300, 2000));
    let mut smaller = view_box(0, 0, 250, 400, 300, 2000);
    smaller.zoom_to_center(step);
    assert_eq!(smaller, view_box(0, 0, 250, 400, 300, 2000));
}

#[test]
fn zoom_to_center_matches_single_precision_arithmetic() {
    let factors: [(u32, u32, f32); 5] =
        [(105, 100, 1.05), (95, 100, 0.95), (70, 100, 0.7), (3, 1, 3.0), (1, 2, 0.5)];
    for (num, den, factor) in factors {
        for (w, h) in [(2000u32, 2000u32), (1999, 7), (640, 480), (1, 1), (0, 0), (4095, 4096)] {
            for (x, y) in [(0i32, 0i32), (-1000, 250), (77, -3)] {
                let mut vb = view_box(x, y, w, h, 0, 0);
                vb.zoom_to_center(scale(num, den));
                let center = (x + (w / 2) as i32, y + (h / 2) as i32);
                let zoomed = ((w as f32 / factor) as u32, (h as f32 / factor) as u32);
                let expected = view_box(
                    center.0 - (zoomed.0 / 2) as i32,
                    center.1 - (zoomed.1 / 2) as i32,
                    zoomed.0,
                    zoomed.1,
                    0,
                    0,
                );
                assert_eq!(vb, expected);
            }
        }
    }
}
