use jetty_app::anim::Animation;
use jetty_app::colors::{scrollbar_thumb_for, selection_bg_for};
use jetty_app::effect::SummonEffect;
use jetty_app::links::desired_cursor;
use jetty_app::mode::WindowMode;
use jetty_app::state::{App, TabActivity};
use jetty_app::titles::next_activity;
use jetty_app::zone::{
    center_position, dock_monitor, pos_on_some_monitor, resize_zone_at, CursorIcon, Monitor, Px,
    ResizeDirection, ResizeZone,
};

const W: u32 = 1000;
const H: u32 = 640;

/// The zone at a point given in pixels.
fn zone(x: f64, y: f64) -> ResizeZone {
    let px = |v: f64| Px { floor: v.floor() as i64, ceil: v.ceil() as i64 };
    resize_zone_at(px(x), px(y), W, H)
}

#[test]
fn interior_is_none() {
    assert_eq!(zone(500.0, 320.0), ResizeZone::Interior);
}

#[test]
fn edges_map_to_sides() {
    assert_eq!(zone(2.0, 320.0), ResizeZone::West);
    assert_eq!(zone(998.0, 320.0), ResizeZone::East);
    assert_eq!(zone(500.0, 2.0), ResizeZone::North);
    assert_eq!(zone(500.0, 638.0), ResizeZone::South);
}

#[test]
fn corners_take_priority_over_edges() {
    assert_eq!(zone(3.0, 3.0), ResizeZone::NorthWest);
    assert_eq!(zone(997.0, 3.0), ResizeZone::NorthEast);
    assert_eq!(zone(3.0, 637.0), ResizeZone::SouthWest);
    assert_eq!(zone(997.0, 637.0), ResizeZone::SouthEast);
}

#[test]
fn just_inside_edge_band_is_interior() {
    assert_eq!(zone(7.0, 320.0), ResizeZone::Interior);
}

#[test]
fn top_outer_strip_is_resize_inner_is_not() {
    assert_eq!(zone(500.0, 3.0), ResizeZone::North);
    assert_eq!(zone(500.0, 20.0), ResizeZone::Interior);
}

#[test]
fn out_of_bounds_is_none() {
    assert_eq!(zone(-5.0, 320.0), ResizeZone::Interior);
    assert_eq!(zone(500.0, 700.0), ResizeZone::Interior);
}

#[test]
fn fractions_of_a_pixel_count() {
    assert_eq!(zone(6.0, 320.0), ResizeZone::West);
    assert_eq!(zone(6.5, 320.0), ResizeZone::Interior);
    assert_eq!(zone(993.5, 320.0), ResizeZone::Interior);
    assert_eq!(zone(994.0, 320.0), ResizeZone::East);
    assert_eq!(zone(12.0, 12.0), ResizeZone::NorthWest);
    assert_eq!(zone(12.5, 3.0), ResizeZone::North);
    assert_eq!(zone(-0.5, 3.0), ResizeZone::Interior);
}

#[test]
fn directions_and_cursors_pair_up() {
    assert!(ResizeZone::Interior.direction().is_none());
    assert_eq!(ResizeZone::West.direction(), Some(ResizeDirection::West));
    assert_eq!(ResizeZone::SouthEast.direction(), Some(ResizeDirection::SouthEast));
    assert_eq!(ResizeZone::West.cursor_icon(), CursorIcon::EwResize);
    assert_eq!(ResizeZone::North.cursor_icon(), CursorIcon::NsResize);
    assert_eq!(ResizeZone::NorthWest.cursor_icon(), CursorIcon::NwseResize);
    assert_eq!(ResizeZone::NorthEast.cursor_icon(), CursorIcon::NeswResize);
}

#[test]
fn an_edge_outranks_a_link_in_the_pointer_shape() {
    assert_eq!(desired_cursor(ResizeZone::West, true), CursorIcon::EwResize);
    assert_eq!(desired_cursor(ResizeZone::Interior, true), CursorIcon::Pointer);
    assert_eq!(desired_cursor(ResizeZone::Interior, false), CursorIcon::Default);
}

#[test]
fn clears_when_pointing_at_removed() {
    let mut idx = Some(2);
    App::adjust_index_after_remove(&mut idx, 2);
    assert_eq!(idx, None);
}

#[test]
fn decrements_when_pointing_after_removed() {
    let mut idx = Some(3);
    App::adjust_index_after_remove(&mut idx, 1);
    assert_eq!(idx, Some(2));
}

#[test]
fn unchanged_when_pointing_before_removed() {
    let mut idx = Some(1);
    App::adjust_index_after_remove(&mut idx, 3);
    assert_eq!(idx, Some(1));
}

#[test]
fn none_stays_none() {
    let mut idx: Option<usize> = None;
    App::adjust_index_after_remove(&mut idx, 0);
    assert_eq!(idx, None);
}

#[test]
fn output_lights_a_clean_tab() {
    assert_eq!(next_activity(TabActivity::Idle, true, false, false), TabActivity::Output);
}

#[test]
fn no_output_keeps_state() {
    assert_eq!(next_activity(TabActivity::Idle, false, false, false), TabActivity::Idle);
    assert_eq!(next_activity(TabActivity::Output, false, false, false), TabActivity::Output);
    assert_eq!(next_activity(TabActivity::Bell, false, false, false), TabActivity::Bell);
}

#[test]
fn bell_wins_and_is_never_downgraded() {
    assert_eq!(next_activity(TabActivity::Idle, true, true, false), TabActivity::Bell);
    assert_eq!(next_activity(TabActivity::Output, false, true, false), TabActivity::Bell);
    assert_eq!(next_activity(TabActivity::Bell, true, false, false), TabActivity::Bell);
}

#[test]
fn reflow_grace_suppresses_the_output_upgrade() {
    assert_eq!(next_activity(TabActivity::Idle, true, false, true), TabActivity::Idle);
    assert_eq!(next_activity(TabActivity::Idle, true, true, true), TabActivity::Bell);
    assert_eq!(next_activity(TabActivity::Output, true, false, true), TabActivity::Output);
}

#[test]
fn centering_adds_the_monitor_origin() {
    let second = Monitor { x: 1920, y: 100, width: 1280, height: 1024 };
    assert_eq!(center_position(&second, 1000, 640), (1920 + 140, 100 + 192));
    assert_eq!(center_position(&second, 2000, 2000), (1920, 100));
}

#[test]
fn positions_are_looked_up_on_every_monitor() {
    let monitors = vec![
        Monitor { x: 0, y: 0, width: 1920, height: 1080 },
        Monitor { x: 1920, y: 0, width: 1280, height: 1024 },
    ];
    assert!(pos_on_some_monitor(&monitors, (1919, 1079)));
    assert!(pos_on_some_monitor(&monitors, (1920, 0)));
    assert!(!pos_on_some_monitor(&monitors, (1920, 1030)));
    assert!(!pos_on_some_monitor(&monitors, (-1, 0)));
    assert_eq!(dock_monitor(Some(1), None, &monitors), Some(1));
    assert_eq!(dock_monitor(None, Some((2000, 10)), &monitors), Some(1));
    assert_eq!(dock_monitor(None, None, &monitors), Some(0));
    assert_eq!(dock_monitor(None, Some((9000, 9000)), &monitors), Some(0));
    assert_eq!(dock_monitor(None, None, &Vec::new()), None);
}

#[test]
fn selections_blend_one_part_of_background_into_two_of_accent() {
    assert_eq!(selection_bg_for([0, 30, 255], [255, 60, 0]), [170, 50, 85]);
    assert_eq!(selection_bg_for([255, 255, 255], [255, 255, 255]), [255, 255, 255]);
}

#[test]
fn the_scroll_bar_shows_the_foreground_through() {
    assert_eq!(scrollbar_thumb_for([248, 0, 17]), [248, 0, 17, 160]);
}

#[test]
fn animations_without_length_are_over_at_once() {
    assert!(Animation::ms(0).done());
    assert!(!Animation::ms(3_600_000).done());
    assert_eq!(Animation::ms(2).dur_nanos, 2_000_000);
    let a = Animation::new(100);
    assert!(!a.done_after(99));
    assert!(a.done_after(100));
    assert!(a.done_after(101));
}

#[test]
fn effects_read_back_and_cycle_both_ways() {
    let all = [
        SummonEffect::Plain,
        SummonEffect::Bayer,
        SummonEffect::Phosphor,
        SummonEffect::Liquid,
        SummonEffect::Focus,
    ];
    for e in all {
        assert_eq!(SummonEffect::from_config(e.to_config()), e);
        assert_eq!(e.cycle(true).cycle(false), e);
        assert_eq!(e.cycle(false).cycle(true), e);
    }
    assert_eq!(SummonEffect::from_config("no such effect"), SummonEffect::Phosphor);
    assert_eq!(SummonEffect::Bayer.display_name(), "Bayer");
    assert!(!SummonEffect::Plain.is_tier_b());
}

#[test]
fn modes_read_back_and_cycle_both_ways() {
    for m in [WindowMode::Center, WindowMode::Dropdown] {
        assert_eq!(WindowMode::from_config(m.to_config()), m);
        assert_eq!(m.cycle(true).cycle(false), m);
        assert_ne!(m.cycle(true), m);
    }
    assert_eq!(WindowMode::from_config("sideways"), WindowMode::Center);
}
