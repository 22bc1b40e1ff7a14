use screen_ui::layout::{
    draw_list, draw_text, ClockReading, Color, FontSize, LayoutManager, RegionDraw, TextStyle,
    ThemeSchema,
};
use screen_ui::poll::{first_pressed, poll_step, LoopAction, LoopTimers};
use screen_ui::screen::ScreenOptions;
use screen_ui::text::{footer_text, get_header_info, header_text, push_decimal, push_two_digits, CalendarTime};
use screen_ui::types::PinMap;
use screen_ui::wrap::{LayoutLine, Region};

fn clock() -> ClockReading {
    ClockReading {
        uptime_secs: 3725,
        os_version: "Linux 12 Debian".to_string(),
        now: CalendarTime::new(2024, 2, 29, 7, 5, 9).unwrap(),
    }
}

fn line_texts(draw: &RegionDraw) -> Vec<String> {
    draw.lines.iter().map(|l| l.text.clone()).collect()
}

fn same(a: &RegionDraw, b: &RegionDraw) -> bool {
    a.area == b.area && a.background == b.background && a.style == b.style && a.lines == b.lines
}

#[test]
fn header_text_formats_uptime() {
    assert_eq!(header_text(3725, "Linux"), "1:02:05 Linux");
    assert_eq!(header_text(0, ""), "0:00:00 ");
    assert_eq!(header_text(360_000, "x"), "100:00:00 x");
}

#[test]
fn header_info_separates_with_a_tab() {
    assert_eq!(get_header_info(3725, "Linux"), "1:02:05\tLinux");
    assert_eq!(get_header_info(59, ""), "0:00:59\t");
}

#[test]
fn date_is_only_needed_on_home() {
    let mut manager = LayoutManager::new();
    manager.input(PinMap::KeyOk);
    let clock = ClockReading {
        uptime_secs: 1,
        os_version: "v".to_string(),
        now: CalendarTime { year: 2023, month: 2, day: 30, hour: 0, minute: 0, second: 0 },
    };
    let frame = manager.draw(&clock, &Vec::new());
    assert_eq!(line_texts(&frame[2]), vec!["Menu Screen"]);
}

#[test]
fn decimal_digits() {
    let mut s = String::from(">");
    push_decimal(&mut s, 1234567890);
    push_two_digits(&mut s, 7);
    assert_eq!(s, ">123456789007");
    let mut m = String::new();
    push_decimal(&mut m, u64::MAX);
    assert_eq!(m, u64::MAX.to_string());
}

#[test]
fn footer_labels_per_screen() {
    assert_eq!(footer_text(ScreenOptions::Home), "menu | null | system-info");
    assert_eq!(footer_text(ScreenOptions::Menu), "null | home | null");
    assert_eq!(footer_text(ScreenOptions::SystemInfo), "null | home | null");
    assert_eq!(footer_text(ScreenOptions::Wifi), "null | home | null");
}

#[test]
fn calendar_time_checks_dates() {
    assert!(CalendarTime::new(2024, 2, 29, 0, 0, 0).is_some());
    assert!(CalendarTime::new(2023, 2, 29, 0, 0, 0).is_none());
    assert!(CalendarTime::new(1900, 2, 29, 0, 0, 0).is_none());
    assert!(CalendarTime::new(2000, 2, 29, 23, 59, 59).is_some());
    assert!(CalendarTime::new(2024, 4, 31, 0, 0, 0).is_none());
    assert!(CalendarTime::new(2024, 13, 1, 0, 0, 0).is_none());
    assert!(CalendarTime::new(2024, 1, 1, 24, 0, 0).is_none());
    assert!(CalendarTime::new(10000, 1, 1, 0, 0, 0).is_none());
    assert!(CalendarTime::new(-1, 1, 1, 0, 0, 0).is_none());
}

#[test]
fn home_frame() {
    let manager = LayoutManager::new();
    let frame = manager.draw(&clock(), &Vec::new());
    assert_eq!(frame.len(), 3);
    let theme = ThemeSchema::new();

    assert_eq!(frame[0].area, Region { x: 0, y: 0, width: 240, height: 20 });
    assert_eq!(frame[0].background, Color { r: 148, g: 0, b: 211 });
    assert_eq!(line_texts(&frame[0]), vec!["1:02:05 Linux 12 Debian"]);

    assert_eq!(frame[1].area, Region { x: 0, y: 220, width: 240, height: 20 });
    assert_eq!(frame[1].background, Color { r: 0, g: 0, b: 0 });
    assert_eq!(line_texts(&frame[1]), vec!["menu | null | system-info"]);
    assert_eq!(frame[0].lines[0].y, 10);
    assert_eq!(frame[1].lines[0].y, 230);

    assert_eq!(frame[2].area, Region { x: 0, y: 20, width: 240, height: 180 });
    assert_eq!(frame[2].background, Color { r: 47, g: 79, b: 79 });
    assert_eq!(frame[2].style, theme.headline_text_style);
    assert_eq!(
        frame[2].lines,
        vec![LayoutLine { text: "2024-02-29 07:05:09".to_string(), x: 0, y: 40 }]
    );
}

#[test]
fn early_date_is_zero_padded() {
    let manager = LayoutManager::new();
    let now = CalendarTime::new(5, 1, 2, 3, 4, 5).unwrap();
    let body = manager.create_home_layout(&now);
    assert_eq!(line_texts(&body), vec!["0005-01-02 03:04:05"]);
}

#[test]
fn menu_and_wifi_bodies() {
    let mut manager = LayoutManager::new();
    manager.input(PinMap::KeyOk);
    let frame = manager.draw(&clock(), &Vec::new());
    assert_eq!(line_texts(&frame[2]), vec!["Menu Screen"]);
    assert_eq!(line_texts(&frame[1]), vec!["null | home | null"]);
    manager.current_screen = ScreenOptions::Wifi;
    let frame = manager.draw(&clock(), &Vec::new());
    assert!(frame[2].lines.is_empty());
    assert_eq!(frame[2].area, Region { x: 0, y: 20, width: 240, height: 180 });
}

#[test]
fn system_info_lists_metrics() {
    let mut manager = LayoutManager::new();
    manager.input(PinMap::KeyCancel);
    let metrics: Vec<String> = (0..30).map(|i| format!("CPU{i}:\t{i}.0%")).collect();
    let frame = manager.draw(&clock(), &metrics);
    assert_eq!(frame[2].area, Region { x: 0, y: 20, width: 240, height: 200 });
    assert_eq!(frame[2].lines.len(), 19);
    assert_eq!(frame[2].lines[18].text, metrics[18]);
    assert_eq!(frame[2].lines[18].y, 20 + 190);
}

#[test]
fn empty_metrics_still_draw_the_bars() {
    let mut manager = LayoutManager::new();
    manager.input(PinMap::KeyCancel);
    let frame = manager.draw(&clock(), &Vec::new());
    assert_eq!(frame.len(), 3);
    assert_eq!(line_texts(&frame[0]), vec!["1:02:05 Linux 12 Debian"]);
    assert_eq!(line_texts(&frame[1]), vec!["null | home | null"]);
    assert!(frame[2].lines.is_empty());
}

#[test]
fn render_is_idempotent() {
    let metrics: Vec<String> = vec!["MEM:\t1.0G/4.0G".to_string(), "CPU0:\t3.5%".to_string()];
    for screen in [ScreenOptions::Home, ScreenOptions::Menu, ScreenOptions::SystemInfo, ScreenOptions::Wifi] {
        let mut manager = LayoutManager::new();
        manager.current_screen = screen;
        let first = manager.draw(&clock(), &metrics);
        let second = manager.draw(&clock(), &metrics);
        assert_eq!(first.len(), second.len());
        for (a, b) in first.iter().zip(second.iter()) {
            assert!(same(a, b));
        }
    }
}

#[test]
fn draw_text_and_list_keep_style() {
    let style = TextStyle { font: FontSize::Large, color: Color { r: 1, g: 2, b: 3 } };
    let bg = Color { r: 9, g: 9, b: 9 };
    let area = Region { x: 0, y: 0, width: 100, height: 60 };
    let d = draw_text(&area, "alpha beta gamma", style, bg);
    assert_eq!(d.style, style);
    assert_eq!(d.background, bg);
    assert_eq!(line_texts(&d), vec!["alpha beta", "gamma"]);
    let l = draw_list(&area, &vec!["x".to_string(), "y".to_string(), "z".to_string()], style, bg);
    assert_eq!(line_texts(&l), vec!["x", "y"]);
}

#[test]
fn poll_step_decisions() {
    let start = LoopTimers::new(1000);
    let (t, a) = poll_step(start, 1200, Some(PinMap::KeyOk));
    assert_eq!(a, LoopAction::Navigate(PinMap::KeyOk));
    assert_eq!(t, LoopTimers { last_refresh_ms: 1200, last_input_ms: 1200 });

    let (t, a) = poll_step(start, 4000, None);
    assert_eq!(a, LoopAction::Wait);
    assert_eq!(t, start);

    let (t, a) = poll_step(start, 4001, None);
    assert_eq!(a, LoopAction::Redraw);
    assert_eq!(t, LoopTimers { last_refresh_ms: 4001, last_input_ms: 1000 });

    let (t, a) = poll_step(start, 21001, None);
    assert_eq!(a, LoopAction::Blank);
    assert_eq!(t, start);

    let (_, a) = poll_step(start, 500, None);
    assert_eq!(a, LoopAction::Wait);
}

#[test]
fn first_pressed_key_wins() {
    let readings = vec![(PinMap::KeyUp, false), (PinMap::KeyOk, true), (PinMap::KeyMain, true)];
    assert_eq!(first_pressed(&readings), Some(PinMap::KeyOk));
    assert_eq!(first_pressed(&vec![(PinMap::KeyUp, false)]), None);
    assert_eq!(first_pressed(&Vec::new()), None);
}
