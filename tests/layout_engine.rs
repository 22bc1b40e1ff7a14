use screen_ui::wrap::{
    cut_to_width, place_lines, split_to_width, wrap_and_clip, wrap_and_clip_list, GlyphMetrics,
    LayoutLine, Region,
};

const SMALL: GlyphMetrics = GlyphMetrics { width: 6, height: 10 };

fn texts(lines: &[LayoutLine]) -> Vec<String> {
    lines.iter().map(|l| l.text.clone()).collect()
}

fn assert_inside(lines: &[LayoutLine], region: Region, glyph: GlyphMetrics) {
    for line in lines {
        assert!(line.text.chars().count() as u32 * glyph.width <= region.width);
        assert_eq!(line.x, region.x);
        assert!(line.y >= region.y);
        assert!(line.y + glyph.height <= region.y + region.height);
    }
}

#[test]
fn truncation_keeps_the_first_five_lines() {
    let metrics: Vec<String> = (0..20).map(|i| format!("CPU{i}: {i}.5%")).collect();
    let region = Region { x: 0, y: 0, width: 240, height: 60 };
    let lines = wrap_and_clip_list(&metrics, region, SMALL);
    assert_eq!(lines.len(), 5);
    for (i, line) in lines.iter().enumerate() {
        assert_eq!(line.text, metrics[i]);
        assert_eq!(line.x, 0);
        assert_eq!(line.y, 10 * (i as u32 + 1));
    }
    let shifted = Region { x: 0, y: 20, width: 240, height: 69 };
    let lines = wrap_and_clip_list(&metrics, shifted, SMALL);
    assert_eq!(texts(&lines), metrics[..5].to_vec());
    assert_eq!(lines[4].y, 70);
}

#[test]
fn long_word_is_hard_split() {
    let word = "a".repeat(50);
    let region = Region { x: 0, y: 0, width: 120, height: 100 };
    let lines = wrap_and_clip(&word, region, SMALL);
    assert_eq!(texts(&lines), vec!["a".repeat(20), "a".repeat(20), "a".repeat(10)]);
    assert_inside(&lines, region, SMALL);
}

#[test]
fn empty_text_has_no_lines() {
    let region = Region { x: 0, y: 0, width: 240, height: 200 };
    assert!(wrap_and_clip("", region, SMALL).is_empty());
    assert!(wrap_and_clip_list(&Vec::new(), region, SMALL).is_empty());
}

#[test]
fn words_wrap_greedily() {
    let region = Region { x: 4, y: 8, width: 66, height: 100 };
    let lines = wrap_and_clip("hello world foo bar", region, SMALL);
    assert_eq!(texts(&lines), vec!["hello world", "foo bar"]);
    assert_eq!(lines[0].x, 4);
    assert_eq!(lines[0].y, 18);
    assert_eq!(lines[1].y, 28);
}

#[test]
fn list_entries_never_merge() {
    let items = vec!["one two".to_string(), "three".to_string(), "four five six seven".to_string()];
    let region = Region { x: 0, y: 0, width: 60, height: 100 };
    let lines = wrap_and_clip_list(&items, region, SMALL);
    assert_eq!(texts(&lines), vec!["one two", "three", "four five", "six seven"]);
    assert_eq!(lines[3].y, 40);
}

#[test]
fn lines_stay_inside_the_region() {
    let text = "The quick brown fox jumps over the lazy dog again and again, \
                supercalifragilisticexpialidocious words included, until the region is full.";
    for width in [0u32, 5, 6, 7, 30, 61, 240] {
        for height in [0u32, 9, 10, 25, 60] {
            let region = Region { x: 3, y: 7, width, height };
            let lines = wrap_and_clip(text, region, SMALL);
            assert_inside(&lines, region, SMALL);
            assert!(lines.len() as u32 <= (height / 10).saturating_sub(1));
        }
    }
}

#[test]
fn region_narrower_than_a_glyph_shows_nothing() {
    let region = Region { x: 0, y: 0, width: 5, height: 100 };
    assert!(wrap_and_clip("abc", region, SMALL).is_empty());
}

#[test]
fn partial_last_line_is_dropped() {
    let region = Region { x: 0, y: 0, width: 240, height: 39 };
    let items: Vec<String> = vec!["a".into(), "b".into(), "c".into()];
    let lines = wrap_and_clip_list(&items, region, SMALL);
    assert_eq!(texts(&lines), vec!["a", "b"]);
}

#[test]
fn split_to_width_cuts_pieces() {
    assert_eq!(split_to_width("abcdefg", 3), vec!["abc", "def", "g"]);
    assert_eq!(split_to_width("abc", 3), vec!["abc"]);
    assert_eq!(split_to_width("", 3), vec![""]);
    assert_eq!(split_to_width("äöüß", 2), vec!["äö", "üß"]);
}

#[test]
fn cut_to_width_keeps_order() {
    let lines = vec!["abcde".to_string(), "xy".to_string()];
    assert_eq!(cut_to_width(&lines, 2), vec!["ab", "cd", "e", "xy"]);
}

#[test]
fn place_lines_positions_each_line() {
    let lines: Vec<String> = vec!["a".into(), "b".into(), "c".into()];
    let region = Region { x: 10, y: 100, width: 60, height: 30 };
    let placed = place_lines(&lines, region, SMALL);
    assert_eq!(
        placed,
        vec![
            LayoutLine { text: "a".into(), x: 10, y: 110 },
            LayoutLine { text: "b".into(), x: 10, y: 120 },
        ]
    );
    let short = Region { x: 10, y: 100, width: 60, height: 19 };
    assert!(place_lines(&lines, short, SMALL).is_empty());
}
