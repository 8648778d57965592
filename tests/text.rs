use leaffront::color::Color;
use leaffront::drawer::{Command, Drawer};
use leaffront::font::{FontCache, LaidGlyph, PixelBox};
use leaffront::pos::Position;
use leaffront::wrap::{break_line, LineWrapper};

fn glyph(id: u16, min_x: i32, max_x: i32) -> LaidGlyph {
    LaidGlyph { id, bbox: Some(PixelBox { min_x, min_y: -8, max_x, max_y: 2 }) }
}

fn space(id: u16) -> LaidGlyph {
    LaidGlyph { id, bbox: None }
}

/// Prefix widths of a monospace font `unit` pixels wide in which spaces
/// have no pixels.
fn mono_widths(text: &str, unit: i32) -> Vec<i32> {
    let chars: Vec<char> = text.chars().collect();
    let mut widths = vec![0];
    let mut width = 0;
    for (i, c) in chars.iter().enumerate() {
        if *c != ' ' {
            width = (i as i32 + 1) * unit;
        }
        widths.push(width);
    }
    widths
}

/// Wraps `text` into lines the way a caller drives `LineWrapper`.
fn wrap_lines(text: &str, unit: i32, max_width: i32, max_height: Option<i32>) -> (Vec<String>, (i32, i64)) {
    let chars: Vec<char> = text.chars().collect();
    let mut wrapper = LineWrapper::new(chars.len(), Position::new(0, 0), max_height, 12);
    let mut lines = Vec::new();
    while wrapper.next_origin().is_some() {
        let rest: Vec<char> = chars[wrapper.consumed()..].to_vec();
        let rest_text: String = rest.iter().collect();
        let widths = mono_widths(&rest_text, unit);
        let k = wrapper.take_line(&rest, &widths, max_width);
        lines.push(rest[..k].iter().collect());
    }
    (lines, wrapper.used())
}

#[test]
fn width_is_rightmost_box_extent() {
    let cache = FontCache::new();
    let layout = vec![glyph(1, 0, 7), space(2), glyph(3, 12, 19), space(2)];
    assert_eq!(cache.get_width(&layout), 19);
    assert_eq!(cache.get_width(&vec![]), 0);
    assert_eq!(cache.get_width(&vec![space(2)]), 0);
}

#[test]
fn glyph_texture_is_tinted_by_coverage() {
    let mut cache = FontCache::new();
    let mut d = Drawer::new(100, 100);
    let color = Color::new_4byte(10, 20, 30, 255);
    cache.cache_glyph(7, &color, 16, 2, 1, &vec![0, 128], &mut d);
    assert!(cache.contains(7, &color, 16));
    match &d.take_commands()[0] {
        Command::CreateTexture { width, height, pixels, .. } => {
            assert_eq!((*width, *height), (2, 1));
            assert_eq!(pixels, &vec![10, 20, 30, 0, 10, 20, 30, 128]);
        }
        other => panic!("unexpected {:?}", other),
    }
}

#[test]
fn cache_is_keyed_by_glyph_color_and_size() {
    let mut cache = FontCache::new();
    let mut d = Drawer::new(100, 100);
    let white = Color::new_3byte(255, 255, 255);
    let red = Color::new_3byte(255, 0, 0);
    let cov = vec![1, 2, 3, 4];
    cache.cache_glyph(5, &white, 16, 2, 2, &cov, &mut d);
    assert_eq!(cache.len(), 1);
    cache.cache_glyph(5, &white, 16, 2, 2, &cov, &mut d);
    assert_eq!(cache.len(), 1);
    cache.cache_glyph(5, &red, 16, 2, 2, &cov, &mut d);
    assert_eq!(cache.len(), 2);
    cache.cache_glyph(5, &white, 24, 2, 2, &cov, &mut d);
    assert_eq!(cache.len(), 3);
    assert!(!cache.contains(6, &white, 16));
    let creates = d.take_commands().iter().filter(|c| matches!(c, Command::CreateTexture { .. })).count();
    assert_eq!(creates, 3);
}

/// Full coverage for each glyph with pixels, as a caller that rasterizes
/// every glyph would hand it over.
fn full_coverage(layout: &[LaidGlyph]) -> Vec<Option<Vec<u8>>> {
    layout
        .iter()
        .map(|g| {
            g.bbox.map(|b| vec![255; ((b.max_x - b.min_x) * (b.max_y - b.min_y)) as usize])
        })
        .collect()
}

#[test]
fn drawing_twice_adds_no_entries() {
    let mut cache = FontCache::new();
    let mut d = Drawer::new(100, 100);
    let color = Color::new_3byte(255, 255, 255);
    let layout = vec![glyph(1, 0, 2), space(2), glyph(1, 6, 8)];
    let cov = full_coverage(&layout);
    cache.draw(&layout, &cov, &color, 16, &Position::new(10, 20), &mut d);
    assert_eq!(cache.len(), 1);
    let first = d.take_commands();
    assert_eq!(first.iter().filter(|c| matches!(c, Command::CreateTexture { .. })).count(), 1);
    let none: Vec<Option<Vec<u8>>> = vec![None, None, None];
    cache.draw(&layout, &none, &color, 16, &Position::new(10, 20), &mut d);
    assert_eq!(cache.len(), 1);
    let cmds = d.take_commands();
    assert_eq!(cmds.iter().filter(|c| matches!(c, Command::CreateTexture { .. })).count(), 0);
    let draws: Vec<&Command> = cmds.iter().filter(|c| matches!(c, Command::DrawTextured { .. })).collect();
    assert_eq!(draws.len(), 2);
    match draws[1] {
        Command::DrawTextured { vertices, .. } => {
            // glyph at (10 + 6, 20 - 8) sized 2 x 10 on a 100 x 100 framebuffer
            assert_eq!(vertices[0], 2 * 16 - 100);
            assert_eq!(vertices[1], -(2 * 12 - 100));
            assert_eq!(vertices[4], 2 * 18 - 100);
            assert_eq!(vertices[3], -(2 * 22 - 100));
        }
        other => panic!("unexpected {:?}", other),
    }
}

#[test]
fn draw_uploads_missing_glyph_before_drawing_it() {
    let mut cache = FontCache::new();
    let mut d = Drawer::new(100, 100);
    let color = Color::new_4byte(1, 2, 3, 4);
    let layout = vec![LaidGlyph { id: 9, bbox: Some(PixelBox { min_x: 0, min_y: 0, max_x: 2, max_y: 1 }) }];
    cache.draw(&layout, &vec![Some(vec![10, 20])], &color, 12, &Position::new(0, 0), &mut d);
    let cmds = d.take_commands();
    assert_eq!(
        cmds[0],
        Command::CreateTexture { handle: 1, width: 2, height: 1, pixels: vec![1, 2, 3, 10, 1, 2, 3, 20] }
    );
    assert_eq!(cmds[1], Command::Enter(leaffront::draw_state::DrawState::Textured));
    match &cmds[2] {
        Command::DrawTextured { texture, .. } => assert_eq!(*texture, 1),
        other => panic!("unexpected {:?}", other),
    }
    assert_eq!(cmds.len(), 3);
}

#[test]
fn draw_in_new_color_or_size_adds_entries() {
    let mut cache = FontCache::new();
    let mut d = Drawer::new(100, 100);
    let white = Color::new_3byte(255, 255, 255);
    let red = Color::new_3byte(255, 0, 0);
    let layout = vec![glyph(4, 0, 3)];
    let cov = full_coverage(&layout);
    cache.draw(&layout, &cov, &white, 16, &Position::new(0, 0), &mut d);
    cache.draw(&layout, &cov, &red, 16, &Position::new(0, 0), &mut d);
    cache.draw(&layout, &cov, &white, 20, &Position::new(0, 0), &mut d);
    cache.draw(&layout, &cov, &red, 16, &Position::new(5, 5), &mut d);
    assert_eq!(cache.len(), 3);
    assert!(cache.contains(4, &white, 16));
    assert!(cache.contains(4, &red, 16));
    assert!(cache.contains(4, &white, 20));
}

#[test]
fn repeated_glyph_in_one_line_is_uploaded_once() {
    let mut cache = FontCache::new();
    let mut d = Drawer::new(100, 100);
    let color = Color::new_3byte(255, 255, 255);
    let layout = vec![glyph(1, 0, 2), glyph(1, 4, 6), glyph(1, 8, 10)];
    cache.draw(&layout, &full_coverage(&layout), &color, 16, &Position::new(0, 0), &mut d);
    let cmds = d.take_commands();
    assert_eq!(cmds.iter().filter(|c| matches!(c, Command::CreateTexture { .. })).count(), 1);
    assert_eq!(cmds.iter().filter(|c| matches!(c, Command::DrawTextured { .. })).count(), 3);
}

#[test]
fn long_word_is_cut_and_wrapping_ends() {
    let text = "aaaaaaaaaa";
    let chars: Vec<char> = text.chars().collect();
    let k = break_line(&chars, &mono_widths(text, 10), 35);
    assert_eq!(k, 3);
    let (lines, (used_w, used_h)) = wrap_lines(text, 10, 35, None);
    assert_eq!(lines, vec!["aaa", "aaa", "aaa", "a"]);
    assert_eq!(used_w, 30);
    assert_eq!(used_h, 48);
}

#[test]
fn single_wide_character_still_makes_progress() {
    let chars: Vec<char> = "ab".chars().collect();
    assert_eq!(break_line(&chars, &vec![0, 50, 100], 10), 1);
    let (lines, _) = wrap_lines("abc", 10, 5, None);
    assert_eq!(lines, vec!["a", "b", "c"]);
}

#[test]
fn wrap_breaks_at_space() {
    let text = "aaaa bbbb cccc";
    let chars: Vec<char> = text.chars().collect();
    assert_eq!(break_line(&chars, &mono_widths(text, 10), 90), 10);
    let (lines, (used_w, used_h)) = wrap_lines(text, 10, 90, None);
    assert_eq!(lines, vec!["aaaa bbbb ", "cccc"]);
    assert_eq!(used_w, 90);
    assert_eq!(used_h, 24);
}

#[test]
fn text_that_fits_is_one_line() {
    let text = "aa bb";
    let chars: Vec<char> = text.chars().collect();
    assert_eq!(break_line(&chars, &mono_widths(text, 10), 100), 5);
}

#[test]
fn wrapping_stops_at_max_height() {
    let (lines, (_, used_h)) = wrap_lines("aaaa bbbb cccc dddd", 10, 40, Some(20));
    assert_eq!(lines, vec!["aaaa ", "bbbb "]);
    assert_eq!(used_h, 24);
}

#[test]
fn empty_text_makes_no_line() {
    let (lines, used) = wrap_lines("", 10, 40, None);
    assert!(lines.is_empty());
    assert_eq!(used, (0, 0));
}
