use leaffront::color::Color;
use leaffront::draw_state::{DrawState, DrawStateMachine, Transition};
use leaffront::drawer::{Command, Drawer};
use leaffront::geometry::{rect_to_min_max, rect_to_vertices};
use leaffront::pos::{Position, Rect};
use leaffront::texture::{Dimensions, Texture};

fn red() -> Color {
    Color::new_4byte(255, 0, 0, 255)
}

#[test]
fn color_alpha_replaces_only_alpha() {
    let c = Color::new_4byte(1, 2, 3, 4);
    assert_eq!(c.alpha(200), Color::new_4byte(1, 2, 3, 200));
    assert_eq!(Color::new_3byte(9, 8, 7), Color::new_4byte(9, 8, 7, 255));
}

#[test]
fn colors_order_by_channels() {
    assert!(Color::new_4byte(1, 0, 0, 0) > Color::new_4byte(0, 255, 255, 255));
}

#[test]
fn rect_constructors() {
    let p = Position::new(3, -4);
    assert_eq!(Rect::new_from_pos(&p, 10, 20), Rect::new(3, -4, 10, 20));
    let r = Rect::new(1, 2, 3, 4);
    assert_eq!((r.x, r.y, r.width, r.height), (1, 2, 3, 4));
}

#[test]
fn texture_starts_zeroed_and_draws_pixels() {
    let mut t = Texture::new(3, 2);
    assert_eq!(t.tex_data.len(), 24);
    assert!(t.tex_data.iter().all(|b| *b == 0));
    t.draw_pixel(&Color::new_4byte(10, 20, 30, 40), 2, 1);
    assert_eq!(&t.tex_data[20..24], &[10, 20, 30, 40]);
    assert!(t.tex_data[..20].iter().all(|b| *b == 0));
    assert_eq!((Texture::get_width(&t), Texture::get_height(&t)), (3, 2));
    assert_eq!((Dimensions::get_width(&t), Dimensions::get_height(&t)), (3, 2));
}

#[test]
fn state_machine_binds_same_state_once() {
    let mut m = DrawStateMachine::new();
    let first = m.configure_state(DrawState::Colored);
    assert_eq!(first, Some(Transition { from: DrawState::Unbound, to: DrawState::Colored }));
    for _ in 0..50 {
        assert_eq!(m.configure_state(DrawState::Colored), None);
    }
    assert_eq!(m.transition_count, 1);
    assert_eq!(m.calls, 51);
}

#[test]
fn state_machine_counts_changes() {
    let (c, t, u) = (DrawState::Colored, DrawState::Textured, DrawState::Unbound);
    let reqs = [c, t, t, u, c, c, t, u, u];
    let mut m = DrawStateMachine::new();
    for r in reqs.iter() {
        m.configure_state(*r);
    }
    let mut expected = 0;
    let mut prev = u;
    for r in reqs.iter() {
        if *r != prev {
            expected += 1;
        }
        prev = *r;
    }
    assert_eq!(expected, 6);
    assert_eq!(m.transition_count, expected);
    assert_eq!(m.state, u);
}

#[test]
fn full_rect_flips_y() {
    let v = rect_to_vertices(&Rect::new(0, 0, 800, 600), 800, 600);
    assert_eq!(v, vec![-800, 600, -800, -600, 800, -600, -800, 600, 800, 600, 800, -600]);
    let ((min_x, min_y), (max_x, max_y)) = rect_to_min_max(&Rect::new(0, 0, 800, 600), 800, 600);
    assert_eq!((min_x, min_y, max_x, max_y), (-800, -600, 800, 600));
    assert_eq!(v[1], -min_y);
    assert_eq!(v[3], -max_y);
}

#[test]
fn top_rect_is_in_upper_half() {
    let v = rect_to_vertices(&Rect::new(0, 0, 100, 50), 800, 600);
    // top edge at +1 (600 / 600), bottom edge at (600 - 100) / 600
    assert_eq!(v[1], 600);
    assert_eq!(v[3], 500);
    assert_eq!(v[0], -800);
    assert_eq!(v[4], 2 * 100 - 800);
}

#[test]
fn one_rect_frame() {
    let mut d = Drawer::new(800, 600);
    d.start(800, 600);
    d.draw_colored_rect(&Rect::new(0, 0, 100, 50), &red());
    assert_eq!(d.get_transition_count(), 1);
    assert_eq!(d.get_call_count(), 1);
    d.end();
    assert_eq!(d.get_transition_count(), 2);
    let cmds = d.take_commands();
    assert_eq!(cmds.len(), 6);
    assert_eq!(cmds[0], Command::Viewport { width: 800, height: 600 });
    assert_eq!(cmds[1], Command::Enter(DrawState::Colored));
    match &cmds[2] {
        Command::DrawColored { vertices, colors } => {
            assert_eq!(vertices.len(), 12);
            assert_eq!(colors.len(), 24);
            assert_eq!(vertices, &vec![-800, 600, -800, 500, -600, 500, -800, 600, -600, 600, -600, 500]);
            for chunk in colors.chunks(4) {
                assert_eq!(chunk, &[255, 0, 0, 255]);
            }
        }
        other => panic!("unexpected {:?}", other),
    }
    assert_eq!(cmds[3], Command::Leave(DrawState::Colored));
    assert_eq!(cmds[4], Command::Enter(DrawState::Unbound));
    assert_eq!(cmds[5], Command::SwapBuffers);
    assert!(d.take_commands().is_empty());
}

#[test]
fn repeated_colored_draws_bind_once() {
    let mut d = Drawer::new(100, 100);
    d.start(100, 100);
    for i in 0..10 {
        d.draw_colored_rect(&Rect::new(i, i, 5, 5), &red());
    }
    assert_eq!(d.get_transition_count(), 1);
    let cmds = d.take_commands();
    let enters = cmds.iter().filter(|c| matches!(c, Command::Enter(_))).count();
    assert_eq!(enters, 1);
}

#[test]
fn switching_programs_leaves_then_enters() {
    let mut d = Drawer::new(100, 100);
    d.start(100, 100);
    let t = d.convert_native_texture(Texture::new(2, 2));
    d.draw_colored_rect(&Rect::new(0, 0, 5, 5), &red());
    d.draw_texture(&t, &Position::new(1, 1));
    d.draw_texture(&t, &Position::new(2, 2));
    d.draw_colored_rect(&Rect::new(0, 0, 5, 5), &red());
    assert_eq!(d.get_transition_count(), 3);
    let cmds = d.take_commands();
    let kinds: Vec<&str> = cmds
        .iter()
        .map(|c| match c {
            Command::Viewport { .. } => "viewport",
            Command::CreateTexture { .. } => "create",
            Command::Enter(_) => "enter",
            Command::Leave(_) => "leave",
            Command::DrawColored { .. } => "colored",
            Command::DrawTextured { .. } => "textured",
            _ => "other",
        })
        .collect();
    assert_eq!(
        kinds,
        vec![
            "viewport", "create", "enter", "colored", "leave", "enter", "textured", "textured",
            "leave", "enter", "colored"
        ]
    );
}

#[test]
fn texture_draw_uses_own_size_and_white() {
    let mut d = Drawer::new(10, 10);
    d.start(10, 10);
    let t = d.convert_native_texture(Texture::new(4, 2));
    assert_eq!((t.get_width(), t.get_height()), (4, 2));
    d.draw_texture(&t, &Position::new(1, 2));
    let cmds = d.take_commands();
    match cmds.last().unwrap() {
        Command::DrawTextured { texture, vertices, colors, uv } => {
            assert_eq!(*texture, t.handle());
            // x from 1 to 5, y from 2 to 4 on a 10x10 framebuffer
            assert_eq!(vertices, &vec![-8, 6, -8, 2, 0, 2, -8, 6, 0, 6, 0, 2]);
            assert!(colors.iter().all(|b| *b == 255));
            assert_eq!(colors.len(), 24);
            assert_eq!(uv, &vec![0, 0, 0, 2, 4, 2, 0, 0, 4, 0, 4, 2]);
        }
        other => panic!("unexpected {:?}", other),
    }
}

#[test]
fn textures_get_fresh_handles_and_are_released_once() {
    let mut d = Drawer::new(10, 10);
    let mut handles = Vec::new();
    let mut textures = Vec::new();
    for _ in 0..5 {
        let t = d.convert_native_texture(Texture::new(1, 1));
        handles.push(t.handle());
        textures.push(t);
    }
    for t in textures {
        d.release_texture(t);
    }
    let cmds = d.take_commands();
    let created: Vec<u64> = cmds
        .iter()
        .filter_map(|c| match c {
            Command::CreateTexture { handle, .. } => Some(*handle),
            _ => None,
        })
        .collect();
    let deleted: Vec<u64> = cmds
        .iter()
        .filter_map(|c| match c {
            Command::DeleteTexture { handle } => Some(*handle),
            _ => None,
        })
        .collect();
    assert_eq!(created, handles);
    assert_eq!(deleted, handles);
    assert_eq!(handles, vec![1, 2, 3, 4, 5]);
}

#[test]
fn clip_flips_to_bottom_left_origin() {
    let mut d = Drawer::new(800, 600);
    d.start_clip(&Rect::new(10, 20, 100, 50));
    d.end_clip();
    let cmds = d.take_commands();
    assert_eq!(cmds[0], Command::Scissor { x: 10, y: 530, width: 100, height: 50 });
    assert_eq!(cmds[1], Command::DisableScissor);
}

#[test]
fn clear_without_background_only_clears() {
    let mut d = Drawer::new(8, 8);
    d.clear(true);
    d.clear(false);
    assert_eq!(d.take_commands(), vec![Command::Clear, Command::Clear]);
}

#[test]
fn clear_transparent_draws_background() {
    let mut d = Drawer::new(8, 4);
    d.start(8, 4);
    let img = image::DynamicImage::new_rgba8(2, 3);
    assert!(d.set_background(&img));
    d.clear(false);
    d.clear(true);
    let cmds = d.take_commands();
    match &cmds[1] {
        Command::CreateTexture { handle, width, height, pixels } => {
            assert_eq!((*handle, *width, *height), (1, 2, 3));
            assert_eq!(pixels.len(), 24);
        }
        other => panic!("unexpected {:?}", other),
    }
    assert_eq!(cmds[2], Command::Clear);
    assert_eq!(cmds[3], Command::Clear);
    assert_eq!(cmds[4], Command::Enter(DrawState::Textured));
    match &cmds[5] {
        Command::DrawTextured { texture, vertices, uv, .. } => {
            assert_eq!(*texture, 1);
            assert_eq!(vertices, &vec![-8, 4, -8, -4, 8, -4, -8, 4, 8, 4, 8, -4]);
            assert_eq!(uv, &vec![0, 0, 0, 3, 2, 3, 0, 0, 2, 0, 2, 3]);
        }
        other => panic!("unexpected {:?}", other),
    }
    assert_eq!(cmds.len(), 6);
}

#[test]
fn background_image_pixels_are_rgba() {
    let mut d = Drawer::new(8, 4);
    let mut rgb = image::RgbImage::new(1, 1);
    rgb.put_pixel(0, 0, image::Rgb([10, 20, 30]));
    assert!(d.set_background(&image::DynamicImage::ImageRgb8(rgb)));
    match &d.take_commands()[0] {
        Command::CreateTexture { pixels, .. } => assert_eq!(pixels, &vec![10, 20, 30, 255]),
        other => panic!("unexpected {:?}", other),
    }
}

#[test]
fn replacing_background_releases_previous() {
    let mut d = Drawer::new(8, 4);
    assert!(d.set_background(&image::DynamicImage::new_rgba8(1, 1)));
    assert!(d.set_background(&image::DynamicImage::new_rgba8(1, 1)));
    let cmds = d.take_commands();
    assert_eq!(cmds.len(), 3);
    assert_eq!(cmds[2], Command::DeleteTexture { handle: 1 });
}

#[test]
fn blending_is_recorded() {
    let mut d = Drawer::new(8, 4);
    d.enable_blending();
    assert_eq!(d.take_commands(), vec![Command::EnableBlending]);
    assert_eq!((d.get_width(), d.get_height()), (8, 4));
}

#[test]
fn start_resets_counters() {
    let mut d = Drawer::new(8, 4);
    d.start(8, 4);
    d.draw_colored_rect(&Rect::new(0, 0, 1, 1), &red());
    d.start(16, 8);
    assert_eq!(d.get_transition_count(), 0);
    assert_eq!(d.get_call_count(), 0);
    assert_eq!((d.get_width(), d.get_height()), (16, 8));
}

#[test]
fn background_rgba_uses_exact_pixels() {
    let mut d = Drawer::new(8, 4);
    let pixels: Vec<u8> = (0..12).collect();
    assert!(d.set_background_rgba(pixels, 1, 2));
    let cmds = d.take_commands();
    assert_eq!(
        cmds,
        vec![Command::CreateTexture { handle: 1, width: 1, height: 2, pixels: (0..8).collect() }]
    );
}

#[test]
fn background_rgba_refuses_oversized_side() {
    let mut d = Drawer::new(8, 4);
    assert!(!d.set_background_rgba(Vec::new(), 1 << 31, 0));
    assert!(d.take_commands().is_empty());
    assert!(d.set_background_rgba(vec![7; 4], 1, 1));
    assert!(d.set_background_rgba(vec![9; 4], 1, 1));
    let cmds = d.take_commands();
    assert_eq!(cmds.len(), 3);
    assert_eq!(cmds[2], Command::DeleteTexture { handle: 1 });
}
