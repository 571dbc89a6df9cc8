use vr_media_overlay::render::{PingPongRenderer, RenderTarget};

fn renderer() -> PingPongRenderer {
    PingPongRenderer::new(
        RenderTarget { framebuffer: 10, texture: 20 },
        RenderTarget { framebuffer: 11, texture: 21 },
    )
}

#[test]
fn first_frame_writes_first_target_and_shows_second() {
    let r = renderer();
    assert_eq!(r.current_framebuffer(), 10);
    assert_eq!(r.writable_texture(), 20);
    assert_eq!(r.current_texture(), 21);
}

#[test]
fn flip_swaps_read_and_write_roles() {
    let mut r = renderer();
    r.flip();
    assert_eq!(r.current_framebuffer(), 11);
    assert_eq!(r.writable_texture(), 21);
    assert_eq!(r.current_texture(), 20);
}

#[test]
fn read_and_write_targets_differ_over_many_flips() {
    let mut r = renderer();
    let mut shown = Vec::new();
    for _ in 0..7 {
        r.flip();
        assert_ne!(r.current_texture(), r.writable_texture());
        shown.push(r.current_texture());
    }
    assert_eq!(shown, vec![20, 21, 20, 21, 20, 21, 20]);
}

#[test]
fn targets_are_kept_in_slot_order() {
    let mut r = renderer();
    r.flip();
    let t = r.targets();
    assert_eq!(t[0], RenderTarget { framebuffer: 10, texture: 20 });
    assert_eq!(t[1], RenderTarget { framebuffer: 11, texture: 21 });
}

#[test]
fn current_texture_never_the_one_drawn_into() {
    let mut r = renderer();
    assert_ne!(r.current_texture(), r.writable_texture());
    r.flip();
    assert_ne!(r.current_texture(), r.writable_texture());
}
