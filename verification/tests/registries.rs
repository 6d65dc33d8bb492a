use egor::app::AppControl;
use egor::text::{family_after_loading, font_family, pick_last_family};
use egor::texture::texture_pixels;
use egor::render_graph::{RenderGraph, RenderNodeId, RenderTargetId};
use egor::resources::ResourceStore;
use egor::runner::{decide, initial_surface_size, LoopAction, LoopEvent};
use egor::text::{return_to_pool, Align, Horizontal, Vertical, MAX_POOLED_BUFFERS};
use egor::time::FrameCounter;

#[test]
fn resource_ids_are_insertion_order() {
    let mut s: ResourceStore<&str> = ResourceStore::new();
    assert_eq!(s.insert("a"), 0);
    assert_eq!(s.insert("b"), 1);
    assert_eq!(s.get(1), Some(&"b"));
    assert_eq!(s.get(2), None);
    let fallback = "default";
    assert_eq!(*s.get_or(Some(0), &fallback), "a");
    assert_eq!(*s.get_or(Some(5), &fallback), "default");
    assert_eq!(*s.get_or(None, &fallback), "default");
    s.replace(0, "c");
    assert_eq!(s.get(0), Some(&"c"));
    assert_eq!(s.len(), 2);
}

#[test]
fn render_graph_schedule() {
    let mut g: RenderGraph<&str, u8> = RenderGraph::new();
    let t0 = g.add_offscreen_target("blur");
    let t1 = g.add_offscreen_target("bloom");
    assert_eq!(t0, RenderTargetId(0));
    assert_eq!(t1, RenderTargetId(1));
    let n0 = g.add_render_node(10, t1);
    let n1 = g.add_render_node(20, t0);
    assert_eq!(n1, RenderNodeId(1));
    g.set_render_order(vec![n1, n0, n1]);
    assert!(g.order_is_valid());
    assert_eq!(g.schedule(), vec![(1, 0), (0, 1), (1, 0)]);
    assert_eq!(g.target(t1), Some(&"bloom"));
    assert_eq!(g.target(RenderTargetId(7)), None);
    assert_eq!(g.node(n0), Some(&(10, t1)));
    g.set_render_order(vec![RenderNodeId(5)]);
    assert!(!g.order_is_valid());
    g.add_render_node(30, RenderTargetId(9));
    g.set_render_order(vec![RenderNodeId(2)]);
    assert!(!g.order_is_valid());
}

#[test]
fn frame_loop_decisions() {
    assert_eq!(decide(LoopEvent::CloseRequested, false, false, true), LoopAction::Exit);
    assert_eq!(
        decide(LoopEvent::RedrawRequested, true, true, true),
        LoopAction::RunFrame { request_redraw: true }
    );
    assert_eq!(
        decide(LoopEvent::RedrawRequested, true, true, false),
        LoopAction::RunFrame { request_redraw: false }
    );
    assert_eq!(decide(LoopEvent::RedrawRequested, true, false, true), LoopAction::Nothing);
    assert_eq!(
        decide(LoopEvent::Resized { width: 0, height: 10 }, true, true, true),
        LoopAction::Nothing
    );
    assert_eq!(
        decide(LoopEvent::Resized { width: 640, height: 480 }, false, true, true),
        LoopAction::Resize { width: 640, height: 480 }
    );
    assert_eq!(decide(LoopEvent::Other, true, true, true), LoopAction::Nothing);
    assert_eq!(initial_surface_size(0, 0), (800, 600));
    assert_eq!(initial_surface_size(1024, 0), (1024, 600));
    assert_eq!(initial_surface_size(3, 4), (3, 4));
}

#[test]
fn align_parts() {
    assert_eq!(Align::TopLeft.horizontal(), Horizontal::Left);
    assert_eq!(Align::MiddleCenter.horizontal(), Horizontal::Center);
    assert_eq!(Align::BottomRight.horizontal(), Horizontal::Right);
    assert_eq!(Align::TopRight.vertical(), Vertical::Top);
    assert_eq!(Align::MiddleLeft.vertical(), Vertical::Middle);
    assert_eq!(Align::BottomCenter.vertical(), Vertical::Bottom);
}

#[test]
fn pool_keeps_at_most_the_limit() {
    let mut pool: Vec<u32> = (0..60).collect();
    return_to_pool(&mut pool, vec![100, 101, 102, 103, 104, 105]);
    assert_eq!(pool.len(), MAX_POOLED_BUFFERS);
    assert_eq!(&pool[60..], &[100, 101, 102, 103]);
    return_to_pool(&mut pool, vec![7]);
    assert_eq!(pool.len(), MAX_POOLED_BUFFERS);
    let mut small = vec![1];
    return_to_pool(&mut small, vec![2, 3]);
    assert_eq!(small, vec![1, 2, 3]);
}

#[test]
fn frame_counter_updates_fps_once_a_second() {
    let mut c = FrameCounter::new();
    c.tick(false);
    c.tick(false);
    assert_eq!(c.fps(), 0);
    assert_eq!(c.frames_since_fps_update(), 2);
    c.tick(true);
    assert_eq!(c.fps(), 3);
    assert_eq!(c.frames_since_fps_update(), 0);
    assert_eq!(c.frame(), 3);
    c.tick(false);
    assert_eq!(c.fps(), 3);
    assert_eq!(c.frame(), 4);
}

#[test]
fn app_control_records_last_requests() {
    let mut ctl = AppControl::new();
    assert_eq!(ctl.pending_size(), None);
    assert_eq!(ctl.pending_vsync(), None);
    assert_eq!(ctl.pending_fullscreen(), None);
    assert!(!ctl.redraw_pending());
    ctl.set_size(640, 480);
    ctl.set_size(800, 600);
    ctl.set_vsync(false);
    ctl.set_fullscreen(true);
    ctl.set_fullscreen(false);
    ctl.request_redraw();
    assert_eq!(ctl.pending_size(), Some((800, 600)));
    assert_eq!(ctl.pending_vsync(), Some(false));
    assert_eq!(ctl.pending_fullscreen(), Some(false));
    assert!(ctl.redraw_pending());
}

fn png_bytes(w: u32, h: u32, px: &[u8]) -> Vec<u8> {
    let img = image::RgbaImage::from_raw(w, h, px.to_vec()).unwrap();
    let mut out = std::io::Cursor::new(Vec::new());
    img.write_to(&mut out, image::ImageFormat::Png).unwrap();
    out.into_inner()
}

#[test]
fn texture_pixels_decodes_png() {
    let px = [255u8, 0, 0, 255, 0, 0, 255, 128];
    let bytes = png_bytes(2, 1, &px);
    assert_eq!(texture_pixels(&bytes), Some((2, 1, px.to_vec())));
}

#[test]
fn texture_pixels_refuses_non_images() {
    assert_eq!(texture_pixels(b"not an image"), None);
    assert_eq!(texture_pixels(&[]), None);
}

#[test]
fn font_family_refuses_non_fonts() {
    assert_eq!(font_family(b"not a font"), None);
    assert_eq!(font_family(&[]), None);
}

#[test]
fn last_family_is_first_name_of_last_face() {
    let faces = vec![vec!["A".to_string()], vec!["B".to_string(), "C".to_string()]];
    assert_eq!(pick_last_family(faces), Some("B".to_string()));
    assert_eq!(pick_last_family(vec![]), None);
    assert_eq!(pick_last_family(vec![vec!["A".to_string()], vec![]]), None);
}

#[test]
fn bytes_without_a_face_leave_the_loaded_family() {
    let loaded = vec![vec!["Inter".to_string()], vec!["Mono".to_string()]];
    assert_eq!(family_after_loading(loaded, b"not a font"), Some("Mono".to_string()));
    assert_eq!(family_after_loading(vec![], b"not a font"), None);
}
