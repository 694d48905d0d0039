use timba::content::{Content, LoadError};
use timba::frame::{RawFrame, RawImage};
use timba::viewer::{Playback, Surface, ViewerState};

fn viewer_test_png(width: u32, height: u32) -> Vec<u8> {
    let picture = image::RgbaImage::from_pixel(width, height, image::Rgba([10, 20, 30, 255]));
    let mut out = std::io::Cursor::new(Vec::new());
    image::DynamicImage::ImageRgba8(picture)
        .write_to(&mut out, image::ImageOutputFormat::Png)
        .unwrap();
    out.into_inner()
}

fn viewer_test_gif(delays_ms: &[u32]) -> Vec<u8> {
    let mut out = Vec::new();
    {
        let mut encoder = image::codecs::gif::GifEncoder::new(&mut out);
        let mut frames = Vec::new();
        for (i, delay) in delays_ms.iter().enumerate() {
            let shade = (i as u8) * 80;
            let picture = image::RgbaImage::from_pixel(2, 2, image::Rgba([shade, 0, 0, 255]));
            frames.push(image::Frame::from_parts(
                picture,
                0,
                0,
                image::Delay::from_numer_denom_ms(*delay, 1),
            ));
        }
        encoder.encode_frames(frames).unwrap();
    }
    out
}

fn viewer_test_raw(width: u32, height: u32, fill: u8) -> RawImage {
    RawImage { width, height, pixels: vec![fill; (4 * width * height) as usize] }
}

fn viewer_test_animation(durations: &[u128]) -> Result<Content, LoadError> {
    let mut frames = Vec::new();
    for (i, d) in durations.iter().enumerate() {
        frames.push(RawFrame { image: viewer_test_raw(1, 1, i as u8), delay: *d });
    }
    Content::from_animation(Ok(frames))
}

#[test]
fn a_new_viewer_is_idle_and_awaits_its_picture() {
    let state = ViewerState::new(String::from("/tmp/a.png"), 42);
    assert_eq!(state.image_path(), "/tmp/a.png");
    assert_eq!(state.playback(), Playback::Idle);
    assert_eq!(state.surface(), Surface::Loading);
    assert_eq!(state.error_message(), None);
    assert_eq!(state.natural_size(), None);
    assert!(!state.is_animated());
    assert_eq!(state.current_frame(), 0);
    assert_eq!(state.last_frame_time(), 42);
    assert_eq!(state.frame_count(), 0);
    assert!(state.displayed_frame().is_none());
    assert_eq!(state.load_target(&None), Some(String::from("/tmp/a.png")));
}

#[test]
fn a_viewer_without_a_path_loads_nothing() {
    let mut state = ViewerState::new(String::new(), 0);
    assert_eq!(state.load_target(&None), None);
    assert!(!state.update(None, None, 10));
    assert_eq!(state.surface(), Surface::Loading);
}

#[test]
fn loading_a_still_image_keeps_its_dimensions() {
    let mut state = ViewerState::new(String::from("/tmp/a.png"), 0);
    state.load_image(Ok(viewer_test_png(7, 5)), 100);
    assert!(!state.is_animated());
    assert_eq!(state.natural_size(), Some((7, 5)));
    assert_eq!(state.playback(), Playback::Still);
    assert_eq!(state.surface(), Surface::Picture);
    assert_eq!(state.error_message(), None);
    assert_eq!(state.frame_count(), 0);
    assert_eq!(state.current_frame(), 0);
    assert_eq!(state.last_frame_time(), 0);
    let frame = state.displayed_frame().unwrap();
    assert_eq!(frame.dimensions(), (7, 5));
    assert_eq!(frame.pixels().len(), 140);
    assert_eq!(&frame.pixels()[0..4], &[10u8, 20, 30, 255][..]);
    assert_eq!(state.load_target(&None), None);
}

#[test]
fn loading_a_gif_starts_playback_at_the_first_frame() {
    let mut state = ViewerState::new(String::from("/tmp/b.gif"), 0);
    state.load_image(Ok(viewer_test_gif(&[100, 200, 300])), 5_000);
    assert!(state.is_animated());
    assert_eq!(state.playback(), Playback::Animated);
    assert_eq!(state.frame_count(), 3);
    assert_eq!(state.current_frame(), 0);
    assert_eq!(state.last_frame_time(), 5_000);
    assert_eq!(state.natural_size(), Some((2, 2)));
    assert_eq!(state.surface(), Surface::Picture);
    assert_eq!(state.displayed_frame().unwrap().dimensions(), (2, 2));
}

#[test]
fn a_failed_load_shows_the_error_in_place_of_content() {
    let mut state = ViewerState::new(String::from("/tmp/a.png"), 0);
    state.load_image(Err(String::from("permission denied")), 1);
    assert_eq!(state.error_message(), Some("Failed to load image: permission denied"));
    assert_eq!(state.surface(), Surface::Error);
    assert_eq!(state.playback(), Playback::Idle);
    assert_eq!(state.natural_size(), None);
    assert!(state.displayed_frame().is_none());
    assert_eq!(state.load_target(&None), None);

    let mut animated = ViewerState::new(String::from("/tmp/b.gif"), 0);
    animated.load_image(Err(String::from("permission denied")), 1);
    assert_eq!(animated.error_message(), Some("Failed to open file: permission denied"));
    animated.load_image(Ok(vec![0u8; 3]), 1);
    let text = animated.error_message().unwrap();
    assert!(text.starts_with("Failed to decode frame: "));
}

#[test]
fn a_gif_without_frames_shows_an_error() {
    let mut bytes = b"GIF89a".to_vec();
    bytes.extend_from_slice(&[2, 0, 2, 0, 0, 0, 0, 0x3b, 0x00]);
    let mut state = ViewerState::new(String::from("/tmp/empty.gif"), 0);
    state.load_image(Ok(bytes), 1);
    assert_eq!(state.error_message(), Some("No frames could be decoded"));
    assert!(!state.is_animated());
    assert_eq!(state.frame_count(), 0);
    assert_eq!(state.surface(), Surface::Error);
}

#[test]
fn a_failed_load_replaces_what_was_on_display() {
    let mut state = ViewerState::new(String::from("/tmp/a.png"), 0);
    state.load_image(Ok(viewer_test_png(7, 5)), 100);
    state.load_image(Ok(vec![1, 2, 3]), 200);
    assert_eq!(state.surface(), Surface::Error);
    assert!(state.displayed_frame().is_none());
    assert_eq!(state.natural_size(), None);
}

#[test]
fn a_new_path_resets_everything() {
    let mut state = ViewerState::new(String::from("/tmp/b.gif"), 0);
    state.show(viewer_test_animation(&[10, 10, 10]), 100);
    assert!(state.tick(110));
    assert_eq!(state.current_frame(), 1);
    state.receive(String::from("/tmp/c.png"));
    assert_eq!(state.image_path(), "/tmp/c.png");
    assert_eq!(state.playback(), Playback::Idle);
    assert!(!state.is_animated());
    assert_eq!(state.current_frame(), 0);
    assert_eq!(state.frame_count(), 0);
    assert_eq!(state.natural_size(), None);
    assert_eq!(state.error_message(), None);
    assert!(state.displayed_frame().is_none());
    assert_eq!(state.last_frame_time(), 110);
    assert_eq!(state.load_target(&None), Some(String::from("/tmp/c.png")));
}

#[test]
fn a_new_path_clears_an_error() {
    let mut state = ViewerState::new(String::from("/tmp/a.png"), 0);
    state.load_image(Err(String::from("gone")), 1);
    assert_eq!(state.surface(), Surface::Error);
    state.receive(String::from("/tmp/d.png"));
    assert_eq!(state.error_message(), None);
    assert_eq!(state.surface(), Surface::Loading);
}

#[test]
fn playback_advances_exactly_once_when_the_frame_time_has_passed() {
    let (d0, d1, d2) = (100u128, 250u128, 400u128);
    let mut state = ViewerState::new(String::from("/tmp/b.gif"), 0);
    state.show(viewer_test_animation(&[d0, d1, d2]), 1_000);
    assert_eq!(state.current_frame(), 0);
    assert!(!state.tick(1_000 + d0 - 1));
    assert_eq!(state.current_frame(), 0);
    assert_eq!(state.last_frame_time(), 1_000);
    assert!(state.tick(1_000 + d0));
    assert_eq!(state.current_frame(), 1);
    assert_eq!(state.last_frame_time(), 1_000 + d0);
    assert!(!state.tick(1_000 + d0));
    assert_eq!(state.current_frame(), 1);
}

#[test]
fn playback_is_clamped_to_one_step_however_late_the_tick() {
    let (d0, d1, d2) = (100u128, 250u128, 400u128);
    let mut state = ViewerState::new(String::from("/tmp/b.gif"), 0);
    state.show(viewer_test_animation(&[d0, d1, d2]), 1_000);
    let late = 1_000 + d0 + d1 + d2 + 1;
    assert!(state.tick(late));
    assert_eq!(state.current_frame(), 1);
    assert_eq!(state.last_frame_time(), late);
    assert!(!state.tick(late));
    assert_eq!(state.current_frame(), 1);
    assert!(state.tick(late + 1_000_000));
    assert_eq!(state.current_frame(), 2);
}

#[test]
fn playback_wraps_after_the_last_frame() {
    let mut state = ViewerState::new(String::from("/tmp/b.gif"), 0);
    state.show(viewer_test_animation(&[10, 20, 30]), 0);
    assert!(state.tick(10));
    assert_eq!(state.current_frame(), 1);
    assert!(state.tick(30));
    assert_eq!(state.current_frame(), 2);
    assert!(state.tick(60));
    assert_eq!(state.current_frame(), 0);
    assert_eq!(state.last_frame_time(), 60);
    assert_eq!(state.displayed_frame().unwrap().pixels(), &[0u8, 0, 0, 0][..]);
}

#[test]
fn the_frame_on_display_follows_the_index() {
    let mut state = ViewerState::new(String::from("/tmp/b.gif"), 0);
    state.show(viewer_test_animation(&[10, 20, 30]), 0);
    assert_eq!(state.displayed_frame().unwrap().pixels(), &[0u8, 0, 0, 0][..]);
    state.tick(10);
    assert_eq!(state.displayed_frame().unwrap().pixels(), &[1u8, 1, 1, 1][..]);
    state.tick(30);
    assert_eq!(state.displayed_frame().unwrap().pixels(), &[2u8, 2, 2, 2][..]);
}

#[test]
fn a_single_frame_animation_stays_on_its_frame() {
    let mut state = ViewerState::new(String::from("/tmp/b.gif"), 0);
    state.show(viewer_test_animation(&[50]), 0);
    assert!(state.is_animated());
    assert!(state.tick(50));
    assert_eq!(state.current_frame(), 0);
    assert_eq!(state.last_frame_time(), 50);
}

#[test]
fn a_clock_that_runs_backwards_counts_as_no_time_passed() {
    let mut state = ViewerState::new(String::from("/tmp/b.gif"), 0);
    state.show(viewer_test_animation(&[10, 0, 10]), 1_000);
    assert!(!state.tick(500));
    assert_eq!(state.current_frame(), 0);
    assert!(state.tick(1_010));
    assert_eq!(state.current_frame(), 1);
    assert!(state.tick(900));
    assert_eq!(state.current_frame(), 2);
    assert_eq!(state.last_frame_time(), 900);
}

#[test]
fn a_still_image_never_advances() {
    let mut state = ViewerState::new(String::from("/tmp/a.png"), 0);
    state.show(Content::from_still(Ok(viewer_test_raw(2, 2, 1))), 0);
    assert!(!state.tick(u128::MAX));
    assert_eq!(state.current_frame(), 0);
    assert_eq!(state.last_frame_time(), 0);
    assert_eq!(state.playback(), Playback::Still);
}

#[test]
fn an_idle_viewer_never_advances() {
    let mut state = ViewerState::new(String::from("/tmp/a.png"), 7);
    assert!(!state.tick(1_000_000));
    assert_eq!(state.last_frame_time(), 7);
}

#[test]
fn the_first_update_loads_the_initial_path() {
    let mut state = ViewerState::new(String::from("/tmp/a.png"), 0);
    let target = state.load_target(&None);
    assert_eq!(target, Some(String::from("/tmp/a.png")));
    let dirty = state.update(None, Some(Ok(viewer_test_png(3, 4))), 10);
    assert!(dirty);
    assert_eq!(state.natural_size(), Some((3, 4)));
    assert_eq!(state.load_target(&None), None);
    assert!(!state.update(None, None, 20));
    assert_eq!(state.natural_size(), Some((3, 4)));
}

#[test]
fn an_update_without_the_file_leaves_the_load_for_later() {
    let mut state = ViewerState::new(String::from("/tmp/a.png"), 0);
    assert!(!state.update(None, None, 10));
    assert_eq!(state.playback(), Playback::Idle);
    assert_eq!(state.load_target(&None), Some(String::from("/tmp/a.png")));
}

#[test]
fn an_update_ignores_a_file_that_was_not_asked_for() {
    let mut state = ViewerState::new(String::from("/tmp/a.png"), 0);
    state.load_image(Ok(viewer_test_png(3, 4)), 0);
    assert_eq!(state.load_target(&None), None);
    assert!(!state.update(None, Some(Ok(viewer_test_png(9, 9))), 10));
    assert_eq!(state.natural_size(), Some((3, 4)));
}

#[test]
fn an_update_with_a_message_switches_to_the_new_path() {
    let mut state = ViewerState::new(String::from("/tmp/a.png"), 0);
    state.load_image(Ok(viewer_test_png(3, 4)), 0);
    let message = Some(String::from("/tmp/b.gif"));
    assert_eq!(state.load_target(&message), Some(String::from("/tmp/b.gif")));
    let dirty = state.update(message, Some(Ok(viewer_test_gif(&[100, 200, 300]))), 1_000);
    assert!(dirty);
    assert_eq!(state.image_path(), "/tmp/b.gif");
    assert!(state.is_animated());
    assert_eq!(state.frame_count(), 3);
    assert_eq!(state.current_frame(), 0);
    assert_eq!(state.last_frame_time(), 1_000);
}

#[test]
fn an_update_with_a_message_but_no_file_only_resets() {
    let mut state = ViewerState::new(String::from("/tmp/a.png"), 0);
    state.load_image(Ok(viewer_test_png(3, 4)), 0);
    assert!(state.update(Some(String::from("/tmp/c.png")), None, 5));
    assert_eq!(state.image_path(), "/tmp/c.png");
    assert_eq!(state.playback(), Playback::Idle);
    assert_eq!(state.load_target(&None), Some(String::from("/tmp/c.png")));
}

#[test]
fn an_update_does_not_retry_after_an_error() {
    let mut state = ViewerState::new(String::from("/tmp/a.png"), 0);
    assert!(state.update(None, Some(Err(String::from("gone"))), 1));
    assert_eq!(state.surface(), Surface::Error);
    assert_eq!(state.load_target(&None), None);
    assert!(!state.update(None, Some(Ok(viewer_test_png(3, 4))), 2));
    assert_eq!(state.surface(), Surface::Error);
}

#[test]
fn an_update_ticks_the_animation() {
    let mut state = ViewerState::new(String::from("/tmp/b.gif"), 0);
    state.update(None, Some(Ok(viewer_test_gif(&[100, 200, 300]))), 0);
    assert_eq!(state.current_frame(), 0);
    assert!(!state.update(None, None, 99_999_999));
    assert_eq!(state.current_frame(), 0);
    assert!(state.update(None, None, 100_000_000));
    assert_eq!(state.current_frame(), 1);
    assert!(!state.update(None, None, 100_000_000));
    assert!(state.update(None, None, 900_000_000));
    assert_eq!(state.current_frame(), 2);
    assert!(state.update(None, None, 1_200_000_000));
    assert_eq!(state.current_frame(), 0);
}

#[test]
fn an_update_with_an_empty_path_message_shows_the_read_error() {
    let mut state = ViewerState::new(String::from("/tmp/a.png"), 0);
    let message = Some(String::new());
    assert_eq!(state.load_target(&message), Some(String::new()));
    state.update(message, Some(Err(String::from("No such file or directory"))), 1);
    assert_eq!(state.image_path(), "");
    assert_eq!(state.error_message(), Some("Failed to load image: No such file or directory"));
}
