use render_device::cache::ImageCache;
use render_device::device::{select_backend, tries_gpu, Backend, DeviceState, ResizeOutcome, SurfaceSize};
use render_device::fps::FPS;
use render_device::label::{push_decimal, push_fixed2};

const FRAME_NS: u64 = 16_666_667;

#[test]
fn fresh_counter_reads_zero() {
    let c = FPS::new(5);
    assert_eq!(c.fps(), 0);
    assert_eq!(c.start, 5);
    assert_eq!(c.count, 0);
}

#[test]
fn first_update_with_no_elapsed_time_reads_zero() {
    let mut c = FPS::new(1_000);
    c.update(1_000);
    assert_eq!(c.fps(), 0);
    c.update(1_000);
    assert_eq!(c.fps(), 0);
    assert_eq!(c.count, 2);
}

#[test]
fn zero_elapsed_twice_keeps_prior_rate() {
    let mut c = FPS::new(0);
    c.update(500_000_000);
    assert_eq!(c.fps(), 200);
    c.start = 700;
    c.update(700);
    c.update(700);
    assert_eq!(c.fps(), 200);
}

#[test]
fn steady_sixty_hertz_reads_sixty() {
    let mut c = FPS::new(0);
    let mut now: u64 = 0;
    for _ in 0..300 {
        now += FRAME_NS;
        c.update(now);
        assert_eq!(c.fps(), 6000);
    }
}

#[test]
fn steady_ten_hertz_across_window_restart() {
    let mut c = FPS::new(0);
    let mut now: u64 = 0;
    for _ in 0..21 {
        now += 100_000_000;
        c.update(now);
        assert_eq!(c.fps(), 1000);
    }
    // 2.1 s into the window: it starts over at the last frame
    assert_eq!(c.start, now);
    assert_eq!(c.count, 0);
    now += 100_000_000;
    c.update(now);
    assert_eq!(c.fps(), 1000);
    assert_eq!(c.count, 1);
}

#[test]
fn window_restart_after_two_seconds() {
    let mut c = FPS::new(0);
    c.update(2_000_000_000);
    assert_eq!(c.count, 1);
    assert_eq!(c.start, 0);
    c.update(2_000_000_001);
    assert_eq!(c.count, 0);
    assert_eq!(c.start, 2_000_000_001);
    assert_eq!(c.frames, 2);
    assert_eq!(c.span, 2_000_000_001);
    assert_eq!(c.fps(), 100);
}

#[test]
fn clock_stepping_back_counts_as_no_time() {
    let mut c = FPS::new(1_000);
    c.update(10);
    assert_eq!(c.fps(), 0);
    assert_eq!(c.count, 1);
}

#[test]
fn rate_rounds_to_nearest_hundredth() {
    let c = FPS { start: 0, count: 0, frames: 1, span: 3_000_000_000 };
    assert_eq!(c.fps(), 33);
    let c = FPS { start: 0, count: 0, frames: 2, span: 3_000_000_000 };
    assert_eq!(c.fps(), 67);
    let c = FPS { start: 0, count: 0, frames: 1, span: 8_000_000_000 };
    assert_eq!(c.fps(), 13);
}

#[test]
fn decimal_numerals() {
    let mut s = String::from("n=");
    push_decimal(&mut s, 0);
    assert_eq!(s, "n=0");
    let mut s = String::new();
    push_decimal(&mut s, 1_234_567);
    assert_eq!(s, "1234567");
    let mut s = String::new();
    push_decimal(&mut s, u128::MAX);
    assert_eq!(s, u128::MAX.to_string());
}

#[test]
fn two_decimal_numerals() {
    let mut s = String::new();
    push_fixed2(&mut s, 0);
    assert_eq!(s, "0.00");
    let mut s = String::new();
    push_fixed2(&mut s, 5);
    assert_eq!(s, "0.05");
    let mut s = String::new();
    push_fixed2(&mut s, 6000);
    assert_eq!(s, "60.00");
    let mut s = String::new();
    push_fixed2(&mut s, 12_345);
    assert_eq!(s, "123.45");
}

#[test]
fn info_label_of_each_backend() {
    let mut d = DeviceState::new(Backend::OpenGL, 0, 800, 600);
    assert_eq!(d.info(), "OpenGL FPS: 0.00");
    d.update(FRAME_NS);
    assert_eq!(d.fps(), 6000);
    assert_eq!(d.info(), "OpenGL FPS: 60.00");
    let mut d = DeviceState::new(Backend::Software, 0, 800, 600);
    d.update(3_000_000_000);
    assert_eq!(d.info(), "Software FPS: 0.33");
}

#[test]
fn forced_software_never_selects_gpu() {
    assert!(!tries_gpu(true));
    assert_eq!(select_backend(true, true), Backend::Software);
    assert_eq!(select_backend(true, false), Backend::Software);
}

#[test]
fn gpu_preferred_when_it_comes_up() {
    assert!(tries_gpu(false));
    assert_eq!(select_backend(false, true), Backend::OpenGL);
}

#[test]
fn headless_falls_back_to_software_label() {
    let backend = select_backend(false, false);
    assert_eq!(backend, Backend::Software);
    let d = DeviceState::new(backend, 0, 640, 480);
    let info = d.info();
    assert!(info.starts_with("Software FPS: "));
    assert!(!info.starts_with("OpenGL"));
}

#[test]
fn software_resize_from_800_600_to_400_300() {
    let mut d = DeviceState::new(Backend::Software, 0, 800, 600);
    assert_eq!(d.surface, SurfaceSize { width: 800, height: 600 });
    assert_eq!(d.resize(400, 300, true), ResizeOutcome::Replaced);
    assert_eq!(d.surface, SurfaceSize { width: 400, height: 300 });
}

#[test]
fn failed_gpu_resize_keeps_old_surface() {
    let mut d = DeviceState::new(Backend::OpenGL, 0, 800, 600);
    assert_eq!(d.resize(1024, 768, false), ResizeOutcome::Kept);
    assert_eq!(d.surface, SurfaceSize { width: 800, height: 600 });
    assert_eq!(d.backend, Backend::OpenGL);
}

#[test]
fn resize_to_empty_window_keeps_old_surface() {
    let mut d = DeviceState::new(Backend::Software, 0, 800, 600);
    assert_eq!(d.resize(0, 300, true), ResizeOutcome::Kept);
    assert_eq!(d.resize(400, -1, true), ResizeOutcome::Kept);
    assert_eq!(d.surface, SurfaceSize { width: 800, height: 600 });
}

#[test]
fn resize_leaves_counter_alone() {
    let mut d = DeviceState::new(Backend::Software, 0, 800, 600);
    d.update(FRAME_NS);
    d.resize(1, 1, true);
    assert_eq!(d.fps(), 6000);
    assert_eq!(d.surface, SurfaceSize { width: 1, height: 1 });
}

#[test]
fn cache_decodes_once_and_reuses() {
    let mut cache: ImageCache<u32> = ImageCache::new();
    let name = String::from("image.png");
    assert!(cache.get(&name).is_none());
    assert_eq!(cache.position(&name), None);
    cache.insert(name.clone(), 7);
    assert_eq!(cache.get(&name), Some(&7));
    assert_eq!(cache.len(), 1);
    cache.insert(String::from("other.png"), 9);
    assert_eq!(cache.position(&String::from("other.png")), Some(1));
    assert_eq!(cache.get(&name), Some(&7));
    assert_eq!(cache.len(), 2);
}

#[test]
fn cache_insert_replaces_value_under_same_name() {
    let mut cache: ImageCache<&str> = ImageCache::new();
    cache.insert(String::from("a"), "first");
    cache.insert(String::from("a"), "second");
    assert_eq!(cache.len(), 1);
    assert_eq!(cache.get(&String::from("a")), Some(&"second"));
    assert!(cache.get(&String::from("b")).is_none());
}
