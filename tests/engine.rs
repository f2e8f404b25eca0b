use mandelbrot::colour::grey_level;
use mandelbrot::engine::{Direction, Mandelbrot};

#[test]
fn new_starts_dirty_with_initial_zoom() {
    let m = Mandelbrot::new(200, 800, 600);
    assert_eq!(m.max_iterations(), 200);
    assert_eq!(m.zoom_level(), 0);
    assert_eq!(m.width(), 800);
    assert_eq!(m.height(), 600);
    assert!(m.changed());
    assert!(m.resized());
    assert!(m.cache().is_empty());
    assert_eq!(m.pixel_count(), 480_000);
}

#[test]
fn zoom_in_then_out_restores_zoom() {
    let mut m = Mandelbrot::new(200, 4, 3);
    m.update(&[0; 12]);
    let before = m.zoom_level();
    m.zoom_in();
    assert_eq!(m.zoom_level(), before + 1);
    assert!(m.changed());
    m.zoom_out();
    assert_eq!(m.zoom_level(), before);
    m.zoom_out();
    m.zoom_in();
    assert_eq!(m.zoom_level(), before);
    assert!(!m.resized());
}

#[test]
fn pan_right_then_left_cancels() {
    let mut m = Mandelbrot::new(200, 4, 3);
    m.update(&[0; 12]);
    let right = m.pan(Direction::Right);
    assert!(m.changed());
    let left = m.pan(Direction::Left);
    assert_eq!(right, (1, 0));
    assert_eq!(left, (-1, 0));
    assert_eq!((right.0 + left.0, right.1 + left.1), (0, 0));
    assert_eq!(m.zoom_level(), 0);
    assert!(!m.resized());
}

#[test]
fn pan_unit_steps() {
    assert_eq!(Direction::Up.unit_step(), (0, -1));
    assert_eq!(Direction::Down.unit_step(), (0, 1));
    assert_eq!(Direction::Left.unit_step(), (-1, 0));
    assert_eq!(Direction::Right.unit_step(), (1, 0));
}

#[test]
fn resize_reallocates_cache_on_update() {
    let mut m = Mandelbrot::new(10, 4, 3);
    m.update(&[7; 12]);
    assert_eq!(m.cache().len(), 12);
    m.resize(5, 2);
    assert!(m.changed());
    assert!(m.resized());
    assert_eq!(m.pixel_count(), 10);
    let counts: Vec<u32> = (0..10).collect();
    m.update(&counts);
    assert!(!m.changed());
    assert!(!m.resized());
    assert_eq!(m.cache().len(), 10);
    assert_eq!(m.cache(), &counts[..]);
}

#[test]
fn update_without_resize_overwrites_in_place() {
    let mut m = Mandelbrot::new(10, 2, 2);
    m.update(&[1, 2, 3, 4]);
    m.zoom_in();
    assert!(!m.resized());
    m.update(&[10, 9, 8, 7]);
    assert_eq!(m.cache(), &[10, 9, 8, 7][..]);
    assert!(!m.changed());
}

#[test]
fn pixel_position_is_row_major() {
    let m = Mandelbrot::new(10, 4, 3);
    assert_eq!(m.pixel_position(0), (0, 0));
    assert_eq!(m.pixel_position(3), (3, 0));
    assert_eq!(m.pixel_position(5), (1, 1));
    assert_eq!(m.pixel_position(11), (3, 2));
}

#[test]
fn grey_level_rounds_to_nearest() {
    assert_eq!(grey_level(0, 200), 0);
    assert_eq!(grey_level(200, 200), 255);
    assert_eq!(grey_level(100, 200), 128);
    assert_eq!(grey_level(1, 200), 1);
    assert_eq!(grey_level(199, 200), 254);
    assert_eq!(grey_level(1, 3), 85);
}

#[test]
fn draw_writes_grey_rgba() {
    let mut m = Mandelbrot::new(200, 2, 2);
    m.update(&[0, 200, 100, 1]);
    let mut screen = vec![9u8; 16];
    m.draw(&mut screen, &[]);
    assert_eq!(
        screen,
        vec![0, 0, 0, 255, 255, 255, 255, 255, 128, 128, 128, 255, 1, 1, 1, 255]
    );
}

#[test]
fn draw_twice_gives_identical_frames() {
    let mut m = Mandelbrot::new(200, 3, 2);
    m.update(&[0, 50, 100, 150, 199, 200]);
    let mut first = vec![0u8; 24];
    let mut second = vec![77u8; 24];
    m.draw(&mut first, &[]);
    assert!(!m.changed());
    m.draw(&mut second, &[]);
    assert_eq!(first, second);
}

#[test]
fn draw_on_dirty_view_recomputes_first() {
    let mut m = Mandelbrot::new(2, 1, 1);
    let mut screen = [0u8; 4];
    m.draw(&mut screen, &[1]);
    assert_eq!(screen, [128, 128, 128, 255]);
    assert_eq!(m.cache(), &[1][..]);
    assert!(!m.changed());
    assert!(!m.resized());
}

#[test]
fn dirty_draw_then_clean_draw_match() {
    let mut m = Mandelbrot::new(200, 2, 1);
    let mut first = vec![0u8; 8];
    let mut second = vec![5u8; 8];
    m.draw(&mut first, &[200, 0]);
    assert!(!m.changed());
    m.draw(&mut second, &[]);
    assert_eq!(first, second);
    assert_eq!(first, vec![255, 255, 255, 255, 0, 0, 0, 255]);
}

#[test]
fn draw_after_resize_uses_new_size() {
    let mut m = Mandelbrot::new(10, 2, 2);
    let mut screen = vec![0u8; 16];
    m.draw(&mut screen, &[1, 2, 3, 4]);
    m.resize(3, 1);
    let mut resized = vec![0u8; 12];
    m.draw(&mut resized, &[10, 5, 0]);
    assert_eq!(m.cache(), &[10, 5, 0][..]);
    assert_eq!(resized, vec![255, 255, 255, 255, 128, 128, 128, 255, 0, 0, 0, 255]);
    assert!(!m.changed());
    assert!(!m.resized());
}
