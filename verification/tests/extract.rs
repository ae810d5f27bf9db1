use ffc::extract::extract_window;
use ffc::planner::{expected_pixels, plan_window, PixelWindow};

fn image_4x4() -> Vec<u64> {
    // distinct samples so that any misplaced index is visible
    (0u64..16).collect()
}

#[test]
fn inner_window_is_copied_row_major() {
    let w = PixelWindow { row_start: 1, row_end: 3, col_start: 1, col_end: 3, imsize: 2 };
    let v = extract_window(&image_4x4(), 4, 4, &w).unwrap();
    assert_eq!(v, vec![5, 6, 9, 10]);
}

#[test]
fn full_image_window_is_identity() {
    let w = PixelWindow { row_start: 0, row_end: 4, col_start: 0, col_end: 4, imsize: 4 };
    let v = extract_window(&image_4x4(), 4, 4, &w).unwrap();
    assert_eq!(v, image_4x4());
}

#[test]
fn window_off_the_image_is_refused() {
    let w = PixelWindow { row_start: -1, row_end: 2, col_start: 0, col_end: 3, imsize: 3 };
    assert_eq!(extract_window(&image_4x4(), 4, 4, &w), None);
    let w = PixelWindow { row_start: 2, row_end: 5, col_start: 0, col_end: 3, imsize: 3 };
    assert_eq!(extract_window(&image_4x4(), 4, 4, &w), None);
}

#[test]
fn truncated_image_data_is_refused() {
    let w = PixelWindow { row_start: 0, row_end: 2, col_start: 0, col_end: 2, imsize: 2 };
    let short: Vec<u64> = (0u64..15).collect();
    assert_eq!(extract_window(&short, 4, 4, &w), None);
}

#[test]
fn planned_window_extracts_its_declared_pixel_count() {
    let pixels: Vec<u64> = (0u64..100 * 100).collect();
    let w = plan_window(50, 50, 100, 100, 21).unwrap();
    let v = extract_window(&pixels, 100, 100, &w).unwrap();
    assert_eq!(v.len() as u64, expected_pixels(&w));
    assert_eq!(v.len(), 21 * 21);
    // top-left corner of the window is source pixel (40, 40)
    assert_eq!(v[0], 40 * 100 + 40);
}
