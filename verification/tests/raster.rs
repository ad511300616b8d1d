use qrgen::matrix::Matrix;
use qrgen::raster::{rasterize, BACKGROUND, FOREGROUND};

fn two_by_two() -> Matrix {
    // X .
    // . X
    Matrix::new(2, vec![true, false, false, true]).unwrap()
}

#[test]
fn a_matrix_needs_as_many_modules_as_its_square() {
    assert!(Matrix::new(0, vec![]).is_some());
    assert!(Matrix::new(1, vec![true]).is_some());
    assert!(Matrix::new(2, vec![true; 4]).is_some());
    assert!(Matrix::new(2, vec![true; 3]).is_none());
    assert!(Matrix::new(2, vec![true; 5]).is_none());
    assert!(Matrix::new(-1, vec![true]).is_none());
    assert!(Matrix::new(-2, vec![true; 4]).is_none());
    assert!(Matrix::new(i32::max_value(), vec![]).is_none());
}

#[test]
fn modules_are_read_by_column_and_row() {
    let matrix = Matrix::new(2, vec![true, true, false, false]).unwrap();
    assert_eq!(2, matrix.size());
    assert!(matrix.get_module(0, 0));
    assert!(matrix.get_module(1, 0));
    assert!(!matrix.get_module(0, 1));
    assert!(!matrix.get_module(1, 1));
}

#[test]
fn modules_outside_the_matrix_are_unset() {
    let matrix = Matrix::new(2, vec![true; 4]).unwrap();
    for &(x, y) in [(-1, 0), (0, -1), (2, 0), (0, 2), (2, 2), (-1, -1)].iter() {
        assert!(!matrix.get_module(x, y));
    }
    assert!(!matrix.get_module(i32::max_value(), 0));
    assert!(!matrix.get_module(0, i32::min_value()));
}

#[test]
fn a_raster_without_border_or_scaling_is_the_matrix() {
    let canvas = rasterize(&two_by_two(), 0, 1).unwrap();
    assert_eq!(2, canvas.pixel_size);
    assert_eq!(
        vec![0, 0, 0, 255, 255, 255, 255, 255, 255, 0, 0, 0],
        canvas.data
    );
}

#[test]
fn a_raster_has_the_border_on_every_side() {
    let matrix = Matrix::new(1, vec![true]).unwrap();
    let canvas = rasterize(&matrix, 1, 1).unwrap();
    assert_eq!(3, canvas.pixel_size);
    let mut expected = vec![BACKGROUND; 27];
    for c in 0..3 {
        expected[(1 * 3) + (1 * 3 * 3) + c] = FOREGROUND;
    }
    assert_eq!(expected, canvas.data);
}

#[test]
fn a_module_covers_a_square_of_scale_pixels() {
    let canvas = rasterize(&two_by_two(), 1, 3).unwrap();
    assert_eq!(12, canvas.pixel_size);
    assert_eq!(12 * 12 * 3, canvas.data.len());
    for y in 0..12usize {
        for x in 0..12usize {
            let dark = (3..6).contains(&x) && (3..6).contains(&y)
                || (6..9).contains(&x) && (6..9).contains(&y);
            let offset = (x * 3) + (y * 12 * 3);
            for c in 0..3 {
                assert_eq!(if dark { 0 } else { 255 }, canvas.data[offset + c]);
            }
        }
    }
}

#[test]
fn every_pixel_maps_back_to_its_module() {
    let modules: Vec<bool> = (0..25).map(|i| i % 3 == 0 || i % 7 == 2).collect();
    let matrix = Matrix::new(5, modules).unwrap();
    for &(border, scale) in [(0u8, 1u8), (2, 1), (0, 4), (3, 5), (4, 10)].iter() {
        let canvas = rasterize(&matrix, border, scale).unwrap();
        let side = (5 + 2 * i32::from(border)) * i32::from(scale);
        assert_eq!(side, canvas.pixel_size);
        assert_eq!((side * side * 3) as usize, canvas.data.len());
        for y in 0..side {
            for x in 0..side {
                let module_x = x / i32::from(scale) - i32::from(border);
                let module_y = y / i32::from(scale) - i32::from(border);
                let set = matrix.get_module(module_x, module_y);
                let offset = ((x * 3) + (y * side * 3)) as usize;
                for c in 0..3 {
                    assert_eq!(if set { 0 } else { 255 }, canvas.data[offset + c]);
                }
                let in_border = module_x < 0 || module_x >= 5 || module_y < 0 || module_y >= 5;
                if in_border {
                    assert_eq!(255, canvas.data[offset]);
                }
            }
        }
    }
}

#[test]
fn an_unset_matrix_is_all_background() {
    let matrix = Matrix::new(3, vec![false; 9]).unwrap();
    let canvas = rasterize(&matrix, 2, 2).unwrap();
    assert_eq!(14, canvas.pixel_size);
    assert_eq!(vec![255u8; 14 * 14 * 3], canvas.data);
}

#[test]
fn rendering_twice_gives_the_same_bytes() {
    let first = rasterize(&two_by_two(), 4, 7).unwrap();
    let second = rasterize(&two_by_two(), 4, 7).unwrap();
    assert_eq!(first.pixel_size, second.pixel_size);
    assert_eq!(first.data, second.data);
}

#[test]
fn a_version_one_symbol_at_scale_ten_has_290_pixels_a_side() {
    let matrix = Matrix::new(21, vec![false; 21 * 21]).unwrap();
    let canvas = rasterize(&matrix, 4, 10).unwrap();
    assert_eq!(290, canvas.pixel_size);
    assert_eq!(252300, canvas.data.len());
}

#[test]
fn a_raster_too_large_is_not_drawn() {
    let matrix = Matrix::new(177, vec![true; 177 * 177]).unwrap();
    // (177 + 510) * 255 pixels a side: the buffer length is out of range.
    assert!(rasterize(&matrix, 255, 255).is_none());
    // (177 + 2) * 150 = 26850 pixels a side: 26850^2 * 3 is out of range.
    assert!(rasterize(&matrix, 1, 150).is_none());
}

#[test]
fn a_scale_of_zero_gives_an_empty_raster() {
    let canvas = rasterize(&two_by_two(), 3, 0).unwrap();
    assert_eq!(0, canvas.pixel_size);
    assert!(canvas.data.is_empty());
}

#[test]
fn an_empty_matrix_is_all_border() {
    let matrix = Matrix::new(0, vec![]).unwrap();
    let canvas = rasterize(&matrix, 1, 2).unwrap();
    assert_eq!(4, canvas.pixel_size);
    assert_eq!(vec![255u8; 48], canvas.data);
    let none = rasterize(&matrix, 0, 9).unwrap();
    assert_eq!(0, none.pixel_size);
    assert!(none.data.is_empty());
}
