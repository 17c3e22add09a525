use softrender::bitmap::{Bitmap, Color};

#[test]
fn a_colour_keeps_its_channels() {
    let c = Color::new(1, 2, 3, 4);
    assert_eq!(c.rgba(), (1, 2, 3, 4));
    assert_eq!(c, Color::new(1, 2, 3, 4));
    assert_ne!(c, Color::new(4, 3, 2, 1));
}

#[test]
fn a_new_bitmap_is_transparent_black() {
    let bmp = Bitmap::new(3, 2);
    assert_eq!(bmp.width, 3);
    assert_eq!(bmp.height, 2);
    assert_eq!(bmp.rows.len(), 2);
    for row in bmp.rows.iter() {
        assert_eq!(row.len(), 3);
        for c in row.iter() {
            assert_eq!(c.rgba(), (0, 0, 0, 0));
        }
    }
    assert_eq!(bmp.to_bytes(), vec![0u8; 24]);
}

#[test]
fn an_empty_bitmap_has_no_bytes() {
    assert_eq!(Bitmap::new(0, 0).to_bytes(), Vec::<u8>::new());
    assert_eq!(Bitmap::new(5, 0).to_bytes(), Vec::<u8>::new());
    let no_columns = Bitmap::new(0, 5);
    assert_eq!(no_columns.rows.len(), 5);
    assert_eq!(no_columns.to_bytes(), Vec::<u8>::new());
}

#[test]
fn set_changes_one_pixel() {
    let mut bmp = Bitmap::new(3, 2);
    bmp.set(2, 1, Color::new(9, 8, 7, 6));
    assert_eq!(bmp.get(2, 1), Color::new(9, 8, 7, 6));
    for y in 0..2 {
        for x in 0..3 {
            if (x, y) != (2, 1) {
                assert_eq!(bmp.get(x, y), Color::new(0, 0, 0, 0));
            }
        }
    }
    assert_eq!(bmp.width, 3);
    assert_eq!(bmp.height, 2);
    assert_eq!(bmp.rows[1][2], Color::new(9, 8, 7, 6));
}

#[test]
fn bytes_run_row_by_row_from_the_top() {
    let mut bmp = Bitmap::new(2, 2);
    bmp.set(0, 0, Color::new(1, 2, 3, 4));
    bmp.set(1, 0, Color::new(5, 6, 7, 8));
    bmp.set(0, 1, Color::new(9, 10, 11, 12));
    bmp.set(1, 1, Color::new(13, 14, 15, 16));
    assert_eq!(bmp.to_bytes(), (1u8..=16).collect::<Vec<u8>>());
}

#[test]
fn bytes_follow_the_rows_as_they_are() {
    let bmp = Bitmap {
        width: 2,
        height: 2,
        rows: vec![vec![Color::new(1, 2, 3, 4)], vec![], vec![Color::new(5, 6, 7, 8)]],
    };
    assert_eq!(bmp.to_bytes(), vec![1, 2, 3, 4, 5, 6, 7, 8]);
}
