use chip8emu::error::EmuError;
use chip8emu::mem::SpritePos;
use chip8emu::mem::SpriteSize;
use chip8emu::mem::VideoRam;

#[test]
fn test_collision_detection() {
    let mut v = VideoRam::new();

    let (x, y) = (10, 12);
    let (width, height) = (10, 10);
    assert!(!v.draw(SpritePos { x, y }, SpriteSize { width, height }).unwrap());
    assert!(v.draw(SpritePos { x, y }, SpriteSize { width, height }).unwrap());

    let mut v = VideoRam::new();

    let (x, y) = (10, 10);
    let (width, height) = (50, 10);

    assert!(!v.draw(SpritePos { x, y }, SpriteSize { width, height }).unwrap());

    let (x, y) = (9, 9);
    let (width, height) = (10, 1);

    assert!(!v.draw(SpritePos { x, y }, SpriteSize { width, height }).unwrap());
}

#[test]
fn test_xor() {
    let mut v = VideoRam::new();

    let (x, y) = (10, 10);
    let (width, height) = (10, 10);

    v.draw(SpritePos { x, y }, SpriteSize { width, height }).unwrap();
    let matrix = v.get_matrx();

    assert!(matrix[10][10]);

    v.draw(SpritePos { x, y }, SpriteSize { width, height }).unwrap();
    let matrix = v.get_matrx();

    assert!(!matrix[10][10]);
}

#[test]
#[should_panic]
fn test_out_of_bounds_panic() {
    let mut v = VideoRam::new();

    let (x, y) = (64, 32);
    let (width, height) = (1, 1);
    v.draw(SpritePos { x, y }, SpriteSize { width, height }).unwrap();
}

#[test]
fn test_plane_dimensions() {
    let v = VideoRam::new();
    let m = v.get_matrx();
    assert_eq!(m.len(), 64);
    for col in m {
        assert_eq!(col.len(), 32);
    }
}

#[test]
fn test_draw_scenario_redraw_erases() {
    let mut v = VideoRam::new();
    let pos = SpritePos { x: 10, y: 12 };
    let size = SpriteSize { width: 10, height: 10 };

    assert_eq!(v.draw(pos, size), Ok(false));

    let m = v.get_matrx();
    for x in 0..64 {
        for y in 0..32 {
            let inside = (10..20).contains(&x) && (12..22).contains(&y);
            assert_eq!(m[x][y], inside);
        }
    }

    assert_eq!(v.draw(pos, size), Ok(true));

    let m = v.get_matrx();
    for x in 0..64 {
        for y in 0..32 {
            assert!(!m[x][y]);
        }
    }
}

#[test]
fn test_draw_out_of_bounds_leaves_plane_untouched() {
    let mut v = VideoRam::new();
    v.draw(SpritePos { x: 0, y: 0 }, SpriteSize { width: 2, height: 2 }).unwrap();

    let r = v.draw(SpritePos { x: 60, y: 30 }, SpriteSize { width: 8, height: 8 });
    assert_eq!(r, Err(EmuError::DisplayBoundsExceeded));

    let m = v.get_matrx();
    for x in 0..64 {
        for y in 0..32 {
            let inside = x < 2 && y < 2;
            assert_eq!(m[x][y], inside);
        }
    }
}

#[test]
fn test_clear_turns_every_pixel_off() {
    let mut v = VideoRam::new();
    v.draw(SpritePos { x: 3, y: 5 }, SpriteSize { width: 7, height: 9 }).unwrap();
    v.clear();
    let m = v.get_matrx();
    for x in 0..64 {
        for y in 0..32 {
            assert!(!m[x][y]);
        }
    }
}

#[test]
fn test_draw_full_plane_edge() {
    let mut v = VideoRam::new();
    assert_eq!(v.draw(SpritePos { x: 0, y: 0 }, SpriteSize { width: 64, height: 32 }), Ok(false));
    let m = v.get_matrx();
    for x in 0..64 {
        for y in 0..32 {
            assert!(m[x][y]);
        }
    }
    assert_eq!(v.draw(SpritePos { x: 63, y: 31 }, SpriteSize { width: 1, height: 1 }), Ok(true));
    assert!(!v.get_matrx()[63][31]);
}

#[test]
fn test_draw_empty_sprite_reports_no_collision() {
    let mut v = VideoRam::new();
    v.draw(SpritePos { x: 0, y: 0 }, SpriteSize { width: 4, height: 4 }).unwrap();
    assert_eq!(v.draw(SpritePos { x: 0, y: 0 }, SpriteSize { width: 0, height: 4 }), Ok(false));
    assert_eq!(v.draw(SpritePos { x: 0, y: 0 }, SpriteSize { width: 4, height: 0 }), Ok(false));
    assert!(v.get_matrx()[0][0]);
}
