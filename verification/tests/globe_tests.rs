use velocity::globe::{
    clamp_int, draw_point, find_index, paint_frame, palette_char, palette_index, parse_texture,
    sample_texels, shade_pixel, texel_index, GlobeTextures, Pixel, TextureError, PALETTE,
};

const PI: f64 = std::f64::consts::PI;

fn normalize(v: [f64; 3]) -> [f64; 3] {
    let mag = (v[0] * v[0] + v[1] * v[1] + v[2] * v[2]).sqrt();
    if mag == 0.0 {
        return v;
    }
    [v[0] / mag, v[1] / mag, v[2] / mag]
}

fn dot(a: [f64; 3], b: [f64; 3]) -> f64 {
    a[0] * b[0] + a[1] * b[1] + a[2] * b[2]
}

/// Casts one ray per cell from a camera on the x axis at distance 2 and
/// shades the hits through the library, as the application does.
fn cast_frame(
    canvas: &mut Vec<Vec<char>>,
    textures: &GlobeTextures,
    angle_offset: f64,
    scale: f64,
    tilt_degrees: f64,
    lighting: bool,
    width: usize,
    height: usize,
) {
    let eye = [2.0, 0.0, 0.0];
    let matrix = [0.0, 1.0, 0.0, 0.0, 0.0, 0.0, -1.0, 0.0, 1.0, 0.0, 0.0, 0.0, 2.0, 0.0, 0.0, 1.0];
    let light = [0.0, 999999.0, 0.0];
    let radius = 1.0 * scale;
    let tilt = tilt_degrees.to_radians();
    let texture_width = textures.width();
    let texture_height = textures.height();
    let mut pixels: Vec<Pixel> = Vec::new();
    for yi in 0..height {
        for xi in 0..width {
            let sx = -((xi as f64 - width as f64 / 2.0) + 0.5) / (width as f64 / 2.0) * 1.2;
            let sy = ((yi as f64 - height as f64 / 2.0) + 0.5) / (height as f64 / 2.0);
            let v = [sx, sy, -1.0];
            let t = [
                v[0] * matrix[0] + v[1] * matrix[4] + v[2] * matrix[8] + matrix[12],
                v[0] * matrix[1] + v[1] * matrix[5] + v[2] * matrix[9] + matrix[13],
                v[0] * matrix[2] + v[1] * matrix[6] + v[2] * matrix[10] + matrix[14],
            ];
            let u = normalize([t[0] - eye[0], t[1] - eye[1], t[2] - eye[2]]);
            let discriminant = dot(u, eye) * dot(u, eye) - dot(eye, eye) + radius * radius;
            if discriminant < 0.0 {
                continue;
            }
            let distance = -discriminant.sqrt() - dot(u, eye);
            let inter =
                [eye[0] + distance * u[0], eye[1] + distance * u[1], eye[2] + distance * u[2]];
            let n = normalize(inter);
            let l = normalize([light[0] - inter[0], light[1] - inter[1], light[2] - inter[2]]);
            let luminance =
                if lighting { (5.0 * dot(n, l) + 0.5).max(0.0).min(1.0) } else { 1.0 };
            let (s, c) = (-tilt).sin_cos();
            let rotated =
                [inter[0], c * inter[1] - s * inter[2], s * inter[1] + c * inter[2]];
            let phi = -rotated[2] / radius / 2.0 + 0.5;
            let mut theta = -rotated[1].atan2(rotated[0]) / PI + 0.5 + angle_offset / 2.0 / PI;
            theta -= theta.floor();
            let raw_x = (theta * (texture_width - 1) as f64) as i32;
            let raw_y = (phi * (texture_height - 1) as f64) as i32;
            if let Some((day, night)) = textures.lookup(raw_x, raw_y) {
                let index = if lighting {
                    ((1.0 - luminance) * night as f64 + luminance * day as f64).round() as usize
                } else {
                    day
                };
                pixels.push(Pixel { x: xi, y: yi, index });
            }
        }
    }
    paint_frame(canvas, &pixels, width, height);
}

fn blank(width: usize, height: usize, fill: char) -> Vec<Vec<char>> {
    vec![vec![fill; width]; height]
}

fn uniform(c: char, width: usize, height: usize) -> String {
    let row: String = std::iter::repeat(c).take(width).collect();
    vec![row; height].join("\n")
}

#[test]
fn all_bright_day_texture_fills_the_disk_and_leaves_the_corners() {
    let textures = GlobeTextures::from_text(&uniform('@', 4, 4), &uniform(' ', 4, 4)).unwrap();
    let mut canvas = blank(10, 10, '#');
    cast_frame(&mut canvas, &textures, 0.0, 1.0, 23.5, false, 10, 10);
    for y in 4..6 {
        for x in 4..6 {
            assert_eq!(canvas[y][x], '@');
        }
    }
    assert_eq!(canvas[0][0], '#');
    assert_eq!(canvas[0][9], '#');
    assert_eq!(canvas[9][0], '#');
    assert_eq!(canvas[9][9], '#');
    for row in &canvas {
        for &cell in row {
            assert!(cell == '@' || cell == '#');
        }
    }
}

#[test]
fn without_lighting_every_pixel_is_a_day_texel() {
    let textures = GlobeTextures::from_text(&uniform('O', 6, 3), &uniform('.', 6, 3)).unwrap();
    let mut canvas = blank(16, 8, '#');
    cast_frame(&mut canvas, &textures, 1.0, 1.0, 23.5, false, 16, 8);
    let mut hits = 0;
    for row in &canvas {
        for &cell in row {
            assert!(cell == 'O' || cell == '#');
            if cell == 'O' {
                hits += 1;
            }
        }
    }
    assert!(hits > 0);
    let mut lit = blank(16, 8, '#');
    cast_frame(&mut lit, &textures, 1.0, 1.0, 23.5, true, 16, 8);
    assert!(lit.iter().flatten().any(|&c| c != 'O' && c != '#'));
}

#[test]
fn a_full_turn_gives_the_same_frame() {
    let day = "ab .:;',wiogOLXHWYV@\n@VYWHXLOgoiw,';:. ..\n.:;'.:;'.:;'.:;'.:;'";
    let night = uniform(' ', 20, 3);
    let textures = GlobeTextures::from_text(day, &night).unwrap();
    let mut first = blank(24, 12, ' ');
    let mut second = blank(24, 12, ' ');
    cast_frame(&mut first, &textures, 0.0, 1.0, 0.0, false, 24, 12);
    cast_frame(&mut second, &textures, 2.0 * PI, 1.0, 0.0, false, 24, 12);
    assert_eq!(first, second);
}

#[test]
fn a_single_texel_colours_every_hit() {
    let textures = GlobeTextures::from_text("X", "X").unwrap();
    assert_eq!(textures.width(), 1);
    assert_eq!(textures.height(), 1);
    let mut canvas = blank(12, 12, '#');
    cast_frame(&mut canvas, &textures, 2.5, 1.0, 23.5, true, 12, 12);
    assert!(canvas.iter().flatten().all(|&c| c == 'X' || c == '#'));
    assert_eq!(canvas[6][6], 'X');
    for raw in [i32::MIN, -1, 0, 1, 7, i32::MAX] {
        assert_eq!(textures.lookup(raw, raw), Some((12, 12)));
    }
}

#[test]
fn drawing_twice_gives_the_same_frame() {
    let textures = GlobeTextures::from_text(&uniform('W', 5, 5), &uniform(':', 5, 5)).unwrap();
    let mut once = blank(14, 9, ' ');
    cast_frame(&mut once, &textures, 0.7, 1.0, 23.5, true, 14, 9);
    let mut twice = once.clone();
    cast_frame(&mut twice, &textures, 0.7, 1.0, 23.5, true, 14, 9);
    assert_eq!(once, twice);
    let mut fresh = blank(14, 9, ' ');
    cast_frame(&mut fresh, &textures, 0.7, 1.0, 23.5, true, 14, 9);
    assert_eq!(once, fresh);
}

#[test]
fn scale_zero_draws_nothing() {
    let textures = GlobeTextures::from_text("@", "@").unwrap();
    let mut canvas = blank(8, 8, '#');
    cast_frame(&mut canvas, &textures, 0.0, 0.0, 23.5, true, 8, 8);
    assert!(canvas.iter().flatten().all(|&c| c == '#'));
}

#[test]
fn clamp_int_limits_to_the_range() {
    assert_eq!(clamp_int(5, 0, 10), 5);
    assert_eq!(clamp_int(-3, 0, 10), 0);
    assert_eq!(clamp_int(11, 0, 10), 10);
    assert_eq!(clamp_int(0, 0, 0), 0);
    assert_eq!(clamp_int(5, 10, 0), 0);
    assert_eq!(clamp_int(i32::MIN, -1, 1), -1);
}

#[test]
fn find_index_gives_the_first_place_or_minus_one() {
    assert_eq!(find_index(' ', PALETTE), 0);
    assert_eq!(find_index('.', PALETTE), 1);
    assert_eq!(find_index('@', PALETTE), 17);
    assert_eq!(find_index('x', PALETTE), -1);
    assert_eq!(find_index('a', "banana"), 1);
    assert_eq!(find_index('a', ""), -1);
    assert_eq!(find_index('é', "café"), 3);
    for (i, c) in PALETTE.chars().enumerate() {
        assert_eq!(palette_index(c), i as i32);
        assert_eq!(palette_char(i), c);
    }
    assert_eq!(palette_index('?'), -1);
}

#[test]
fn palette_char_limits_the_index() {
    assert_eq!(palette_char(0), ' ');
    assert_eq!(palette_char(17), '@');
    assert_eq!(palette_char(18), '@');
    assert_eq!(palette_char(usize::MAX), '@');
}

#[test]
fn texel_index_never_leaves_the_texture() {
    assert_eq!(texel_index(-5, 4), 0);
    assert_eq!(texel_index(0, 4), 0);
    assert_eq!(texel_index(2, 4), 2);
    assert_eq!(texel_index(3, 4), 3);
    assert_eq!(texel_index(4, 4), 3);
    assert_eq!(texel_index(i32::MAX, 4), 3);
    assert_eq!(texel_index(9, 1), 0);
}

#[test]
fn draw_point_writes_inside_frame_and_canvas_only() {
    let mut canvas = blank(3, 2, '.');
    draw_point(&mut canvas, 1, 1, 'x', 3, 2);
    assert_eq!(canvas, vec![vec!['.', '.', '.'], vec!['.', 'x', '.']]);
    draw_point(&mut canvas, 2, 0, 'y', 2, 2);
    draw_point(&mut canvas, 0, 1, 'z', 3, 1);
    draw_point(&mut canvas, 3, 0, 'w', 9, 9);
    draw_point(&mut canvas, 0, 2, 'w', 9, 9);
    assert_eq!(canvas, vec![vec!['.', '.', '.'], vec!['.', 'x', '.']]);
    let mut ragged = vec![vec!['.'], vec![]];
    draw_point(&mut ragged, 0, 1, 'q', 5, 5);
    assert_eq!(ragged, vec![vec!['.'], vec![]]);
    shade_pixel(&mut canvas, 0, 0, 10, 3, 2);
    assert_eq!(canvas[0][0], 'O');
}

#[test]
fn parse_texture_makes_one_row_per_line() {
    assert_eq!(parse_texture("ab\ncd"), vec![vec!['a', 'b'], vec!['c', 'd']]);
    assert_eq!(parse_texture("ab\r\nc\n"), vec![vec!['a', 'b'], vec!['c']]);
    assert_eq!(parse_texture("é█\n\nx"), vec![vec!['é', '█'], vec![], vec!['x']]);
    assert_eq!(parse_texture(""), Vec::<Vec<char>>::new());
    assert_eq!(parse_texture("a\r"), vec![vec!['a', '\r']]);
}

#[test]
fn textures_without_cells_are_refused() {
    assert!(matches!(GlobeTextures::from_text("", "@"), Err(TextureError::EmptyDay)));
    assert!(matches!(GlobeTextures::from_text("\n@", "@"), Err(TextureError::EmptyDay)));
    assert!(matches!(GlobeTextures::from_text("@", ""), Err(TextureError::EmptyNight)));
    assert!(matches!(GlobeTextures::from_text("@", "\n@"), Err(TextureError::EmptyNight)));
    assert!(matches!(GlobeTextures::from_text("", ""), Err(TextureError::EmptyDay)));
    let pair = GlobeTextures::new(vec![vec!['@', '.']], vec![vec![' ']]).unwrap();
    assert_eq!(pair.width(), 2);
    assert_eq!(pair.height(), 1);
    assert_eq!(pair.day(), &vec![vec!['@', '.']]);
    assert_eq!(pair.night(), &vec![vec![' ']]);
}

#[test]
fn sampling_skips_missing_cells_and_unknown_characters() {
    let day = vec![vec!['@', '?', 'w'], vec!['.']];
    let night = vec![vec![' ', ' '], vec!['#', ' ']];
    assert_eq!(sample_texels(&day, &night, 0, 0), Some((17, 0)));
    assert_eq!(sample_texels(&day, &night, 1, 0), None);
    assert_eq!(sample_texels(&day, &night, 2, 0), None);
    assert_eq!(sample_texels(&day, &night, 0, 1), None);
    assert_eq!(sample_texels(&day, &night, 1, 1), None);
    assert_eq!(sample_texels(&day, &night, 0, 2), None);
}

#[test]
fn painting_writes_pixels_in_order_and_inside_the_frame() {
    let mut canvas = blank(3, 2, '#');
    let pixels = vec![
        Pixel { x: 0, y: 0, index: 17 },
        Pixel { x: 1, y: 1, index: 1 },
        Pixel { x: 0, y: 0, index: 6 },
        Pixel { x: 2, y: 0, index: 99 },
        Pixel { x: 3, y: 0, index: 5 },
        Pixel { x: 0, y: 2, index: 5 },
    ];
    paint_frame(&mut canvas, &pixels, 3, 2);
    assert_eq!(canvas, vec![vec!['w', '#', '@'], vec!['#', '.', '#']]);
    let once = canvas.clone();
    paint_frame(&mut canvas, &pixels, 3, 2);
    assert_eq!(canvas, once);
    let mut narrow = blank(3, 2, '#');
    paint_frame(&mut narrow, &pixels, 1, 1);
    assert_eq!(narrow, vec![vec!['w', '#', '#'], vec!['#', '#', '#']]);
    paint_frame(&mut narrow, &Vec::new(), 3, 2);
    assert_eq!(narrow, vec![vec!['w', '#', '#'], vec!['#', '#', '#']]);
}
