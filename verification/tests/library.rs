use std::collections::HashSet;
use solar_flythrough::decimal::{push_decimal, push_signed, push_zero_padded, decimal_len};
use solar_flythrough::frames::{
    after_save, done_message, encoder_arguments, encoder_outcome, frame_file_name, frame_step,
    skip_message, FrameStep, DURATION_SECS, FPS, HEIGHT, TOTAL_FRAMES, WIDTH,
};
use solar_flythrough::framebuf::{flatten_rows, scanline_order};
use solar_flythrough::ppm::{conversion_outcome, ppm_header, ppm_pixel};
use solar_flythrough::shading::{
    body_surfaces, is_sun_coloured, shade_by_colours, still_body_colours, Material, Shading,
    Surface,
};

fn dec(n: u64) -> String {
    let mut s = String::new();
    push_decimal(&mut s, n);
    s
}

#[test]
fn decimal_spellings() {
    assert_eq!(dec(0), "0");
    assert_eq!(dec(9), "9");
    assert_eq!(dec(10), "10");
    assert_eq!(dec(300), "300");
    assert_eq!(dec(u64::MAX), "18446744073709551615");
    let mut s = String::from("x=");
    push_decimal(&mut s, 42);
    assert_eq!(s, "x=42");
}

#[test]
fn decimal_lengths() {
    assert_eq!(decimal_len(0), 1);
    assert_eq!(decimal_len(9), 1);
    assert_eq!(decimal_len(10), 2);
    assert_eq!(decimal_len(99999), 5);
    assert_eq!(decimal_len(u64::MAX), 20);
}

#[test]
fn zero_padding_matches_format() {
    for n in [0u64, 7, 42, 999, 1000, 9999, 10000, 123456] {
        let mut s = String::new();
        push_zero_padded(&mut s, n, 4);
        assert_eq!(s, format!("{:04}", n));
    }
    let mut s = String::new();
    push_zero_padded(&mut s, 5, 0);
    assert_eq!(s, "5");
}

#[test]
fn signed_spellings() {
    for v in [0i64, 1, -1, 255, -255, i64::MAX, i64::MIN] {
        let mut s = String::new();
        push_signed(&mut s, v);
        assert_eq!(s, format!("{}", v));
    }
}

#[test]
fn render_settings() {
    assert_eq!(WIDTH, 1280);
    assert_eq!(HEIGHT, 720);
    assert_eq!(FPS, 30);
    assert_eq!(DURATION_SECS, 10);
    assert_eq!(TOTAL_FRAMES, 300);
}

#[test]
fn frame_file_names() {
    assert_eq!(frame_file_name(0), "frames/frame_0000.png");
    assert_eq!(frame_file_name(7), "frames/frame_0007.png");
    assert_eq!(frame_file_name(299), "frames/frame_0299.png");
    assert_eq!(frame_file_name(9999), "frames/frame_9999.png");
    assert_eq!(frame_file_name(12345), "frames/frame_12345.png");
}

#[test]
fn frame_file_names_are_distinct() {
    let mut names: Vec<String> = (0..TOTAL_FRAMES).map(frame_file_name).collect();
    names.sort();
    names.dedup();
    assert_eq!(names.len(), TOTAL_FRAMES as usize);
    assert_ne!(frame_file_name(10), frame_file_name(100));
    assert_ne!(frame_file_name(1), frame_file_name(10000));
}

#[test]
fn frame_names_fit_encoder_pattern() {
    let args = encoder_arguments();
    let pattern = &args[4];
    for frame in 0..TOTAL_FRAMES {
        let expected = pattern.replace("%04d", &format!("{:04}", frame));
        assert_eq!(frame_file_name(frame), expected);
    }
}

#[test]
fn encoder_argument_list() {
    let args = encoder_arguments();
    let expected = vec![
        "-y",
        "-framerate",
        "30",
        "-i",
        "frames/frame_%04d.png",
        "-c:v",
        "libx264",
        "-pix_fmt",
        "yuv420p",
        "-crf",
        "18",
        "out.mp4",
    ];
    assert_eq!(args, expected);
}

#[test]
fn progress_lines() {
    assert_eq!(skip_message(5), "frame 5 already exists, skipping");
    assert_eq!(done_message(0), "frame 1/300 done");
    assert_eq!(done_message(299), "frame 300/300 done");
}

#[test]
fn flatten_two_by_two() {
    let rows = vec![
        vec![[1u8, 2, 3], [4, 5, 6]],
        vec![[7u8, 8, 9], [10, 11, 12]],
    ];
    assert_eq!(flatten_rows(&rows), vec![1u8, 2, 3, 4, 5, 6, 7, 8, 9, 10, 11, 12]);
}

#[test]
fn flatten_edge_cases() {
    let empty: Vec<Vec<[u8; 3]>> = Vec::new();
    assert!(flatten_rows(&empty).is_empty());
    let ragged = vec![vec![[1u8, 1, 1]], vec![], vec![[2u8, 2, 2], [3, 3, 3]]];
    assert_eq!(flatten_rows(&ragged), vec![1u8, 1, 1, 2, 2, 2, 3, 3, 3]);
}

#[test]
fn flatten_full_frame_layout() {
    let (w, h) = (5usize, 4usize);
    let rows: Vec<Vec<[u8; 3]>> = (0..h)
        .map(|r| (0..w).map(|i| [r as u8, i as u8, (r * w + i) as u8]).collect())
        .collect();
    let buf = flatten_rows(&rows);
    assert_eq!(buf.len(), 3 * w * h);
    for r in 0..h {
        for i in 0..w {
            for k in 0..3 {
                assert_eq!(buf[3 * (w * r + i) + k], rows[r][i][k]);
            }
        }
    }
}

#[test]
fn scanlines_top_down() {
    assert_eq!(scanline_order(4), vec![3, 2, 1, 0]);
    assert!(scanline_order(0).is_empty());
    assert_eq!(scanline_order(1), vec![0]);
    let order = scanline_order(HEIGHT);
    assert_eq!(order.len(), HEIGHT);
    assert_eq!(order[0], HEIGHT - 1);
    assert_eq!(order[HEIGHT - 1], 0);
}

#[test]
fn scanline_lands_in_flipped_row() {
    let (w, h) = (3usize, 4usize);
    let order = scanline_order(h);
    // Each rendered row records which scanline it came from.
    let rows: Vec<Vec<[u8; 3]>> =
        order.iter().map(|&j| (0..w).map(|i| [j as u8, i as u8, 0]).collect()).collect();
    let buf = flatten_rows(&rows);
    for j in 0..h {
        for i in 0..w {
            let off = 3 * (w * (h - 1 - j) + i);
            assert_eq!(buf[off], j as u8);
            assert_eq!(buf[off + 1], i as u8);
        }
    }
}

#[test]
fn shading_by_material() {
    let s = |m: Material, c: Option<usize>| Surface { material: m, red: c, green: c, blue: c };
    assert_eq!(s(Material::Sun, Some(255)).shading(), Shading::SunLimb);
    assert_eq!(s(Material::Sun, None).shading(), Shading::SunLimb);
    assert_eq!(s(Material::Earth, Some(50)).shading(), Shading::EarthTexture);
    assert_eq!(s(Material::Jupiter, None).shading(), Shading::JupiterTexture);
    let mars = Surface { material: Material::Solid, red: Some(188), green: Some(74), blue: Some(40) };
    assert_eq!(mars.shading(), Shading::Flat(188, 74, 40));
}

#[test]
fn sun_recognised_by_colours() {
    assert!(is_sun_coloured(Some(255), Some(220), Some(50)));
    assert!(!is_sun_coloured(Some(255), Some(210), Some(120)));
    assert!(!is_sun_coloured(None, Some(220), Some(50)));
    assert_eq!(shade_by_colours(Some(255), Some(220), Some(50)), Shading::SunLimb);
    assert_eq!(shade_by_colours(Some(50), Some(120), Some(200)), Shading::Flat(50, 120, 200));
}

#[test]
fn sun_shading_agrees_between_renderers() {
    let sun = Surface { material: Material::Sun, red: Some(255), green: Some(220), blue: Some(50) };
    assert_eq!(sun.shading(), shade_by_colours(sun.red, sun.green, sun.blue));
}

#[test]
fn ppm_text() {
    assert_eq!(ppm_header(8000, 4500), "P3\n8000 4500\n255\n");
    assert_eq!(ppm_header(0, 1), "P3\n0 1\n255\n");
    assert_eq!(ppm_pixel(255, 15, 0), "255 15 0");
    assert_eq!(ppm_pixel(-3, 40, i32::MIN), "-3 40 -2147483648");
}

#[test]
fn fly_through_body_table() {
    let t = body_surfaces();
    assert_eq!(t.len(), 9);
    assert_eq!(t[0].material, Material::Sun);
    assert_eq!((t[0].red, t[0].green, t[0].blue), (Some(255), Some(220), Some(50)));
    let materials: Vec<Material> = t.iter().map(|s| s.material).collect();
    assert_eq!(
        materials,
        vec![
            Material::Sun,
            Material::Solid,
            Material::Solid,
            Material::Earth,
            Material::Solid,
            Material::Jupiter,
            Material::Solid,
            Material::Solid,
            Material::Solid,
        ]
    );
    assert_eq!(t[4].shading(), Shading::Flat(188, 74, 40));
    assert_eq!(t[8].shading(), Shading::Flat(50, 80, 200));
    assert_eq!(t[3].shading(), Shading::EarthTexture);
    assert_eq!(t[5].shading(), Shading::JupiterTexture);
}

#[test]
fn still_body_table() {
    let c = still_body_colours();
    assert_eq!(c.len(), 9);
    assert_eq!(c[0], (255, 220, 50));
    assert_eq!(c[2], (255, 210, 120));
    let suns = c.iter().filter(|&&(r, g, b)| is_sun_coloured(Some(r), Some(g), Some(b))).count();
    assert_eq!(suns, 1);
    let t = body_surfaces();
    for i in 0..9 {
        assert_eq!((t[i].red, t[i].green, t[i].blue), (Some(c[i].0), Some(c[i].1), Some(c[i].2)));
    }
}

#[test]
fn existing_frame_is_skipped() {
    match frame_step(12, true) {
        FrameStep::Skip { line } => assert_eq!(line, "frame 12 already exists, skipping"),
        FrameStep::Render { .. } => panic!("an existing frame must be skipped"),
    }
}

#[test]
fn missing_frame_is_rendered() {
    match frame_step(12, false) {
        FrameStep::Render { path } => assert_eq!(path, "frames/frame_0012.png"),
        FrameStep::Skip { .. } => panic!("a missing frame must be rendered"),
    }
}

#[test]
fn rerun_skips_every_written_frame() {
    let mut files: HashSet<String> = HashSet::new();
    files.insert(frame_file_name(3));
    let mut rendered = 0;
    for frame in 0..TOTAL_FRAMES {
        let exists = files.contains(&frame_file_name(frame));
        if let FrameStep::Render { path } = frame_step(frame, exists) {
            files.insert(path);
            rendered += 1;
        }
    }
    assert_eq!(rendered, TOTAL_FRAMES - 1);
    let before = files.clone();
    for frame in 0..TOTAL_FRAMES {
        let exists = files.contains(&frame_file_name(frame));
        assert!(matches!(frame_step(frame, exists), FrameStep::Skip { .. }));
    }
    assert_eq!(files, before);
}

#[test]
fn save_outcomes() {
    assert_eq!(after_save(0, true), Ok("frame 1/300 done".to_string()));
    assert_eq!(after_save(41, false), Err("PNG save failed".to_string()));
}

#[test]
fn encoder_outcomes() {
    assert_eq!(encoder_outcome(true), Ok("wrote out.mp4".to_string()));
    assert_eq!(encoder_outcome(false), Err("ffmpeg failed".to_string()));
}

#[test]
fn conversion_outcomes() {
    assert_eq!(conversion_outcome(true, "ignored"), "rendered.png created");
    assert_eq!(conversion_outcome(false, "no magick"), "Conversion failed: no magick");
    assert_eq!(conversion_outcome(false, ""), "Conversion failed: ");
}
