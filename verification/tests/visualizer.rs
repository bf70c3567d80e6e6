use nts::visualizer::{braille_dot, identity_hash, seed_value, LiveVisualizer};

fn field(x: f32, y: f32, time: f32, parameters: [f32; 8]) -> f32 {
    let [phase, tempo, curve, density, orbit, contrast, texture, drift] = parameters;
    let time = time * (0.38 + tempo * 0.72);
    let phase = phase * std::f32::consts::TAU;
    let bent_x =
        x + (y * (7.0 + density * 11.0) - time * (0.7 + drift)).sin() * (0.025 + curve * 0.08);

    let ribbon_a = ((bent_x * (4.0 + density * 8.0) + time + phase).sin() * (0.10 + curve * 0.16))
        + ((bent_x * (2.0 + orbit * 5.0) - time * 0.43).cos() * 0.07)
        + 0.34
        + drift * 0.20;
    let ribbon_b = ((bent_x * (6.0 + orbit * 7.0) - time * 0.68 + phase * 1.7).sin()
        * (0.08 + contrast * 0.13))
        + 0.65
        - drift * 0.17;
    let ribbons = (1.0 - (y - ribbon_a).abs() * (5.5 + contrast * 5.0))
        .max(1.0 - (y - ribbon_b).abs() * (6.0 + density * 5.0));

    let center_x = 0.5 + (time * 0.37 + phase).sin() * (0.015 + orbit * 0.055);
    let center_y = 0.5 + (time * 0.29 + phase).cos() * (0.015 + curve * 0.045);
    let dx = (x - center_x) * 1.65;
    let dy = y - center_y;
    let radius = (dx * dx + dy * dy).sqrt();
    let angle = dy.atan2(dx);
    let ring_radius = 0.18 + orbit * 0.19;
    let ring = 1.0
        - ((radius - ring_radius - 0.022 * (angle * (3.0 + density * 5.0) - time * 1.7).sin())
            .abs()
            * (10.0 + contrast * 8.0));
    let grain = ((x * (29.0 + texture * 31.0) + y * (13.0 + density * 19.0) + time * 2.0).sin()
        + 1.0)
        * (0.035 + texture * 0.10);
    let scanner_y =
        (time * (0.055 + drift * 0.065) + phase / std::f32::consts::TAU).rem_euclid(1.15) - 0.075;
    let scanner =
        (1.0 - (y - scanner_y).abs() * (18.0 + contrast * 18.0)).max(0.0) * (0.38 + texture * 0.30);
    let tracers = (1.0
        - ((x * (12.0 + density * 15.0) + y * (4.0 + curve * 6.0) - time * 1.4 + phase)
            .sin()
            .abs()
            * 9.0))
        .max(0.0)
        * 0.24;

    ribbons
        .max(ring * (0.35 + orbit * 0.55))
        .max(scanner)
        .max(tracers)
        + grain
}

fn dots(visualizer: &LiveVisualizer, width: u16, height: u16) -> Vec<bool> {
    let columns = usize::from(width) * 2;
    let rows = usize::from(height) * 4;
    let time = visualizer.started_at.elapsed().as_secs_f32();
    let parameters = visualizer.seeds.map(|seed| seed as f32 / u32::MAX as f32);
    (0..columns * rows)
        .map(|dot| {
            let x = (dot % columns) as f32 / columns as f32;
            let y = (dot / columns) as f32 / rows as f32;
            field(x, y, time, parameters) > 0.56
        })
        .collect()
}

fn picture(identity: &str, width: u16, height: u16) -> String {
    let visualizer = LiveVisualizer::new(identity);
    visualizer.braille(width, height, &dots(&visualizer, width, height))
}

#[test]
fn field_fills_the_requested_braille_grid() {
    let output = picture("NTS 1", 12, 3);
    assert_eq!(output.lines().count(), 3);
    assert!(output.lines().all(|line| line.chars().count() == 12));
}

#[test]
fn show_seeds_produce_distinct_fields() {
    let first = picture("NTS 1", 30, 6);
    let second = picture("NTS 2", 30, 6);
    assert_ne!(first, second);
}

#[test]
fn seeds_come_from_the_name_alone() {
    assert_eq!(identity_hash(""), 0x811c_9dc5);
    assert_eq!(identity_hash("a"), 0xe40c_292c);
    assert_eq!(identity_hash("NTS 1"), 0x4eec_b387);
    assert_eq!(seed_value(0x811c_9dc5, 0), 0x5db4_a501);
    assert_eq!(seed_value(0x811c_9dc5, 7), 0xe1fe_20b5);
    let mut visualizer = LiveVisualizer::new("NTS 1");
    assert_eq!(
        visualizer.seeds,
        [
            0x353c_f053,
            0xadf2_3e76,
            0x3ed2_1029,
            0xebf4_8555,
            0xc747_1642,
            0x17f9_0e2f,
            0x3327_1378,
            0xe072_9e21,
        ]
    );
    assert!(visualizer.started_at.elapsed().as_secs() < 20);
    assert!(visualizer.poll());
}

#[test]
fn a_cell_shows_its_dots() {
    let visualizer = LiveVisualizer::new("any");
    let cell = |lit: [bool; 8]| visualizer.braille(1, 1, &lit.to_vec());
    assert_eq!(cell([false; 8]), "⠀");
    assert_eq!(cell([true; 8]), "⣿");
    assert_eq!(cell([true, false, false, false, false, false, false, false]), "⠁");
    assert_eq!(cell([false, true, false, false, false, false, false, false]), "⠈");
    assert_eq!(cell([false, false, false, false, false, false, true, false]), "⡀");
    assert_eq!(cell([false, false, false, false, false, false, false, true]), "⢀");
    let mut lit = vec![false; 32];
    // The picture is four dots wide and eight high: its last dot is in the last cell.
    lit[31] = true;
    assert_eq!(visualizer.braille(2, 2, &lit), "⠀⠀\n⠀⢀");
}

#[test]
fn an_empty_grid_has_no_text() {
    let visualizer = LiveVisualizer::new("any");
    assert_eq!(visualizer.braille(0, 4, &Vec::new()), "");
    assert_eq!(visualizer.braille(4, 0, &Vec::new()), "");
}

#[test]
fn every_dot_has_its_bit() {
    let bits: Vec<u8> = (0..8).map(|i| braille_dot(i % 2, i / 2)).collect();
    assert_eq!(bits, vec![0x01, 0x08, 0x02, 0x10, 0x04, 0x20, 0x40, 0x80]);
    assert_eq!(braille_dot(2, 0), 0);
    assert_eq!(braille_dot(0, 4), 0);
}
