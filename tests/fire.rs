use fire_sim::appearance::{
    bin_color, color_bin_index, glyph_and_color, glyph_bin_index, glyph_candidates, CellColor,
    COLOR_BINS, GLYPH_BINS,
};
use fire_sim::driver::{after_poll, is_quit, poll_timeout, Input, LoopAction};
use fire_sim::engine::{
    CellDraw, TickDraws, DECAY_HIGH, DECAY_LOW, FLUCTUATION_HIGH, FLUCTUATION_LOW, FRESH_LOW,
    SOURCE_DECAY_HIGH, SOURCE_DECAY_LOW,
};
use fire_sim::grid::HeatGrid;
use fire_sim::ignition::{ignites, SPARK_RANGE};
use fire_sim::rules::{interior_heat, source_heat};

fn calm(width: usize, height: usize) -> TickDraws {
    let cell = CellDraw { decay: 15, fluctuation: 12, raise: false, spark: SPARK_RANGE - 1, fresh: 200 };
    TickDraws { rows: vec![vec![cell; width]; height] }
}

fn all_cells(g: &HeatGrid) -> Vec<u8> {
    let mut out = Vec::new();
    for y in 0..g.height() {
        for x in 0..g.width() {
            out.push(g.get(x, y));
        }
    }
    out
}

fn hot_grid(width: u16, height: u16) -> HeatGrid {
    let mut g = HeatGrid::new(width, height);
    while all_cells(&g).iter().all(|&v| v == 0) {
        g.update(SOURCE_DECAY_LOW, SOURCE_DECAY_HIGH);
    }
    g
}

#[test]
fn new_grid_is_cold() {
    let g = HeatGrid::new(7, 4);
    assert_eq!(g.width(), 7);
    assert_eq!(g.height(), 4);
    assert!(all_cells(&g).iter().all(|&v| v == 0));
}

#[test]
fn reset_to_new_size_zeroes() {
    let mut g = hot_grid(6, 4);
    g.reset(6, 5);
    assert_eq!((g.width(), g.height()), (6, 5));
    assert_eq!(all_cells(&g).len(), 30);
    assert!(all_cells(&g).iter().all(|&v| v == 0));
    let mut h = hot_grid(6, 4);
    h.reset(3, 4);
    assert_eq!((h.width(), h.height()), (3, 4));
    assert!(all_cells(&h).iter().all(|&v| v == 0));
}

#[test]
fn reset_to_same_size_keeps_heat() {
    let mut g = hot_grid(6, 4);
    let before = all_cells(&g);
    g.reset(6, 4);
    assert_eq!(all_cells(&g), before);
}

#[test]
fn interior_rule_values() {
    assert_eq!(interior_heat(200, 90, Some(80), Some(16), 15, 12, true), 139);
    assert_eq!(interior_heat(200, 90, Some(80), Some(16), 15, 12, false), 115);
    assert_eq!(interior_heat(200, 90, None, None, 15, 12, false), 103);
    assert_eq!(interior_heat(255, 255, Some(255), Some(255), 15, 15, true), 255);
    assert_eq!(interior_heat(255, 255, Some(255), Some(255), 15, 15, false), 225);
    assert_eq!(interior_heat(0, 0, Some(0), Some(0), 18, 12, true), 12);
    assert_eq!(interior_heat(0, 0, Some(0), Some(0), 18, 12, false), 0);
    assert_eq!(interior_heat(20, 0, None, Some(0), 15, 13, false), 0);
}

#[test]
fn source_rule_values() {
    assert_eq!(source_heat(3, true, 231, 5), 231);
    assert_eq!(source_heat(3, false, 231, 5), 0);
    assert_eq!(source_heat(100, false, 231, 7), 93);
}

#[test]
fn ignition_at_centre_and_edges() {
    assert!(ignites(2, 4, SPARK_RANGE - 1));
    assert!(ignites(2, 4, 0));
    assert!(!ignites(0, 4, 0));
    assert!(!ignites(0, 20, 0));
    assert!(ignites(2, 5, 0));
    assert!(!ignites(2, 5, SPARK_RANGE - 1));
    assert!(ignites(1, 4, SPARK_RANGE / 2));
    assert!(!ignites(1, 4, SPARK_RANGE - 1));
}

#[test]
fn ignition_chance_falls_away_from_centre() {
    let width: u16 = 20;
    let count = |x: u16| (0..SPARK_RANGE).step_by(256).filter(|&s| ignites(x, width, s)).count();
    let mut previous = count(10);
    assert_eq!(previous, (SPARK_RANGE / 256) as usize);
    for x in (0..10).rev() {
        let c = count(x);
        assert!(c < previous, "column {} ignites {} times, nearer {}", x, c, previous);
        if x > 0 {
            assert_eq!(c, count(20 - x));
        }
        previous = c;
    }
    assert_eq!(count(0), 0);
}

#[test]
fn ignition_chance_follows_fifth_root() {
    let width: u16 = 10;
    for x in 0..width {
        let samples = (SPARK_RANGE / 64) as usize;
        let hits = (0..SPARK_RANGE).step_by(64).filter(|&s| ignites(x, width, s)).count();
        let bias = 1.0 - ((x as f64) - 5.0).abs() / 5.0;
        let expected = bias.powf(0.2);
        let got = hits as f64 / samples as f64;
        assert!((got - expected).abs() < 0.001, "x={} got {} expected {}", x, got, expected);
    }
}

#[test]
fn quantization_values() {
    assert_eq!(GLYPH_BINS, 12);
    assert_eq!(COLOR_BINS, 11);
    assert_eq!(glyph_bin_index(0), 0);
    assert_eq!(glyph_bin_index(128), 5);
    assert_eq!(glyph_bin_index(254), 10);
    assert_eq!(glyph_bin_index(255), 11);
    assert_eq!(color_bin_index(50), 1);
    assert_eq!(color_bin_index(51), 2);
    assert_eq!(color_bin_index(255), 10);
}

#[test]
fn quantization_is_monotonic() {
    for a in 0..=255u8 {
        for b in a..=255u8 {
            assert!(glyph_bin_index(a) <= glyph_bin_index(b));
            assert!(color_bin_index(a) <= color_bin_index(b));
        }
    }
}

#[test]
fn appearance_tables() {
    assert_eq!(glyph_candidates(0), vec![' ']);
    assert_eq!(glyph_candidates(6), vec!['[', ']', '\\', '/']);
    assert_eq!(glyph_candidates(11), vec!['#', '$', '@', '&']);
    assert_eq!(bin_color(0), CellColor::Black);
    assert_eq!(bin_color(6), CellColor::Yellow);
    assert_eq!(bin_color(8), CellColor::White);
    assert_eq!(bin_color(10), CellColor::Rgb(255, 255, 250));
    assert_eq!(glyph_and_color(0, 0), (' ', CellColor::Black));
    assert_eq!(glyph_and_color(255, 2), ('@', CellColor::Rgb(255, 255, 250)));
    assert_eq!(glyph_and_color(128, 1), (')', CellColor::Rgb(255, 200, 100)));
}

#[test]
fn cold_grid_renders_blank() {
    let g = HeatGrid::new(4, 3);
    let frame = g.render();
    assert_eq!(frame.len(), 3);
    for row in &frame {
        assert_eq!(row.len(), 4);
        assert!(row.iter().all(|&c| c == (' ', CellColor::Black)));
    }
}

#[test]
fn hot_grid_renders_its_bins() {
    let g = hot_grid(8, 5);
    let frame = g.render();
    for y in 0..5u16 {
        for x in 0..8u16 {
            let heat = g.get(x, y);
            let (glyph, color) = frame[y as usize][x as usize];
            assert!(glyph_candidates(glyph_bin_index(heat)).contains(&glyph));
            assert_eq!(color, bin_color(color_bin_index(heat)));
        }
    }
}

#[test]
fn calm_tick_from_cold_stays_cold() {
    let g = HeatGrid::new(5, 3);
    let next = g.next_tick(&calm(5, 3));
    assert!(all_cells(&next).iter().all(|&v| v == 0));
}

#[test]
fn single_seed_spreads_one_cell() {
    let mut draws = calm(5, 3);
    draws.rows[2][2].spark = 0;
    // One tick from cold with a single igniting source cell leaves only (2, 2) hot.
    let g = HeatGrid::new(5, 3).next_tick(&draws);
    assert_eq!(all_cells(&g), vec![0, 0, 0, 0, 0, 0, 0, 0, 0, 0, 0, 0, 200, 0, 0]);
    let next = g.next_tick(&calm(5, 3));
    // (2, 1) gets 100 - 27; (1, 2) and (3, 2) are source cells, cold without ignition;
    // (2, 2) decays by 15.
    assert_eq!(all_cells(&next), vec![0, 0, 0, 0, 0, 0, 0, 73, 0, 0, 0, 0, 185, 0, 0]);
}

#[test]
fn rising_draws_heat_cold_cells() {
    let mut draws = calm(3, 2);
    draws.rows[0][1].raise = true;
    let next = HeatGrid::new(3, 2).next_tick(&draws);
    assert_eq!(all_cells(&next), vec![0, 12, 0, 0, 0, 0]);
}

#[test]
fn scenario_small_grid_one_update() {
    let mut g = HeatGrid::new(5, 3);
    g.update(SOURCE_DECAY_LOW, SOURCE_DECAY_HIGH);
    assert_eq!((g.width(), g.height()), (5, 3));
    for y in 0..2u16 {
        for x in 0..5u16 {
            let v = g.get(x, y);
            assert!(v == 0 || (FLUCTUATION_LOW..=FLUCTUATION_HIGH).contains(&v));
        }
    }
    for x in 0..5u16 {
        let v = g.get(x, 2);
        assert!(v == 0 || v >= FRESH_LOW);
    }
    assert_eq!(g.get(0, 2), 0);
}

#[test]
fn scenario_heat_attenuates_with_height() {
    let mut g = HeatGrid::new(20, 10);
    for _ in 0..1000 {
        g.update(SOURCE_DECAY_LOW, SOURCE_DECAY_HIGH);
    }
    let avg = |y: u16| (0..20u16).map(|x| g.get(x, y) as u32).sum::<u32>() as f64 / 20.0;
    assert!(avg(0) < avg(9), "top {} bottom {}", avg(0), avg(9));
}

#[test]
fn random_draws_stay_in_range() {
    let draws = TickDraws::random(6, 4, SOURCE_DECAY_LOW, SOURCE_DECAY_HIGH);
    let mut raised = 0;
    let mut lowered = 0;
    let mut decays = std::collections::BTreeSet::new();
    for _ in 0..50 {
        let d = TickDraws::random(6, 4, SOURCE_DECAY_LOW, SOURCE_DECAY_HIGH);
        for y in 0..3 {
            for x in 0..6 {
                let c = d.at(x, y);
                if c.raise { raised += 1 } else { lowered += 1 }
                decays.insert(c.decay);
            }
        }
    }
    assert!(raised > 0 && lowered > 0);
    assert_eq!(decays.len(), 4);
    assert_eq!(draws.rows.len(), 4);
    for y in 0..4usize {
        assert_eq!(draws.rows[y].len(), 6);
        for x in 0..6usize {
            let c = draws.at(x, y);
            if y == 3 {
                assert!(c.spark < SPARK_RANGE);
                assert!(c.fresh >= FRESH_LOW);
                assert!((SOURCE_DECAY_LOW..=SOURCE_DECAY_HIGH).contains(&c.decay));
            } else {
                assert!((DECAY_LOW..=DECAY_HIGH).contains(&c.decay));
                assert!((FLUCTUATION_LOW..=FLUCTUATION_HIGH).contains(&c.fluctuation));
            }
        }
    }
}

#[test]
fn empty_grid_updates_and_renders() {
    let mut g = HeatGrid::new(0, 0);
    g.update(SOURCE_DECAY_LOW, SOURCE_DECAY_HIGH);
    assert_eq!(g.render().len(), 0);
    let mut h = HeatGrid::new(3, 1);
    h.update(SOURCE_DECAY_LOW, SOURCE_DECAY_HIGH);
    assert_eq!(h.get(0, 0), 0);
}

#[test]
fn quit_keys() {
    assert!(is_quit(&Input::Key { code: 'q', press: true, control_only: false }));
    assert!(is_quit(&Input::Key { code: 'c', press: true, control_only: true }));
    assert!(!is_quit(&Input::Key { code: 'c', press: true, control_only: false }));
    assert!(!is_quit(&Input::Key { code: 'q', press: false, control_only: false }));
    assert!(!is_quit(&Input::Resize { width: 10, height: 5 }));
    assert!(!is_quit(&Input::Other));
}

#[test]
fn loop_decisions() {
    assert_eq!(poll_timeout(60, 15), 45);
    assert_eq!(poll_timeout(60, 75), 0);
    let q = Some(Input::Key { code: 'q', press: true, control_only: false });
    assert_eq!(after_poll(q, 60, 100), LoopAction::Quit);
    assert_eq!(after_poll(None, 60, 60), LoopAction::Update);
    assert_eq!(after_poll(Some(Input::Other), 60, 59), LoopAction::Continue);
    assert_eq!(after_poll(Some(Input::Resize { width: 3, height: 4 }), 60, 61), LoopAction::Update);
}
