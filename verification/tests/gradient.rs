use sky_gradient::fixed::{Fixed, HALF, ONE};
use sky_gradient::gradient::{unit_color, Gradient, ScalarGradient};
use sky_gradient::stops::{is_sorted, partition_point, sort_stops};

const RED: [u8; 4] = [255, 0, 0, 255];
const GREEN: [u8; 4] = [0, 255, 0, 255];
const BLUE: [u8; 4] = [0, 0, 255, 255];
const GREY: [u8; 4] = [100, 100, 100, 100];

fn three_stops() -> Gradient {
    Gradient::new(vec![(ONE, BLUE), (0, RED), (HALF, GREEN)])
}

#[test]
fn empty_gradient_is_opaque_black() {
    let g = Gradient::new(Vec::new());
    assert_eq!(g.sample_at(HALF), [0, 0, 0, ONE]);
    assert_eq!(g.sample_at(-5), [0, 0, 0, ONE]);
    let as_float: Vec<f32> = g.sample_at(HALF).iter().map(|c| *c as f32 / ONE as f32).collect();
    assert_eq!(as_float, vec![0.0, 0.0, 0.0, 1.0]);
}

#[test]
fn new_sorts_the_stops() {
    let g = three_stops();
    assert_eq!(g.stops, vec![(0, RED), (HALF, GREEN), (ONE, BLUE)]);
    assert!(g.is_sorted());
}

#[test]
fn stops_at_one_position_keep_their_order() {
    let g = Gradient::new(vec![(5, RED), (3, GREEN), (5, BLUE), (3, GREY), (5, GREEN)]);
    assert_eq!(g.stops, vec![(3, GREEN), (3, GREY), (5, RED), (5, BLUE), (5, GREEN)]);
}

#[test]
fn sort_restores_the_order_after_a_change_by_hand() {
    let mut g = three_stops();
    g.stops.push((ONE / 4, GREY));
    assert!(!g.is_sorted());
    g.sort();
    assert!(g.is_sorted());
    assert_eq!(g.stops, vec![(0, RED), (ONE / 4, GREY), (HALF, GREEN), (ONE, BLUE)]);
    let again = g.clone();
    g.sort();
    assert_eq!(g, again);
}

#[test]
fn sampling_at_a_stop_gives_its_colour() {
    let g = three_stops();
    assert_eq!(g.sample_at(0), unit_color(RED));
    assert_eq!(g.sample_at(HALF), unit_color(GREEN));
    assert_eq!(g.sample_at(ONE), unit_color(BLUE));
    assert_eq!(unit_color(GREEN), [0, ONE, 0, ONE]);
}

#[test]
fn sampling_at_a_shared_position_gives_the_first_stop() {
    let g = Gradient::new(vec![(0, RED), (HALF, GREEN), (HALF, BLUE), (ONE, GREY)]);
    assert_eq!(g.sample_at(HALF), unit_color(GREEN));
    // just past the shared position the later stop takes over
    let c = g.sample_at(HALF + 1);
    assert_eq!(c[1], 0);
    assert!(c[2] > ONE - 8);
}

#[test]
fn sampling_outside_the_stops_is_flat() {
    let g = Gradient::new(vec![(ONE / 4, RED), (3 * ONE / 4, BLUE)]);
    assert_eq!(g.sample_at(0), unit_color(RED));
    assert_eq!(g.sample_at(i64::MIN), unit_color(RED));
    assert_eq!(g.sample_at(ONE / 4 - 1), unit_color(RED));
    assert_eq!(g.sample_at(3 * ONE / 4 + 1), unit_color(BLUE));
    assert_eq!(g.sample_at(ONE), unit_color(BLUE));
    assert_eq!(g.sample_at(i64::MAX), unit_color(BLUE));
}

#[test]
fn sampling_between_stops_interpolates() {
    let g = three_stops();
    // a quarter: half way from red to green
    assert_eq!(g.sample_at(ONE / 4), [HALF, HALF, 0, ONE]);
    // three eighths: three quarters of the way
    assert_eq!(g.sample_at(3 * ONE / 8), [ONE / 4, 3 * ONE / 4, 0, ONE]);
    let d = Gradient::default();
    assert_eq!(d.stops, vec![(0, [0, 0, 0, 255]), (ONE, [255, 255, 255, 255])]);
    assert_eq!(d.sample_at(HALF), [HALF, HALF, HALF, ONE]);
    let c: Vec<f32> = d.sample_at(ONE / 4).iter().map(|c| *c as f32 / ONE as f32).collect();
    assert_eq!(c, vec![0.25, 0.25, 0.25, 1.0]);
}

#[test]
fn single_stop_gradient_is_constant() {
    let g = Gradient::new(vec![(HALF, GREY)]);
    for t in [i64::MIN, 0, HALF - 1, HALF, HALF + 1, ONE, i64::MAX] {
        assert_eq!(g.sample_at(t), unit_color(GREY));
    }
}

#[test]
fn scalar_gradient_samples_raw_values() {
    let g = ScalarGradient::new(vec![(ONE, 100), (0, -100), (HALF, 50)]);
    assert_eq!(g.stops, vec![(0, -100), (HALF, 50), (ONE, 100)]);
    assert_eq!(g.sample_at(0), -100);
    assert_eq!(g.sample_at(HALF), 50);
    assert_eq!(g.sample_at(ONE), 100);
    assert_eq!(g.sample_at(ONE / 4), -25);
    assert_eq!(g.sample_at(3 * ONE / 4), 75);
    assert_eq!(g.sample_at(-1), -100);
    assert_eq!(g.sample_at(2 * ONE), 100);
}

#[test]
fn empty_scalar_gradient_is_zero() {
    let g = ScalarGradient::new(Vec::new());
    assert_eq!(g.sample_at(HALF), 0);
    let d = ScalarGradient::default();
    assert_eq!(d.stops, vec![(0, 0), (ONE, ONE)]);
    assert_eq!(d.sample_at(HALF), HALF);
    assert_eq!(d.clone(), d);
}

#[test]
fn scalar_gradient_sort_and_check() {
    let mut g = ScalarGradient { stops: vec![(3, 1), (1, 2), (2, 3), (1, 4)] };
    assert!(!g.is_sorted());
    g.sort();
    assert!(g.is_sorted());
    assert_eq!(g.stops, vec![(1, 2), (1, 4), (2, 3), (3, 1)]);
}

#[test]
fn partition_point_finds_the_first_stop_at_or_after() {
    let stops: Vec<(Fixed, u8)> = vec![(1, 0), (3, 0), (3, 1), (7, 0)];
    assert!(is_sorted(&stops));
    assert_eq!(partition_point(&stops, 0), 0);
    assert_eq!(partition_point(&stops, 1), 0);
    assert_eq!(partition_point(&stops, 2), 1);
    assert_eq!(partition_point(&stops, 3), 1);
    assert_eq!(partition_point(&stops, 4), 3);
    assert_eq!(partition_point(&stops, 7), 3);
    assert_eq!(partition_point(&stops, 8), 4);
    let none: Vec<(Fixed, u8)> = Vec::new();
    assert_eq!(partition_point(&none, 0), 0);
    assert!(is_sorted(&none));
}

#[test]
fn sort_stops_is_a_stable_sort() {
    let mut stops: Vec<(Fixed, u32)> =
        vec![(2, 0), (1, 1), (2, 2), (0, 3), (1, 4), (2, 5), (-1, 6), (0, 7)];
    let mut expected = stops.clone();
    expected.sort_by(|a, b| a.0.cmp(&b.0));
    sort_stops(&mut stops);
    assert_eq!(stops, expected);
    assert!(is_sorted(&stops));
    assert!(!is_sorted(&vec![(2, 0u8), (1, 0u8)]));
}
