use raytracer::scene::PatternType;
use raytracer::shading::{follow_reflection, Cell, EPSILON, REFLECTION_DEPTH};

fn cell(x: i64, y: i64, z: i64, radius: i64) -> Cell {
    Cell { x, y, z, radius }
}

#[test]
fn stripes_alternate_in_x() {
    assert_eq!(PatternType::Stripes.takes_first(cell(0, 5, 7, 3)), Some(true));
    assert_eq!(PatternType::Stripes.takes_first(cell(1, 0, 0, 0)), Some(false));
    assert_eq!(PatternType::Stripes.takes_first(cell(-1, 0, 0, 0)), Some(false));
    assert_eq!(PatternType::Stripes.takes_first(cell(-2, 0, 0, 0)), Some(true));
}

#[test]
fn rings_alternate_with_the_radius() {
    assert_eq!(PatternType::Ring.takes_first(cell(1, 1, 1, 0)), Some(true));
    assert_eq!(PatternType::Ring.takes_first(cell(0, 0, 0, 1)), Some(false));
    assert_eq!(PatternType::Ring.takes_first(cell(0, 0, 0, 4)), Some(true));
}

#[test]
fn checkers_alternate_in_all_three_axes() {
    assert_eq!(PatternType::Checker.takes_first(cell(0, 0, 0, 9)), Some(true));
    assert_eq!(PatternType::Checker.takes_first(cell(1, 0, 0, 0)), Some(false));
    assert_eq!(PatternType::Checker.takes_first(cell(0, -1, 0, 0)), Some(false));
    assert_eq!(PatternType::Checker.takes_first(cell(1, 1, 0, 0)), Some(true));
    assert_eq!(PatternType::Checker.takes_first(cell(-1, 1, -1, 0)), Some(false));
    assert_eq!(
        PatternType::Checker.takes_first(cell(i64::MAX, i64::MAX, 0, 0)),
        Some(true)
    );
}

#[test]
fn a_gradient_picks_neither_colour() {
    assert_eq!(PatternType::Gradient.takes_first(cell(0, 0, 0, 0)), None);
}

#[test]
fn reflections_stop_at_the_depth_or_below_epsilon() {
    let full = 1.0f32.to_bits();
    assert!(follow_reflection(0, full));
    assert!(follow_reflection(REFLECTION_DEPTH - 2, full));
    assert!(!follow_reflection(REFLECTION_DEPTH - 1, full));
    assert!(!follow_reflection(0, 0.0f32.to_bits()));
    assert!(!follow_reflection(0, 0.009f32.to_bits()));
    assert!(follow_reflection(0, 0.01f32.to_bits()));
    assert_eq!(f32::from_bits(EPSILON), 0.01);
}

#[test]
fn two_facing_mirrors_follow_at_most_the_depth() {
    let mut followed = 1;
    let mut bounce = 0;
    while follow_reflection(bounce, 1.0f32.to_bits()) {
        followed += 1;
        bounce += 1;
    }
    assert_eq!(followed, REFLECTION_DEPTH);
}
