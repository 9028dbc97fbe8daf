use raytracer::intersections::{Intersection, Intersections, MAX_HITS};
use raytracer::{greater_or_equal, in_unit_range, less_than, non_negative};

fn bits(x: f32) -> u32 {
    x.to_bits()
}

fn read_back(b: &Intersections) -> Vec<f32> {
    (0..b.len()).map(|i| f32::from_bits(b.get(i).t)).collect()
}

#[test]
fn comparisons_follow_the_encoded_numbers() {
    assert!(less_than(bits(1.0), bits(2.0)));
    assert!(!less_than(bits(2.0), bits(1.0)));
    assert!(less_than(bits(-2.0), bits(-1.0)));
    assert!(less_than(bits(-1.0), bits(0.5)));
    assert!(!less_than(bits(-0.0), bits(0.0)));
    assert!(!less_than(bits(0.0), bits(-0.0)));
    assert!(less_than(bits(f32::NEG_INFINITY), bits(f32::MIN)));
    assert!(less_than(bits(f32::MAX), bits(f32::INFINITY)));
    assert!(!less_than(bits(f32::NAN), bits(1.0)));
    assert!(!less_than(bits(1.0), bits(f32::NAN)));
    assert!(greater_or_equal(bits(3.0), bits(3.0)));
    assert!(!greater_or_equal(bits(f32::NAN), bits(f32::NAN)));
}

#[test]
fn non_negative_includes_both_zeros() {
    assert!(non_negative(bits(0.0)));
    assert!(non_negative(bits(-0.0)));
    assert!(non_negative(bits(4.0)));
    assert!(!non_negative(bits(-0.001)));
    assert!(!non_negative(bits(f32::NAN)));
}

#[test]
fn unit_range_bounds() {
    assert!(in_unit_range(bits(0.0)));
    assert!(in_unit_range(bits(1.0)));
    assert!(in_unit_range(bits(0.5)));
    assert!(!in_unit_range(bits(1.0001)));
    assert!(!in_unit_range(bits(-0.5)));
    assert!(!in_unit_range(bits(f32::NAN)));
}

#[test]
fn an_empty_buffer_has_no_hit() {
    let b = Intersections::new();
    assert_eq!(b.len(), 0);
    assert!(!b.has_hit());
    let d = Intersections::default();
    assert_eq!(d.len(), 0);
    assert!(!d.has_hit());
}

#[test]
fn hit_from_inside_a_sphere() {
    let mut b = Intersections::default();
    b.add(Intersection::new(bits(-1.0), 0));
    b.add(Intersection::new(bits(1.0), 0));
    assert_eq!(read_back(&b), vec![-1.0, 1.0]);
    assert!(b.has_hit());
    assert_eq!(f32::from_bits(b.get_hit().t), 1.0);
}

#[test]
fn hits_behind_the_ray_are_no_hit() {
    let mut b = Intersections::new();
    b.add(Intersection::new(bits(-2.0), 0));
    b.add(Intersection::new(bits(-1.0), 1));
    assert!(!b.has_hit());
    assert_eq!(read_back(&b), vec![-2.0, -1.0]);
}

#[test]
fn the_hit_is_the_lowest_non_negative_distance() {
    let mut b = Intersections::new();
    b.add(Intersection::new(bits(5.0), 0));
    b.add(Intersection::new(bits(7.0), 1));
    b.add(Intersection::new(bits(-3.0), 2));
    b.add(Intersection::new(bits(2.0), 3));
    let h = b.get_hit();
    assert_eq!(f32::from_bits(h.t), 2.0);
    assert_eq!(h.obj, 3);
}

fn permutations(items: &[f32]) -> Vec<Vec<f32>> {
    if items.len() <= 1 {
        return vec![items.to_vec()];
    }
    let mut out = vec![];
    for i in 0..items.len() {
        let mut rest = items.to_vec();
        let x = rest.remove(i);
        for mut p in permutations(&rest) {
            p.insert(0, x);
            out.push(p);
        }
    }
    out
}

#[test]
fn any_insertion_order_reads_back_ascending() {
    let values = [3.5, -1.0, 0.0, 2.0, -7.25];
    let mut expected = values.to_vec();
    expected.sort_by(|a, b| a.partial_cmp(b).unwrap());
    for order in permutations(&values) {
        let mut b = Intersections::new();
        for (obj, t) in order.iter().enumerate() {
            b.add(Intersection::new(bits(*t), obj as u32));
        }
        assert_eq!(read_back(&b), expected);
        assert!(b.has_hit());
        assert_eq!(f32::from_bits(b.get_hit().t), 0.0);
    }
}

#[test]
fn equal_distances_are_all_kept() {
    let mut b = Intersections::new();
    b.add(Intersection::new(bits(1.0), 0));
    b.add(Intersection::new(bits(1.0), 1));
    b.add(Intersection::new(bits(0.5), 2));
    assert_eq!(read_back(&b), vec![0.5, 1.0, 1.0]);
    let mut objs: Vec<u32> = (0..b.len()).map(|i| b.get(i).obj).collect();
    objs.sort();
    assert_eq!(objs, vec![0, 1, 2]);
}

#[test]
fn the_buffer_fills_to_capacity_in_order() {
    let mut b = Intersections::new();
    for i in 0..MAX_HITS {
        let t = ((i * 37) % MAX_HITS) as f32 - 50.0;
        b.add(Intersection::new(bits(t), i as u32));
    }
    assert_eq!(b.len(), MAX_HITS);
    let back = read_back(&b);
    for w in back.windows(2) {
        assert!(w[0] <= w[1]);
    }
    assert_eq!(f32::from_bits(b.get_hit().t), 0.0);
}

#[test]
fn a_nan_distance_is_kept_and_is_no_hit() {
    let mut b = Intersections::new();
    b.add(Intersection::new(bits(f32::NAN), 0));
    assert!(!b.has_hit());
    b.add(Intersection::new(bits(2.0), 1));
    b.add(Intersection::new(bits(1.0), 2));
    assert_eq!(b.len(), 3);
    assert!(b.has_hit());
    assert_eq!(f32::from_bits(b.get_hit().t), 1.0);
}
