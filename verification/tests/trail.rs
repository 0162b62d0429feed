use epicycles::trail::Trail;

fn contents(trail: &Trail<(i32, i32)>) -> Vec<(i32, i32)> {
    (0..trail.len()).map(|index| *trail.get(index).unwrap()).collect()
}

#[test]
fn a_new_trail_is_empty() {
    let trail: Trail<(i32, i32)> = Trail::new(1000);
    assert_eq!(trail.len(), 0);
    assert_eq!(trail.get(0), None);
}

#[test]
fn points_are_kept_oldest_first() {
    let mut trail = Trail::new(3);
    trail.add_draw_point((1, 1));
    trail.add_draw_point((2, 2));
    assert_eq!(contents(&trail), vec![(1, 1), (2, 2)]);
    trail.add_draw_point((3, 3));
    assert_eq!(contents(&trail), vec![(1, 1), (2, 2), (3, 3)]);
    assert_eq!(trail.get(3), None);
}

#[test]
fn a_full_trail_forgets_its_oldest_point() {
    let mut trail = Trail::new(3);
    for index in 1..=5 {
        trail.add_draw_point((index, -index));
    }
    assert_eq!(trail.len(), 3);
    assert_eq!(contents(&trail), vec![(3, -3), (4, -4), (5, -5)]);
}

#[test]
fn the_trail_of_a_drawing_keeps_a_thousand_points() {
    let mut trail = Trail::new(1000);
    for index in 0..1000 {
        trail.add_draw_point((index, 0));
    }
    assert_eq!(trail.len(), 1000);
    assert_eq!(trail.get(0), Some(&(0, 0)));
    trail.add_draw_point((1000, 0));
    assert_eq!(trail.len(), 1000);
    assert_eq!(trail.get(0), Some(&(1, 0)));
    assert_eq!(trail.get(999), Some(&(1000, 0)));
}

#[test]
fn a_trail_without_room_stays_empty() {
    let mut trail = Trail::new(0);
    trail.add_draw_point((1, 1));
    assert_eq!(trail.len(), 0);
    assert_eq!(trail.get(0), None);
}

#[test]
fn clearing_forgets_every_point() {
    let mut trail = Trail::new(2);
    trail.add_draw_point((1, 1));
    trail.add_draw_point((2, 2));
    trail.clear();
    assert_eq!(trail.len(), 0);
    trail.add_draw_point((3, 3));
    trail.add_draw_point((4, 4));
    trail.add_draw_point((5, 5));
    assert_eq!(contents(&trail), vec![(4, 4), (5, 5)]);
}
