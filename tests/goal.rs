use plix::geometry::{is_player_in_goal, GoalZone, Position};

fn reference_goal() -> GoalZone {
    GoalZone::new(Position::new(0, -240), 15, 1)
}

#[test]
fn point_on_goal_centre_is_inside() {
    assert!(is_player_in_goal(&Position::new(0, -240), &reference_goal()));
}

#[test]
fn points_just_inside_tolerances_are_inside() {
    let g = reference_goal();
    assert!(is_player_in_goal(&Position::new(14, -240), &g));
    assert!(is_player_in_goal(&Position::new(-14, -240), &g));
}

#[test]
fn horizontal_boundary_is_outside() {
    let g = reference_goal();
    assert!(!is_player_in_goal(&Position::new(15, -240), &g));
    assert!(!is_player_in_goal(&Position::new(-15, -240), &g));
}

#[test]
fn vertical_boundary_is_outside() {
    let g = reference_goal();
    assert!(!is_player_in_goal(&Position::new(0, -239), &g));
    assert!(!is_player_in_goal(&Position::new(0, -241), &g));
}

#[test]
fn far_points_are_outside() {
    let g = reference_goal();
    assert!(!is_player_in_goal(&Position::new(0, 0), &g));
    assert!(!is_player_in_goal(&Position::new(20, -240), &g));
    assert!(!is_player_in_goal(&Position::new(i64::MAX, i64::MIN), &g));
}

#[test]
fn tolerances_are_independent_per_axis() {
    let g = GoalZone::new(Position::new(100, 50), 3, 10);
    assert!(is_player_in_goal(&Position::new(102, 59), &g));
    assert!(!is_player_in_goal(&Position::new(103, 50), &g));
    assert!(!is_player_in_goal(&Position::new(100, 60), &g));
}
