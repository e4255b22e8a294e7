use stereogram::catalog::{Hypersolid, PlatonicSolid};
use stereogram::view::{
    angle_from_slider, step_angle, velocity_from_slider, ViewState, DISTANCE_MAX, DISTANCE_MIN,
    EYE_SEPARATION_MAX, EYE_SEPARATION_MIN, MAX_VELOCITY, TURN, VELOCITY_STEP,
};

#[test]
fn start_up_state() {
    let v = ViewState::new();
    assert_eq!(v.solid, PlatonicSolid::Cube);
    assert_eq!(v.hypersolid, Hypersolid::Tesseract);
    assert_eq!(v.eye_separation, 60_000);
    assert_eq!(v.perspective_distance, 5_000_000);
    assert!(v.depth_coloring && !v.w_depth_coloring);
    assert!(!v.paused && !v.four_d && !v.orthographic && !v.dark_background);
    assert!(v.show_guides && v.show_ui && !v.show_controls);
    assert_eq!((v.angle_x, v.angle_y, v.angle_z), (0, 0, 0));
}

#[test]
fn colorings_never_both_on() {
    let mut v = ViewState::new();
    let moves = [true, true, false, true, false, false, true, false, true, true, false];
    for z in moves {
        if z {
            v.toggle_depth_coloring();
        } else {
            v.toggle_w_depth_coloring();
        }
        assert!(!(v.depth_coloring && v.w_depth_coloring));
    }
    v.toggle_w_depth_coloring();
    if v.w_depth_coloring {
        assert!(!v.depth_coloring);
    }
    let mut u = ViewState::new();
    u.toggle_w_depth_coloring();
    assert!(u.w_depth_coloring && !u.depth_coloring);
    u.toggle_depth_coloring();
    assert!(u.depth_coloring && !u.w_depth_coloring);
}

#[test]
fn pause_freezes_and_resume_continues() {
    let mut v = ViewState::new();
    v.set_velocity(0, 3 * VELOCITY_STEP);
    v.set_velocity(2, -VELOCITY_STEP);
    for _ in 0..4 {
        v.advance();
    }
    let frozen = v;
    assert_eq!(v.angle_x, 12 * VELOCITY_STEP);
    assert_eq!(v.angle_z, TURN - 4 * VELOCITY_STEP);
    v.toggle_pause();
    for _ in 0..50 {
        v.advance();
        assert_eq!((v.angle_x, v.angle_y, v.angle_z), (frozen.angle_x, frozen.angle_y, frozen.angle_z));
    }
    v.toggle_pause();
    v.advance();
    assert_eq!(v.angle_x, frozen.angle_x + 3 * VELOCITY_STEP);
    assert_eq!(v.angle_z, frozen.angle_z - VELOCITY_STEP);
}

#[test]
fn four_d_mode_moves_only_plane_angles() {
    let mut v = ViewState::new();
    v.set_velocity(0, 500);
    v.toggle_dimension();
    v.set_velocity(3, 700);
    v.set_velocity(6, 900);
    v.advance();
    assert_eq!(v.angle_xw, 700);
    assert_eq!(v.angle_x, 0);
    assert_eq!(v.angle_xy, 0);
    assert_eq!(v.velocity_x, 500);
}

#[test]
fn angles_wrap_within_one_turn() {
    assert_eq!(step_angle(TURN - 50_000, 100_000), 50_000);
    assert_eq!(step_angle(20_000, -100_000), TURN - 80_000);
    assert_eq!(step_angle(0, 0), 0);
}

#[test]
fn cycling_solids_through_the_view() {
    let mut v = ViewState::new();
    v.solid = PlatonicSolid::Tetrahedron;
    for _ in 0..5 {
        v.cycle_solid();
    }
    assert_eq!(v.solid, PlatonicSolid::Tetrahedron);
    v.cycle_hypersolid();
    assert_eq!(v.hypersolid, Hypersolid::Tesseract);
    v.toggle_dimension();
    v.cycle_hypersolid();
    assert_eq!(v.hypersolid, Hypersolid::FourSimplex);
}

#[test]
fn eye_separation_stays_in_range() {
    let mut v = ViewState::new();
    v.narrow_eyes();
    assert_eq!(v.eye_separation, 50_000);
    v.narrow_eyes();
    assert_eq!(v.eye_separation, EYE_SEPARATION_MIN);
    for _ in 0..40 {
        v.widen_eyes();
    }
    assert_eq!(v.eye_separation, EYE_SEPARATION_MAX);
}

#[test]
fn distance_stays_in_range() {
    let mut v = ViewState::new();
    v.move_away();
    assert_eq!(v.perspective_distance, 5_500_000);
    for _ in 0..100 {
        v.move_away();
    }
    assert_eq!(v.perspective_distance, DISTANCE_MAX);
    for _ in 0..100 {
        v.move_closer();
    }
    assert_eq!(v.perspective_distance, DISTANCE_MIN);
}

#[test]
fn toggles_flip() {
    let mut v = ViewState::new();
    v.toggle_guides();
    v.toggle_ui();
    v.toggle_background();
    v.toggle_projection();
    v.toggle_controls();
    assert!(!v.show_guides && !v.show_ui && v.dark_background && v.orthographic && v.show_controls);
    v.toggle_background();
    assert!(!v.dark_background);
}

#[test]
fn sliders() {
    let w = 120_000_000;
    assert_eq!(velocity_from_slider(0, w), -MAX_VELOCITY);
    assert_eq!(velocity_from_slider(-5, w), -MAX_VELOCITY);
    assert_eq!(velocity_from_slider(w, w), MAX_VELOCITY);
    assert_eq!(velocity_from_slider(w + 9, w), MAX_VELOCITY);
    assert_eq!(velocity_from_slider(w / 2, w), 0);
    // 0.55 of the way is 8.8 sixteenths, which rounds to 9
    assert_eq!(velocity_from_slider(66_000_000, w), VELOCITY_STEP);
    assert_eq!(angle_from_slider(w / 2, w), 180_000_000);
    assert_eq!(angle_from_slider(w / 4, w), 90_000_000);
    assert_eq!(angle_from_slider(w, w), 0);
    assert_eq!(angle_from_slider(-1, w), 0);
}

#[test]
fn setting_angles() {
    let mut v = ViewState::new();
    v.set_angle_3d(1, 45_000_000);
    v.set_angle_3d(7, 1);
    v.set_angle_4d(5, 10);
    v.set_angle_4d(6, 11);
    assert_eq!(v.angle_y, 45_000_000);
    assert_eq!(v.angle_zw, 10);
    assert_eq!(v.angle_x, 0);
}
