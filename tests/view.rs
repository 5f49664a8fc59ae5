use glacian::{Pitch, ViewDirection, Yaw};

#[test]
fn inc_pitch() {
    let mut pitch = Pitch::default();
    pitch.rot(60);
    assert_eq!(pitch.0, 150);
    pitch.rot(60);
    assert_eq!(pitch.0, 180);
}

#[test]
fn dec_pitch() {
    let mut pitch = Pitch::default();
    pitch.rot(-60);
    assert_eq!(pitch.0, 30);
    pitch.rot(-60);
    assert_eq!(pitch.0, 0);
}

#[test]
fn inc_yaw() {
    let mut yaw = Yaw::default();
    yaw.rot(220);
    assert_eq!(yaw.0, 220);
    yaw.rot(200);
    assert_eq!(yaw.0, 60);
}

#[test]
fn dec_yaw() {
    let mut pitch = Yaw::default();
    pitch.rot(-220);
    assert_eq!(pitch.0, 140);
    pitch.rot(-20);
    assert_eq!(pitch.0, 120);
}

#[test]
fn yaw_keeps_full_turn_and_wraps_beyond() {
    let mut yaw = Yaw(0);
    yaw.rot(360);
    assert_eq!(yaw.0, 360);
    let mut yaw = Yaw(0);
    yaw.rot(-360);
    assert_eq!(yaw.0, 0);
    let mut yaw = Yaw(0);
    yaw.rot(-361);
    assert_eq!(yaw.0, 359);
    let mut yaw = Yaw(0);
    yaw.rot(725);
    assert_eq!(yaw.0, 5);
}

#[test]
fn view_direction_centres_on_window() {
    let v = ViewDirection::new((801, -7));
    assert_eq!(v.center, (400, -3));
    assert_eq!(v.yaw.0, 0);
    assert_eq!(v.pitch.0, 90);
    assert_eq!(v.fov, 90);
}

#[test]
fn view_direction_resize_keeps_angles() {
    let mut v = ViewDirection::new((800, 600));
    v.update((480, 300));
    v.resize((1920, 1080));
    assert_eq!(v.center, (960, 540));
    assert_eq!(v.yaw.0, 10);
    assert_eq!(v.pitch.0, 90);
}

#[test]
fn view_direction_update_turns_by_an_eighth() {
    let mut v = ViewDirection::new((800, 600));
    // 80 px right, 160 px up of the centre (400, 300).
    v.update((480, 140));
    assert_eq!(v.yaw.0, 10);
    assert_eq!(v.pitch.0, 110);
    // 15 px left rounds toward zero: one degree back.
    v.update((385, 300));
    assert_eq!(v.yaw.0, 9);
    // Far below the centre clamps the pitch at zero.
    v.update((400, 10_000));
    assert_eq!(v.pitch.0, 0);
}
