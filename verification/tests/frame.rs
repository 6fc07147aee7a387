use forward_pass::light::Light;
use forward_pass::math::{Mat4, Vec3, Vec4};
use forward_pass::scene::{Camera, Fragment, Frame, Scene};

fn v4(x: f32, y: f32, z: f32, w: f32) -> Vec4 {
    Vec4 { x: x.to_bits(), y: y.to_bits(), z: z.to_bits(), w: w.to_bits() }
}

fn scaling(s: f32) -> Mat4 {
    Mat4 {
        x: v4(s, 0.0, 0.0, 0.0),
        y: v4(0.0, s, 0.0, 0.0),
        z: v4(0.0, 0.0, s, 0.0),
        w: v4(0.0, 0.0, 0.0, 1.0),
    }
}

fn fragment(n: usize) -> Fragment {
    Fragment {
        transform: scaling(n as f32),
        buffer: 100 + n,
        slice: 200 + n,
        ka: v4(0.1, 0.1, 0.1, 1.0),
        kd: v4(0.9, 0.9, 0.9, 1.0),
    }
}

#[test]
fn new_scene_is_empty() {
    let scene = Scene::new();
    assert!(scene.fragments.is_empty());
    assert!(scene.lights.is_empty());
}

#[test]
fn fragments_stay_in_the_order_they_were_added() {
    let mut scene = Scene::new();
    scene.add_fragment(fragment(3));
    scene.add_fragment(fragment(1));
    scene.add_fragment(fragment(2));
    assert_eq!(scene.fragments, vec![fragment(3), fragment(1), fragment(2)]);
    assert!(scene.lights.is_empty());
}

#[test]
fn lights_stay_in_the_order_they_were_added() {
    let a = Light {
        color: v4(1.0, 0.0, 0.0, 1.0),
        center: Vec3 { x: 1, y: 2, z: 3 },
        propagation_constant: 4,
        propagation_linear: 5,
        propagation_r_square: 6,
    };
    let b = Light { color: v4(0.0, 1.0, 0.0, 1.0), ..a };
    let mut scene = Scene::new();
    scene.add_light(b);
    scene.add_light(a);
    assert_eq!(scene.lights, vec![b, a]);
    assert!(scene.fragments.is_empty());
}

#[test]
fn new_frame_has_nothing() {
    let frame = Frame::new();
    assert!(!frame.has_scene("main"));
    assert!(!frame.has_camera("main"));
    assert!(frame.scene("main").is_none());
    assert!(frame.camera("main").is_none());
}

#[test]
fn frame_finds_what_was_inserted() {
    let mut scene = Scene::new();
    scene.add_fragment(fragment(7));
    let camera = Camera { projection: scaling(2.0), view: scaling(3.0) };
    let mut frame = Frame::new();
    frame.insert_scene(String::from("main"), scene.clone());
    frame.insert_camera(String::from("eye"), camera);
    assert!(frame.has_scene("main"));
    assert!(frame.has_camera("eye"));
    assert_eq!(frame.scene("main"), Some(&scene));
    assert_eq!(frame.camera("eye"), Some(&camera));
}

#[test]
fn scenes_and_cameras_are_named_apart() {
    let mut frame = Frame::new();
    frame.insert_scene(String::from("main"), Scene::new());
    assert!(frame.has_scene("main"));
    assert!(!frame.has_camera("main"));
    assert!(!frame.has_scene("Main"));
    assert!(!frame.has_scene(""));
}

#[test]
fn inserting_under_a_used_name_replaces() {
    let mut first = Scene::new();
    first.add_fragment(fragment(1));
    let mut second = Scene::new();
    second.add_fragment(fragment(2));
    let mut frame = Frame::new();
    frame.insert_scene(String::from("main"), first);
    frame.insert_scene(String::from("main"), second.clone());
    assert_eq!(frame.scene("main"), Some(&second));

    frame.insert_camera(String::from("eye"), Camera { projection: scaling(1.0), view: scaling(1.0) });
    let later = Camera { projection: scaling(4.0), view: scaling(5.0) };
    frame.insert_camera(String::from("eye"), later);
    assert_eq!(frame.camera("eye"), Some(&later));
}
