use raytracing::scatter::{checkerboard_dark, Face, Interface, Refract, Scatter};

#[test]
fn face_follows_direction_along_normal() {
    assert_eq!(Face::of_incidence(true), Face::Back);
    assert_eq!(Face::of_incidence(false), Face::Front);
}

#[test]
fn refraction_attempt_comes_first() {
    assert_eq!(Scatter::select(true, true), Scatter::Refract);
    assert_eq!(Scatter::select(true, false), Scatter::Refract);
    assert_eq!(Scatter::select(false, true), Scatter::Specular);
    assert_eq!(Scatter::select(false, false), Scatter::Diffuse);
}

#[test]
fn front_face_enters_material() {
    let iface = Interface::new(Face::Front, 10u32, 15u32, 1u32);
    assert_eq!((iface.eta_in, iface.eta_out, iface.flip_normal), (10, 15, false));
    assert_eq!(iface.medium_after(Refract::Refract), 15);
    assert_eq!(iface.medium_after(Refract::Reflect), 10);
}

#[test]
fn back_face_exits_to_outside() {
    let iface = Interface::new(Face::Back, 10u32, 15u32, 1u32);
    assert_eq!((iface.eta_in, iface.eta_out, iface.flip_normal), (15, 1, true));
    assert_eq!(iface.medium_after(Refract::Refract), 1);
    assert_eq!(iface.medium_after(Refract::Reflect), 15);
}

#[test]
fn checkerboard_alternates_tiles() {
    assert!(!checkerboard_dark(0, 0));
    assert!(checkerboard_dark(1, 0));
    assert!(checkerboard_dark(0, 1));
    assert!(!checkerboard_dark(1, 1));
    assert!(checkerboard_dark(-1, 0));
    assert!(!checkerboard_dark(-1, -3));
    assert!(checkerboard_dark(-2, 3));
}
