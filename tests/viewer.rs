use object_viewer::input::{HeldKeys, Motion, MouseControl, PointerFrame};
use object_viewer::material::{object_spec, Material, Rgb, ObjectSpec};
use object_viewer::panel::PanelButton;
use object_viewer::pose::{Axis, Effect};
use object_viewer::shape::{str_equal, Primitive, Shape};
use object_viewer::viewer::Viewer;

fn mat(r: u8, g: u8, b: u8, metallic: u8, roughness: u8, reflectance: u8) -> Material {
    Material { base_color: Rgb { r, g, b }, metallic, roughness, reflectance }
}

fn frame(pressed: bool, released: bool, over_ui: bool, motions: Vec<Motion>, scrolls: Vec<i32>) -> PointerFrame {
    PointerFrame { just_pressed: pressed, just_released: released, over_ui, motions, scrolls }
}

fn started() -> Viewer {
    let mut v = Viewer::new();
    v.setup();
    v
}

#[test]
fn shape_names_round_trip() {
    for i in 0..5 {
        let s = Shape::at(i).unwrap();
        assert_eq!(s.index(), i);
        assert_eq!(Shape::from_name(s.name()), Some(s));
    }
    assert_eq!(Shape::at(5), None);
    assert_eq!(Shape::Torus.name(), "Torus");
    assert_eq!(Shape::from_name("Pyramid"), None);
    assert_eq!(Shape::from_name("cube"), None);
    assert_eq!(Shape::from_name(""), None);
}

#[test]
fn string_comparison() {
    assert!(str_equal("Cone", "Cone"));
    assert!(!str_equal("Cone", "Cube"));
    assert!(!str_equal("Cone", "Cones"));
    assert!(str_equal("", ""));
}

#[test]
fn primitive_dimensions() {
    assert_eq!(Shape::Cube.primitive(), Primitive::Cuboid { x: 100, y: 100, z: 100 });
    assert_eq!(Shape::Sphere.primitive(), Primitive::Sphere { radius: 50 });
    assert_eq!(Shape::Cylinder.primitive(), Primitive::Cylinder { radius: 50, height: 100 });
    assert_eq!(Shape::Torus.primitive(), Primitive::Torus { inner_radius: 30, outer_radius: 80 });
    assert_eq!(Shape::Cone.primitive(), Primitive::Cone { radius: 50, height: 100 });
}

#[test]
fn factory_by_name() {
    assert_eq!(object_spec("Cube").material, mat(80, 20, 20, 30, 20, 50));
    assert_eq!(object_spec("Sphere").material, mat(20, 80, 20, 40, 10, 60));
    assert_eq!(object_spec("Cylinder").material, mat(20, 20, 80, 20, 30, 40));
    assert_eq!(object_spec("Torus").material, mat(80, 60, 20, 10, 40, 30));
    assert_eq!(object_spec("Cone").material, mat(80, 20, 80, 50, 15, 70));
    assert_eq!(object_spec("Cone").shape, Shape::Cone);
    assert_eq!(object_spec("Cone").rotation_speed, 100);
}

#[test]
fn factory_unknown_name_falls_back_to_cube() {
    let o = object_spec("Dodecahedron");
    assert_eq!(o.shape, Shape::Cube);
    assert_eq!(o.material, mat(80, 70, 60, 20, 50, 40));
}

#[test]
fn setup_spawns_red_cube() {
    let mut v = Viewer::new();
    assert_eq!(v.object, None);
    let o = v.setup();
    assert_eq!(o, ObjectSpec { shape: Shape::Cube, material: mat(80, 20, 20, 30, 20, 50), rotation_speed: 100 });
    assert_eq!(v.object, Some(o));
    assert_eq!(v.object_type, Shape::Cube);
    assert!(!v.mouse.is_dragging);
}

#[test]
fn selecting_each_shape_spawns_its_material() {
    let expected = [
        (Shape::Sphere, mat(20, 80, 20, 40, 10, 60)),
        (Shape::Cylinder, mat(20, 20, 80, 20, 30, 40)),
        (Shape::Torus, mat(80, 60, 20, 10, 40, 30)),
        (Shape::Cone, mat(80, 20, 80, 50, 15, 70)),
        (Shape::Cube, mat(80, 20, 20, 30, 20, 50)),
    ];
    let mut v = started();
    for (s, m) in expected {
        let spawned = v.select(s).unwrap();
        assert_eq!(spawned.shape, s);
        assert_eq!(spawned.material, m);
        assert_eq!(v.object, Some(spawned));
        assert_eq!(v.object_type, s);
    }
}

#[test]
fn selecting_current_shape_spawns_nothing() {
    let mut v = started();
    assert_eq!(v.select(Shape::Cube), None);
    v.select(Shape::Torus);
    assert_eq!(v.select(Shape::Torus), None);
    assert_eq!(v.object.unwrap().shape, Shape::Torus);
}

#[test]
fn single_key_moves_two_hundredths() {
    let mut v = started();
    let mut k = HeldKeys::none();
    k.key_a = true;
    assert_eq!(v.keyboard_frame(&k), Effect::Translate { dx: -2, dy: 0, dz: 0 });
    let mut k = HeldKeys::none();
    k.arrow_right = true;
    assert_eq!(v.keyboard_frame(&k), Effect::Translate { dx: 2, dy: 0, dz: 0 });
    let mut k = HeldKeys::none();
    k.key_w = true;
    assert_eq!(k.movement(), Effect::Translate { dx: 0, dy: 2, dz: 0 });
    let mut k = HeldKeys::none();
    k.arrow_down = true;
    assert_eq!(k.movement(), Effect::Translate { dx: 0, dy: -2, dz: 0 });
    let mut k = HeldKeys::none();
    k.key_q = true;
    assert_eq!(k.movement(), Effect::Translate { dx: 0, dy: 0, dz: -2 });
    let mut k = HeldKeys::none();
    k.key_e = true;
    assert_eq!(k.movement(), Effect::Translate { dx: 0, dy: 0, dz: 2 });
}

#[test]
fn opposite_keys_cancel() {
    let mut k = HeldKeys::none();
    k.arrow_left = true;
    k.key_d = true;
    k.key_w = true;
    k.key_s = true;
    k.key_q = true;
    k.key_e = true;
    assert_eq!(k.movement(), Effect::Translate { dx: 0, dy: 0, dz: 0 });
    assert_eq!(HeldKeys::none().movement(), Effect::Translate { dx: 0, dy: 0, dz: 0 });
}

#[test]
fn keys_combine_diagonally() {
    let mut k = HeldKeys::none();
    k.arrow_left = true;
    k.key_a = true;
    k.arrow_up = true;
    assert_eq!(k.movement(), Effect::Translate { dx: -2, dy: 2, dz: 0 });
}

#[test]
fn panel_buttons() {
    let mut v = started();
    assert_eq!(v.click(PanelButton::Left), Effect::Translate { dx: -10, dy: 0, dz: 0 });
    assert_eq!(v.click(PanelButton::Right), Effect::Translate { dx: 10, dy: 0, dz: 0 });
    assert_eq!(PanelButton::Up.effect(), Effect::Translate { dx: 0, dy: 10, dz: 0 });
    assert_eq!(PanelButton::Down.effect(), Effect::Translate { dx: 0, dy: -10, dz: 0 });
    assert_eq!(PanelButton::Forward.effect(), Effect::Translate { dx: 0, dy: 0, dz: -10 });
    assert_eq!(PanelButton::Back.effect(), Effect::Translate { dx: 0, dy: 0, dz: 10 });
    assert_eq!(PanelButton::RotateLeft.effect(), Effect::Rotate { axis: Axis::Y, angle: 10000 });
    assert_eq!(PanelButton::RotateRight.effect(), Effect::Rotate { axis: Axis::Y, angle: -10000 });
    assert_eq!(PanelButton::RotateXPlus.effect(), Effect::Rotate { axis: Axis::X, angle: 10000 });
    assert_eq!(PanelButton::RotateXMinus.effect(), Effect::Rotate { axis: Axis::X, angle: -10000 });
    assert_eq!(PanelButton::ScaleUp.effect(), Effect::Scale { factor: 11000 });
    assert_eq!(PanelButton::ScaleDown.effect(), Effect::Scale { factor: 9000 });
}

#[test]
fn reset_after_edits() {
    let mut v = started();
    v.pointer_frame(&frame(true, false, false, vec![Motion { dx: 5000, dy: 3000 }], vec![2000]));
    v.click(PanelButton::ScaleUp);
    assert_eq!(v.click(PanelButton::Reset), Effect::Reset);
    assert_eq!(v.object.unwrap().shape, Shape::Cube);
}

#[test]
fn drag_turns_object() {
    let mut v = started();
    let r = v.pointer_frame(&frame(true, false, false, vec![Motion { dx: 1000, dy: 2000 }, Motion { dx: -500, dy: 0 }], vec![]));
    assert!(v.mouse.is_dragging);
    assert_eq!(
        r,
        vec![
            Effect::Rotate { axis: Axis::Y, angle: 1000 },
            Effect::Rotate { axis: Axis::X, angle: -2000 },
            Effect::Rotate { axis: Axis::Y, angle: -500 },
            Effect::Rotate { axis: Axis::X, angle: 0 },
        ]
    );
    let r = v.pointer_frame(&frame(false, false, false, vec![Motion { dx: 0, dy: -300 }], vec![]));
    assert_eq!(r, vec![Effect::Rotate { axis: Axis::Y, angle: 0 }, Effect::Rotate { axis: Axis::X, angle: 300 }]);
}

#[test]
fn motion_without_drag_does_nothing() {
    let mut v = started();
    let r = v.pointer_frame(&frame(false, false, false, vec![Motion { dx: 1000, dy: 1000 }], vec![]));
    assert!(r.is_empty());
}

#[test]
fn release_ends_drag() {
    let mut v = started();
    v.pointer_frame(&frame(true, false, false, vec![], vec![]));
    assert!(v.mouse.is_dragging);
    let r = v.pointer_frame(&frame(false, true, false, vec![Motion { dx: 700, dy: 0 }], vec![]));
    assert!(!v.mouse.is_dragging);
    assert!(r.is_empty());
    let r = v.pointer_frame(&frame(false, false, false, vec![Motion { dx: 700, dy: 100 }], vec![]));
    assert!(r.is_empty());
}

#[test]
fn press_and_release_in_one_frame_leaves_no_drag() {
    let mut m = MouseControl::new();
    m.update_drag(true, true, false);
    assert!(!m.is_dragging);
}

#[test]
fn scroll_scales_by_tenth_per_line() {
    let mut v = started();
    assert_eq!(v.pointer_frame(&frame(false, false, false, vec![], vec![1000])), vec![Effect::Scale { factor: 11000 }]);
    assert_eq!(v.pointer_frame(&frame(false, false, false, vec![], vec![-1000])), vec![Effect::Scale { factor: 9000 }]);
    assert_eq!(v.pointer_frame(&frame(false, false, false, vec![], vec![250])), vec![Effect::Scale { factor: 10250 }]);
}

#[test]
fn two_scrolls_compound() {
    let mut v = started();
    let r = v.pointer_frame(&frame(false, false, false, vec![], vec![1000, 2000]));
    assert_eq!(r, vec![Effect::Scale { factor: 11000 }, Effect::Scale { factor: 12000 }]);
    let product: i64 = r
        .iter()
        .map(|e| match e {
            Effect::Scale { factor } => *factor,
            _ => 10000,
        })
        .product();
    assert_eq!(product, 132_000_000);
}

#[test]
fn scroll_to_zero_is_not_clamped() {
    let mut v = started();
    assert_eq!(v.pointer_frame(&frame(false, false, false, vec![], vec![-10000])), vec![Effect::Scale { factor: 0 }]);
}

#[test]
fn press_over_panel_does_not_drag() {
    let mut v = started();
    let r = v.pointer_frame(&frame(true, false, true, vec![Motion { dx: 1000, dy: 0 }], vec![1000]));
    assert!(!v.mouse.is_dragging);
    assert!(r.is_empty());
}

#[test]
fn scroll_over_panel_does_not_scale() {
    let mut v = started();
    let r = v.pointer_frame(&frame(false, false, true, vec![], vec![3000, -1000]));
    assert!(r.is_empty());
}

#[test]
fn drag_continues_over_panel_but_makes_no_edit() {
    let mut v = started();
    v.pointer_frame(&frame(true, false, false, vec![], vec![]));
    let r = v.pointer_frame(&frame(false, false, true, vec![Motion { dx: 400, dy: 0 }], vec![]));
    assert!(v.mouse.is_dragging);
    assert!(r.is_empty());
    let r = v.pointer_frame(&frame(false, true, true, vec![], vec![]));
    assert!(!v.mouse.is_dragging);
    assert!(r.is_empty());
}
