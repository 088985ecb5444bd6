use shape_pair::shape::{get_area, get_area_long, return_area, Shape, Square, Triangle};

#[test]
fn triangle_area_truncates() {
    let t = Triangle { base: 5, height: 10 };
    assert_eq!(t.area(), 25);
    let t = Triangle { base: 5, height: 9 };
    assert_eq!(t.area(), 22);
}

#[test]
fn square_area() {
    assert_eq!(Square { side: 10 }.area(), 100);
    assert_eq!(Square { side: 15 }.area(), 225);
}

#[test]
fn negative_dimension_is_accepted_silently() {
    let t = Triangle { base: -5, height: 9 };
    assert_eq!(t.area(), -22);
}

#[test]
fn dispatch_mechanisms_agree() {
    let t = Triangle { base: 5, height: 10 };
    let s = Square { side: 10 };
    let through_dyn: &dyn Shape = &t;
    assert_eq!(get_area(&t), get_area_long(&t));
    assert_eq!(get_area(&t), through_dyn.area());
    let through_dyn: &dyn Shape = &s;
    assert_eq!(get_area(&s), get_area_long(&s));
    assert_eq!(get_area(&s), through_dyn.area());
}

#[test]
fn describe_override_takes_precedence() {
    let t = Triangle { base: 5, height: 10 };
    assert_eq!(t.describe(), "Triangle default called.");
}

#[test]
fn describe_default_is_generic() {
    let s = Square { side: 10 };
    assert_eq!(s.describe(), "default called");
}

#[test]
fn return_area_hands_back_one_variant() {
    let s = return_area();
    assert_eq!(s.area(), 225);
    assert_eq!(s.describe(), "default called");
}
