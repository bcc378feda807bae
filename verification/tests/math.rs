use rc::clamp;
use rc::vec2;
use rc::vec3;

#[test]
fn vec2_t1() {
    let c = vec2::new(2, 2);
    let q = vec2::new(1, 1);
    let e = c + q;
    assert_eq!((e.x, e.y), (3, 3));
}

#[test]
fn vec3_t1() {
    let c = vec3::new(2, 2, 2);
    let q = vec3::new(1, 1, 1);
    let e = c + q;
    assert_eq!((e.x, e.y, e.z), (3, 3, 3));
}

#[test]
fn vec2_operators_act_per_component() {
    let a = vec2::new(7i32, -9);
    let b = vec2::new(2i32, 2);
    let s = a.clone() - b.clone();
    assert_eq!((s.x, s.y), (5, -11));
    let m = a.clone() * b.clone();
    assert_eq!((m.x, m.y), (14, -18));
    let d = a / b;
    assert_eq!((d.x, d.y), (3, -4));
}

#[test]
fn vec2_float_components() {
    let a = vec2::new(1.5f32, 2.0);
    let b = vec2::new(0.5f32, 4.0);
    let d = a / b;
    assert_eq!((d.x, d.y), (3.0, 0.5));
}

#[test]
fn vec3_subtraction() {
    let e = vec3::new(1i32, 2, 3) - vec3::new(1i32, 1, 1);
    assert_eq!((e.x, e.y, e.z), (0, 1, 2));
}

#[test]
fn vec_add_then_sub_gives_back() {
    let a = vec2::new(40i32, -3);
    let b = vec2::new(-17i32, 99);
    let r = (a.clone() + b.clone()) - b;
    assert_eq!((r.x, r.y), (a.x, a.y));
    let a3 = vec3::new(1i32, 2, 3);
    let b3 = vec3::new(10i32, -20, 30);
    let r3 = (a3.clone() + b3.clone()) - b3;
    assert_eq!((r3.x, r3.y, r3.z), (1, 2, 3));
}

#[test]
fn clamp_picks_bound_or_value() {
    assert_eq!(clamp(5u32, 1, 3), 3);
    assert_eq!(clamp(0u32, 1, 3), 1);
    assert_eq!(clamp(2u32, 1, 3), 2);
    assert_eq!(clamp(-4i32, -2, 7), -2);
    assert_eq!(clamp(2.5f32, 0.0, 1.0), 1.0);
    // the lower bound is checked first when the bounds are crossed
    assert_eq!(clamp(0u32, 5, 3), 5);
    assert_eq!(clamp(9u32, 5, 3), 3);
}

#[test]
fn clamp_stays_within_bounds() {
    for v in 0u32..20 {
        let r = clamp(v, 4, 11);
        assert!(4 <= r && r <= 11);
        if (4..=11).contains(&v) {
            assert_eq!(r, v);
        }
    }
}

#[test]
fn clamp_twice_is_clamp_once() {
    for v in [-5i32, 0, 3, 7, 12] {
        let once = clamp(v, 0, 10);
        assert_eq!(clamp(once, 0, 10), once);
    }
    assert_eq!(clamp(clamp(-2.5f32, -1.0, 1.0), -1.0, 1.0), -1.0);
}

#[test]
fn clamp_keeps_order() {
    let values = [-9i32, -1, 0, 4, 5, 6, 20];
    for a in values {
        for b in values {
            if a <= b {
                assert!(clamp(a, 0, 5) <= clamp(b, 0, 5));
            }
        }
    }
}
