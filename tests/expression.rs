use decorum::{Defined, Expression, Undefined};

#[test]
fn unwrap_defined() {
    let x: Expression<i32, &str> = Defined(7);
    assert_eq!(x.unwrap(), 7);
}

#[test]
fn as_ref_keeps_variant() {
    let x: Expression<i32, &str> = Defined(3);
    assert!(matches!(x.as_ref(), Defined(&3)));
    let y: Expression<i32, &str> = Undefined("bad");
    assert!(matches!(y.as_ref(), Undefined(&"bad")));
}

#[test]
fn map_defined_and_undefined() {
    let x: Expression<i32, &str> = Defined(3);
    assert_eq!(x.map(|v| v * 10).defined(), Some(30));
    let y: Expression<i32, &str> = Undefined("bad");
    assert_eq!(y.map(|v| v * 10).undefined(), Some("bad"));
}

#[test]
fn and_then_can_fail() {
    let x: Expression<i32, &str> = Defined(3);
    let halve = |v: i32| -> Expression<i32, &str> {
        if v % 2 == 0 { Defined(v / 2) } else { Undefined("odd") }
    };
    assert_eq!(x.and_then(halve).undefined(), Some("odd"));
    let y: Expression<i32, &str> = Defined(8);
    assert_eq!(y.and_then(halve).defined(), Some(4));
    let z: Expression<i32, &str> = Undefined("first");
    assert_eq!(z.and_then(halve).undefined(), Some("first"));
}

#[test]
fn zip_map_left_bias() {
    let x: Expression<i32, &str> = Undefined("left");
    let y: Expression<i32, &str> = Undefined("right");
    assert_eq!(x.zip_map(y, |a, b| a + b).undefined(), Some("left"));
    let d: Expression<i32, &str> = Defined(1);
    assert_eq!(d.zip_map(y, |a, b| a + b).undefined(), Some("right"));
    assert_eq!(x.zip_map(d, |a, b| a + b).undefined(), Some("left"));
    let e: Expression<i32, &str> = Defined(2);
    assert_eq!(d.zip_map(e, |a, b| a + b).defined(), Some(3));
}

#[test]
fn projections_and_predicates() {
    let x: Expression<i32, &str> = Defined(5);
    let y: Expression<i32, &str> = Undefined("bad");
    assert!(x.is_defined());
    assert!(!x.is_undefined());
    assert!(y.is_undefined());
    assert!(!y.is_defined());
    assert_eq!(x.defined(), Some(5));
    assert_eq!(x.undefined(), None);
    assert_eq!(y.defined(), None);
    assert_eq!(y.undefined(), Some("bad"));
}

#[test]
fn copied_and_cloned_from_shared_reference() {
    let v = 9;
    let x: Expression<&i32, &str> = Defined(&v);
    assert_eq!(x.copied().defined(), Some(9));
    let s = String::from("text");
    let y: Expression<&String, &str> = Defined(&s);
    assert_eq!(y.cloned().defined(), Some(String::from("text")));
    let z: Expression<&i32, &str> = Undefined("bad");
    assert_eq!(z.copied().undefined(), Some("bad"));
}

#[test]
fn copied_and_cloned_from_mutable_reference() {
    let mut v = 4;
    let x: Expression<&mut i32, &str> = Defined(&mut v);
    assert_eq!(x.copied().defined(), Some(4));
    let mut s = String::from("text");
    let y: Expression<&mut String, &str> = Defined(&mut s);
    assert_eq!(y.cloned().defined(), Some(String::from("text")));
    let z: Expression<&mut i32, &str> = Undefined("bad");
    assert_eq!(z.cloned().undefined(), Some("bad"));
}

#[test]
fn result_round_trip() {
    let ok: Result<i32, &str> = Ok(1);
    let err: Result<i32, &str> = Err("bad");
    let x: Expression<i32, &str> = Expression::from(ok);
    let y: Expression<i32, &str> = Expression::from(err);
    assert_eq!(x.defined(), Some(1));
    assert_eq!(y.undefined(), Some("bad"));
    assert_eq!(Result::from(x), Ok(1));
    assert_eq!(Result::from(y), Err("bad"));
}

#[test]
fn equality_needs_two_defined_values() {
    let a: Expression<i32, &str> = Defined(1);
    let b: Expression<i32, &str> = Defined(1);
    let c: Expression<i32, &str> = Defined(2);
    let u: Expression<i32, &str> = Undefined("bad");
    assert!(a == b);
    assert!(a != c);
    assert!(u != u);
    assert!(a != u);
    assert!(u != a);
    let v: Expression<i32, &str> = Undefined("bad");
    assert!(u != v);
}

#[test]
fn ordering_needs_two_defined_values() {
    let a: Expression<i32, &str> = Defined(1);
    let c: Expression<i32, &str> = Defined(2);
    let u: Expression<i32, &str> = Undefined("bad");
    assert_eq!(a.partial_cmp(&c), Some(std::cmp::Ordering::Less));
    assert_eq!(c.partial_cmp(&a), Some(std::cmp::Ordering::Greater));
    assert_eq!(a.partial_cmp(&u), None);
    assert_eq!(u.partial_cmp(&a), None);
    assert!(a < c);
    assert!(!(u < a));
}
