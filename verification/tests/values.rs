use sepp_rs::pb;
use sepp_rs::pb::primitive_value::Value;
use sepp_rs::primitive::primitive_from_pb;
use sepp_rs::{Double, Payload, Primitive, Priority, PriorityOutOfRange, StringMap};

fn double(d: f64) -> Double {
    Double::from_bits(d.to_bits())
}

#[test]
fn primitive_from_str() {
    assert_eq!(Primitive::from("hi"), Primitive::String("hi".into()));
}

#[test]
fn primitive_from_string() {
    assert_eq!(
        Primitive::from(String::from("hi")),
        Primitive::String("hi".into())
    );
}

#[test]
fn primitive_from_i64() {
    assert_eq!(Primitive::from(42_i64), Primitive::Int(42));
}

#[test]
fn primitive_from_i32() {
    assert_eq!(Primitive::from(42_i32), Primitive::Int(42));
}

#[test]
fn primitive_from_f64() {
    assert_eq!(
        Primitive::from(double(1.5_f64)),
        Primitive::Double(double(1.5))
    );
}

#[test]
fn primitive_from_bool() {
    assert_eq!(Primitive::from(true), Primitive::Bool(true));
}

#[test]
fn primitive_to_pb_string() {
    let pb: pb::PrimitiveValue = Primitive::String("x".into()).into();
    assert!(matches!(pb.value, Some(Value::StringValue(ref s)) if s == "x"));
}

#[test]
fn primitive_to_pb_int() {
    let pb: pb::PrimitiveValue = Primitive::Int(7).into();
    assert!(matches!(pb.value, Some(Value::IntValue(7))));
}

#[test]
fn primitive_to_pb_double() {
    let pb: pb::PrimitiveValue = Primitive::Double(double(2.5)).into();
    assert!(matches!(pb.value, Some(Value::DoubleValue(d)) if d == double(2.5)));
}

#[test]
fn primitive_to_pb_bool() {
    let pb: pb::PrimitiveValue = Primitive::Bool(false).into();
    assert!(matches!(pb.value, Some(Value::BoolValue(false))));
}

#[test]
fn primitives_survive_the_wire() {
    for p in [
        Primitive::String("s".into()),
        Primitive::Int(-3),
        Primitive::Double(double(0.25)),
        Primitive::Bool(true),
    ] {
        let wire = pb::PrimitiveValue::from(p.clone());
        assert_eq!(primitive_from_pb(wire), Some(p));
    }
    assert_eq!(primitive_from_pb(pb::PrimitiveValue { value: None }), None);
}

#[test]
fn doubles_compare_as_floats() {
    assert_eq!(double(0.0), double(-0.0));
    assert_ne!(double(f64::NAN), double(f64::NAN));
    assert!(double(f64::NAN).is_nan());
    assert!(!double(f64::INFINITY).is_nan());
    assert_ne!(double(1.0), double(2.0));
    assert_eq!(double(1.5).to_bits(), 1.5_f64.to_bits());
}

#[test]
fn doubles_are_raised_to_one() {
    for d in [0.5, -2.0, 0.0, -0.0, f64::NEG_INFINITY] {
        assert_eq!(double(d).at_least_one(), double(d.max(1.0)));
    }
    assert_eq!(double(f64::NAN).at_least_one(), double(1.0));
    assert_eq!(double(2.5).at_least_one(), double(2.5));
    assert_eq!(
        double(f64::INFINITY).at_least_one(),
        double(f64::INFINITY)
    );
}

#[test]
fn payload_to_pb() {
    let p = Payload {
        data: vec![1, 2, 3],
        encoding: "json".into(),
    };
    let pb: pb::Payload = p.into();
    assert_eq!(pb.data, vec![1, 2, 3]);
    assert_eq!(pb.encoding, "json");
}

#[test]
fn payload_from_pb() {
    let pb = pb::Payload {
        data: vec![9],
        encoding: "raw".into(),
    };
    let p: Payload = pb.into();
    assert_eq!(p.data, vec![9]);
    assert_eq!(p.encoding, "raw");
}

#[test]
fn payload_new_and_clone() {
    let p = Payload::new(vec![7, 8], "application/json");
    assert_eq!(p.data, vec![7, 8]);
    assert_eq!(p.encoding, "application/json");
    assert_eq!(p.clone(), p);
    assert_eq!(Payload::from(pb::Payload::from(p.clone())), p);
}

#[test]
fn priority_zero_valid() {
    assert_eq!(Priority::new(0).unwrap().get(), 0);
}

#[test]
fn priority_mid_valid() {
    assert_eq!(Priority::new(5).unwrap().get(), 5);
}

#[test]
fn priority_max_valid() {
    assert_eq!(Priority::new(9).unwrap().get(), 9);
}

#[test]
fn priority_above_max_rejected() {
    assert!(matches!(Priority::new(10), Err(PriorityOutOfRange(10))));
}

#[test]
fn priority_u8_max_rejected() {
    assert!(matches!(
        Priority::new(u8::MAX),
        Err(PriorityOutOfRange(255))
    ));
}

#[test]
fn priority_try_from_ok() {
    let p: Priority = 5u8.try_into().unwrap();
    assert_eq!(p.get(), 5);
}

#[test]
fn priority_try_from_err() {
    assert!(<Priority as TryFrom<u8>>::try_from(11).is_err());
}

#[test]
fn priority_constants() {
    assert_eq!(Priority::MIN.get(), 0);
    assert_eq!(Priority::MAX.get(), 9);
}

#[test]
fn priorities_have_names() {
    assert_eq!(Priority::new(7).unwrap(), Priority::P7);
    for v in 0..=9u8 {
        assert_eq!(Priority::new(v).unwrap().get(), v);
    }
    assert_eq!(
        PriorityOutOfRange(10).to_string(),
        "priority must be 0-9, got 10"
    );
}

#[test]
fn string_map_keeps_one_value_per_key() {
    let mut m: StringMap<i64> = StringMap::new();
    assert!(m.is_empty());
    m.insert("a".into(), 1);
    m.insert("b".into(), 2);
    m.insert("a".into(), 3);
    assert_eq!(m.len(), 2);
    assert_eq!(m.get("a"), Some(&3));
    assert!(m.contains_key("b"));
    m.remove("a");
    assert_eq!(m.get("a"), None);
    m.remove("missing");
    assert_eq!(m.len(), 1);
    let copy = m.clone();
    assert_eq!(copy.into_entries(), vec![("b".to_string(), 2)]);
}

#[test]
fn string_map_from_entries_lets_the_last_win() {
    let m = StringMap::from_entries(vec![
        ("k".to_string(), 1),
        ("l".to_string(), 2),
        ("k".to_string(), 3),
    ]);
    assert_eq!(m.len(), 2);
    assert_eq!(m.get("k"), Some(&3));
    assert_eq!(m.get("l"), Some(&2));
}
