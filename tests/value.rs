use sqlite::{BindableWithIndex, FloatBits, Type, Value, ValueInto};

#[test]
fn kind() {
    assert_eq!(Value::Binary(vec![1]).kind(), Type::Binary);
    assert_eq!(Value::Float(1.5f64.to_bits()).kind(), Type::Float);
    assert_eq!(Value::Integer(3).kind(), Type::Integer);
    assert_eq!(Value::String("a".to_string()).kind(), Type::String);
    assert_eq!(Value::Null.kind(), Type::Null);
}

#[test]
fn from_host_values() {
    assert_eq!(Value::from(42i64), Value::Integer(42));
    assert_eq!(Value::from("Bob".to_string()), Value::String("Bob".to_string()));
    assert_eq!(Value::from(vec![0x42u8]), Value::Binary(vec![0x42]));
    assert_eq!(Value::from(()), Value::Null);
    assert_eq!(Value::from(FloatBits(2.5f64.to_bits())), Value::Float(2.5f64.to_bits()));
    let value: Value = 7i64.into();
    assert_eq!(value, Value::Integer(7));
}

#[test]
fn no_implicit_coercion() {
    assert!((&Value::Integer(1)).try_into::<FloatBits>().is_err());
    assert!((&Value::Float(1.0f64.to_bits())).try_into::<i64>().is_err());
    assert!((&Value::Binary(vec![])).try_into::<String>().is_err());
    assert!((&Value::String(String::new())).try_into::<Vec<u8>>().is_err());
    let error = (&Value::Null).try_into::<i64>().unwrap_err();
    assert_eq!(error.message.as_deref(), Some("failed to convert"));
    assert_eq!(error.code, None);
}

#[test]
fn value_reads_as_itself() {
    let value = Value::Binary(vec![1, 2, 3]);
    assert_eq!((&value).try_into::<Value>().unwrap(), value);
    assert_eq!((&Value::Null).try_into::<()>().unwrap(), ());
    assert!((&Value::Integer(0)).try_into::<()>().is_err());
}

#[test]
fn round_trip() {
    let i = 42i64;
    assert_eq!(<i64 as ValueInto>::into(&i.to_value()), Some(42));
    let f = FloatBits(69.42f64.to_bits());
    assert_eq!(<FloatBits as ValueInto>::into(&f.to_value()), Some(f));
    let s = "Alice".to_string();
    assert_eq!(<String as ValueInto>::into(&s.to_value()), Some(s.clone()));
    let b = vec![0x42u8, 0x69u8];
    assert_eq!(<Vec<u8> as ValueInto>::into(&b.to_value()), Some(b.clone()));
    assert_eq!(<Vec<u8> as ValueInto>::into(&(&b[..]).to_value()), Some(b.clone()));
    assert_eq!(<String as ValueInto>::into(&"Bob".to_value()), Some("Bob".to_string()));
}

#[test]
fn null_symmetry() {
    assert_eq!(<Option<i64> as ValueInto>::into(&None::<i64>.to_value()), Some(None));
    assert_eq!(<Option<i64> as ValueInto>::into(&Some(5i64).to_value()), Some(Some(5)));
    let s = Some("x".to_string());
    assert_eq!(<Option<String> as ValueInto>::into(&s.to_value()), Some(s.clone()));
    assert_eq!(<Option<String> as ValueInto>::into(&None::<String>.to_value()), Some(None));
    let b = Some(vec![1u8]);
    assert_eq!(<Option<Vec<u8>> as ValueInto>::into(&b.to_value()), Some(b.clone()));
    let f = Some(FloatBits(0.5f64.to_bits()));
    assert_eq!(<Option<FloatBits> as ValueInto>::into(&f.to_value()), Some(f));
    assert_eq!(<Option<FloatBits> as ValueInto>::into(&Value::Integer(1)), None);
}

#[test]
fn equality() {
    assert_eq!(Value::Binary(vec![1, 2]), Value::Binary(vec![1, 2]));
    assert_ne!(Value::Binary(vec![1, 2]), Value::Binary(vec![1, 3]));
    assert_ne!(Value::Binary(vec![1]), Value::Binary(vec![1, 2]));
    assert_ne!(Value::Integer(1), Value::Float(1.0f64.to_bits()));
    assert_eq!(Value::Null, Value::Null);
    assert_eq!(Value::Integer(3).copy(), Value::Integer(3));
}

#[test]
fn from_slices_and_options() {
    assert_eq!(Value::from("Bob"), Value::String("Bob".to_string()));
    let value: Value = "Alice".into();
    assert_eq!(value, Value::String("Alice".to_string()));
    assert_eq!(Value::from(&[0x42u8, 0x69u8][..]), Value::Binary(vec![0x42, 0x69]));
    assert_eq!(Value::from(Some(42i64)), Value::Integer(42));
    assert_eq!(Value::from(None::<i64>), Value::Null);
    assert_eq!(Value::from(Some("x")), Value::String("x".to_string()));
    assert_eq!(Value::from(None::<&str>), Value::Null);
}
