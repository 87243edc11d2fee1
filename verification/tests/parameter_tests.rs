use zenobuf::parameter::{ParamKind, ParamValue, Parameter};

#[test]
fn test_parameter_new_string() {
    let param = Parameter::new("string_param", ParamValue::Str("hello".to_string())).unwrap();

    assert_eq!(param.name(), "string_param");
    assert_eq!(
        param.get_value(ParamKind::Str).unwrap(),
        ParamValue::Str("hello".to_string())
    );
}

#[test]
fn test_parameter_new_int() {
    let param = Parameter::new("int_param", ParamValue::Int(42)).unwrap();

    assert_eq!(param.name(), "int_param");
    assert_eq!(param.get_value(ParamKind::Int).unwrap(), ParamValue::Int(42));
}

#[test]
fn test_parameter_new_float() {
    let param = Parameter::new("float_param", ParamValue::Float(3.14f64.to_bits())).unwrap();

    assert_eq!(param.name(), "float_param");
    assert_eq!(
        param.get_value(ParamKind::Float).unwrap(),
        ParamValue::Float(3.14f64.to_bits())
    );
}

#[test]
fn test_parameter_new_bool() {
    let param = Parameter::new("bool_param", ParamValue::Bool(true)).unwrap();

    assert_eq!(param.name(), "bool_param");
    assert_eq!(param.get_value(ParamKind::Bool).unwrap(), ParamValue::Bool(true));
}

#[test]
fn test_parameter_new_array() {
    let param = Parameter::new("array_param", ParamValue::IntArray(vec![1, 2, 3])).unwrap();

    assert_eq!(param.name(), "array_param");
    assert_eq!(
        param.get_value(ParamKind::IntArray).unwrap(),
        ParamValue::IntArray(vec![1, 2, 3])
    );
}

#[test]
fn test_parameter_set() {
    let mut param = Parameter::new("param", ParamValue::Int(42)).unwrap();

    // Change the value
    param.set_value(ParamValue::Int(43)).unwrap();

    assert_eq!(param.get_value(ParamKind::Int).unwrap(), ParamValue::Int(43));
}

#[test]
fn test_parameter_set_different_type() {
    let mut param = Parameter::new("param", ParamValue::Int(42)).unwrap();

    // Change the value to a different kind
    param.set_value(ParamValue::Str("hello".to_string())).unwrap();

    assert_eq!(
        param.get_value(ParamKind::Str).unwrap(),
        ParamValue::Str("hello".to_string())
    );
}

#[test]
fn test_parameter_get_wrong_type() {
    let param = Parameter::new("param", ParamValue::Int(42)).unwrap();

    // Try to get the value at a different kind
    let result = param.get_value(ParamKind::Str);

    assert!(result.is_err());
}

#[test]
fn test_parameter_serialization() {
    // Test with string parameter
    let param = Parameter::new("string_param", ParamValue::Str("hello".to_string())).unwrap();
    let serialized = serde_json::to_string(&"hello".to_string()).unwrap();
    match param.get_value(ParamKind::Str).unwrap() {
        ParamValue::Str(s) => assert_eq!(serde_json::to_string(&s).unwrap(), serialized),
        _ => panic!("expected a string value"),
    }

    // Test with int parameter
    let param = Parameter::new("int_param", ParamValue::Int(42)).unwrap();
    let serialized = serde_json::to_string(&42).unwrap();
    match param.get_value(ParamKind::Int).unwrap() {
        ParamValue::Int(i) => assert_eq!(serde_json::to_string(&i).unwrap(), serialized),
        _ => panic!("expected an integer value"),
    }

    // Test with float parameter
    let param = Parameter::new("float_param", ParamValue::Float(3.14f64.to_bits())).unwrap();
    let serialized = serde_json::to_string(&3.14).unwrap();
    match param.get_value(ParamKind::Float).unwrap() {
        ParamValue::Float(bits) => {
            assert_eq!(serde_json::to_string(&f64::from_bits(bits)).unwrap(), serialized)
        },
        _ => panic!("expected a float value"),
    }

    // Test with bool parameter
    let param = Parameter::new("bool_param", ParamValue::Bool(true)).unwrap();
    let serialized = serde_json::to_string(&true).unwrap();
    match param.get_value(ParamKind::Bool).unwrap() {
        ParamValue::Bool(b) => assert_eq!(serde_json::to_string(&b).unwrap(), serialized),
        _ => panic!("expected a boolean value"),
    }

    // Test with array parameter
    let param = Parameter::new("array_param", ParamValue::IntArray(vec![1, 2, 3])).unwrap();
    let serialized = serde_json::to_string(&vec![1, 2, 3]).unwrap();
    match param.get_value(ParamKind::IntArray).unwrap() {
        ParamValue::IntArray(v) => assert_eq!(serde_json::to_string(&v).unwrap(), serialized),
        _ => panic!("expected an array value"),
    }
}

#[test]
fn test_canonical_round_trip() {
    // The canonical text of a value reads back as the same value at the
    // same kind, for each supported kind.
    let values = vec![
        ParamValue::Str("hello world".to_string()),
        ParamValue::Int(-987654321),
        ParamValue::Float(2.718f64.to_bits()),
        ParamValue::Bool(false),
        ParamValue::IntArray(vec![-1, 0, 42]),
    ];
    let kinds = vec![
        ParamKind::Str,
        ParamKind::Int,
        ParamKind::Float,
        ParamKind::Bool,
        ParamKind::IntArray,
    ];
    for (value, kind) in values.into_iter().zip(kinds.into_iter()) {
        let text = zenobuf::parameter::canon(&value);
        let back = zenobuf::parameter::parse_canonical(kind, text.as_str()).unwrap();
        assert_eq!(back, value);
    }
}

#[test]
fn test_canonical_rejects_other_kind() {
    // Text written at one kind never reads at another.
    let text = zenobuf::parameter::canon(&ParamValue::Int(42));
    assert!(zenobuf::parameter::parse_canonical(ParamKind::Str, text.as_str()).is_none());
    assert!(zenobuf::parameter::parse_canonical(ParamKind::Bool, text.as_str()).is_none());
    assert!(zenobuf::parameter::parse_canonical(ParamKind::Float, text.as_str()).is_none());
    assert!(zenobuf::parameter::parse_canonical(ParamKind::IntArray, text.as_str()).is_none());
}
