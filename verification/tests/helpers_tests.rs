use lyrn::helpers::{convert_bytes, is_default};

#[test]
fn test_convert_bytes_kb() {
    let bytes = 1024;
    let result = convert_bytes(bytes);
    assert_eq!(result, "1.00 Kb");
}

#[test]
fn test_convert_bytes_mb() {
    let bytes = 1048576;
    let result = convert_bytes(bytes);
    assert_eq!(result, "1.00 Mb");
}

#[test]
fn test_convert_bytes_gb() {
    let bytes = 1073741824;
    let result = convert_bytes(bytes);
    assert_eq!(result, "1.00 Gb");
}

#[test]
fn test_convert_bytes_tb() {
    let bytes = 1099511627776;
    let result = convert_bytes(bytes);
    assert_eq!(result, "1.00 Tb");
}

#[test]
fn test_convert_bytes_rounding() {
    let bytes = 1536;
    let result = convert_bytes(bytes);
    assert_eq!(result, "1.50 Kb");
}

#[test]
fn test_convert_bytes_small() {
    assert_eq!(convert_bytes(0), "0.00 Kb");
    assert_eq!(convert_bytes(512), "0.50 Kb");
}

#[test]
fn test_convert_bytes_near_unit() {
    // A little over one kilobyte still shows as one after rounding, and
    // an exact multiple of half a kilobyte keeps its exact decimals.
    assert_eq!(convert_bytes(1029), "1.00 Kb");
    assert_eq!(convert_bytes(2560), "2.50 Kb");
}

#[test]
fn test_is_default() {
    // Test with a type that implements Default and PartialEq
    let default_int: i32 = Default::default();
    assert!(is_default(&default_int));

    // Test with a custom type that implements Default and PartialEq
    #[derive(Default, PartialEq, Debug)]
    struct CustomType {
        value: i32,
    }
    let custom_default = CustomType::default();
    assert!(is_default(&custom_default));

    // Test with a non-default value of the custom type
    let custom_non_default = CustomType { value: 42 };
    assert!(!is_default(&custom_non_default));
}
