use ta_core::{Result, TalibError};

#[test]
fn test_invalid_input_creation() {
    let err = TalibError::invalid_input("Test message");
    assert_eq!(err.to_string(), "Invalid input: Test message");
}

#[test]
fn test_invalid_period_creation() {
    let err = TalibError::invalid_period(0, "must be positive");
    assert_eq!(err.to_string(), "Invalid period 0: must be positive");
}

#[test]
fn test_insufficient_data_creation() {
    let err = TalibError::insufficient_data(20, 10);
    assert_eq!(
        err.to_string(),
        "Insufficient data: required 20 data points, got 10"
    );
}

#[test]
fn test_invalid_parameter_creation() {
    let err = TalibError::invalid_parameter("alpha", "1.5", "value in [0.0, 1.0]");
    assert_eq!(
        err.to_string(),
        "Invalid parameter 'alpha': got '1.5', expected value in [0.0, 1.0]"
    );
}

#[test]
fn test_computation_error_creation() {
    let err = TalibError::computation_error("Numerical overflow");
    assert_eq!(err.to_string(), "Computation error: Numerical overflow");
}

#[test]
fn test_not_implemented_creation() {
    let err = TalibError::not_implemented("Feature X");
    assert_eq!(err.to_string(), "Feature not implemented: Feature X");
}

#[test]
fn test_error_variants_are_equality_comparable() {
    let err1 = TalibError::invalid_input("Test");
    let err2 = TalibError::invalid_input("Test");
    let err3 = TalibError::invalid_input("Different");

    assert_eq!(err1, err2);
    assert_ne!(err1, err3);
}

#[test]
fn test_error_is_debug() {
    let err = TalibError::insufficient_data(100, 50);
    let debug_str = format!("{:?}", err);
    assert!(debug_str.contains("InsufficientData"));
}

#[test]
fn test_error_is_clone() {
    let err1 = TalibError::invalid_input("Test");
    let err2 = err1.clone();
    assert_eq!(err1, err2);
}

#[test]
fn test_insufficient_data_message_format() {
    let err = TalibError::InsufficientData {
        required: 100,
        actual: 42,
    };
    assert_eq!(
        err.to_string(),
        "Insufficient data: required 100 data points, got 42"
    );
}

#[test]
fn test_invalid_period_message_format() {
    let err = TalibError::InvalidPeriod {
        period: 0,
        reason: "period cannot be zero".to_string(),
    };
    assert!(err.to_string().contains("Invalid period"));
    assert!(err.to_string().contains("cannot be zero"));
}

#[test]
fn test_result_type_alias() {
    let ok_result: Result<f64> = Ok(42.0);
    let err_result: Result<f64> = Err(TalibError::invalid_input("Test"));

    assert!(ok_result.is_ok());
    assert!(err_result.is_err());
}

#[test]
fn test_from_parse_float_error() {
    let parse_err = "not_a_float".parse::<f64>().unwrap_err();
    let ta_err = TalibError::from(parse_err);

    match ta_err {
        TalibError::InvalidInput { message } => {
            assert!(message.contains("Failed to parse float"));
        }
        _ => panic!("Expected InvalidInput variant"),
    }
}

#[test]
fn test_from_parse_int_error() {
    let parse_err = "not_an_int".parse::<i32>().unwrap_err();
    let ta_err = TalibError::from(parse_err);

    match ta_err {
        TalibError::InvalidInput { message } => {
            assert!(message.contains("Failed to parse integer"));
        }
        _ => panic!("Expected InvalidInput variant"),
    }
}

#[test]
fn test_convenience_methods_create_correct_variants() {
    let err1 = TalibError::invalid_input("NaN value");
    assert!(matches!(err1, TalibError::InvalidInput { .. }));

    let err2 = TalibError::invalid_period(5, "must be even");
    assert!(matches!(err2, TalibError::InvalidPeriod { .. }));

    let err3 = TalibError::insufficient_data(10, 5);
    assert!(matches!(err3, TalibError::InsufficientData { .. }));

    let err4 = TalibError::invalid_parameter("x", "-1", "positive number");
    assert!(matches!(err4, TalibError::InvalidParameter { .. }));

    let err5 = TalibError::computation_error("division by zero");
    assert!(matches!(err5, TalibError::ComputationError { .. }));

    let err6 = TalibError::not_implemented("advanced feature");
    assert!(matches!(err6, TalibError::NotImplemented { .. }));
}

#[test]
fn test_error_messages_are_helpful() {
    let errors = vec![
        TalibError::InvalidInput {
            message: "Input contains NaN".to_string(),
        },
        TalibError::InvalidPeriod {
            period: 0,
            reason: "Period must be > 0".to_string(),
        },
        TalibError::InsufficientData {
            required: 50,
            actual: 10,
        },
        TalibError::InvalidParameter {
            name: "alpha".to_string(),
            value: "1.5".to_string(),
            expected: "0.0 to 1.0".to_string(),
        },
        TalibError::ComputationError {
            message: "Numerical overflow".to_string(),
        },
        TalibError::NotImplemented {
            feature: "Advanced indicator".to_string(),
        },
    ];

    for error in errors {
        let msg: String = error.to_string();
        assert!(!msg.is_empty());
        assert!(msg.len() > 10);
    }
}

fn failing_step() -> Result<()> {
    Err(TalibError::invalid_input("test"))
}

fn chained_steps() -> Result<()> {
    failing_step()?;
    Ok(())
}

#[test]
fn test_error_chain_compatibility() {
    assert!(chained_steps().is_err());
}

fn validate(value: f64) -> Result<f64> {
    if value.is_nan() {
        return Err(TalibError::invalid_input("Value is NaN"));
    }
    Ok(value)
}

fn process(values: &[f64]) -> Result<Vec<f64>> {
    values.iter().map(|&v| validate(v)).collect()
}

#[test]
fn test_question_mark_operator() {
    let result = process(&[1.0, 2.0, 3.0]);
    assert!(result.is_ok());

    let result = process(&[1.0, f64::NAN, 3.0]);
    assert!(result.is_err());
    assert_eq!(
        result.unwrap_err().to_string(),
        "Invalid input: Value is NaN"
    );
}

#[test]
fn large_counts_are_written_in_full() {
    let err = TalibError::insufficient_data(1234567890, 0);
    assert_eq!(
        err.to_string(),
        "Insufficient data: required 1234567890 data points, got 0"
    );
    let err = TalibError::invalid_period(usize::MAX, "too large");
    assert_eq!(
        err.to_string(),
        format!("Invalid period {}: too large", usize::MAX)
    );
}

#[test]
fn decimal_text_matches_std() {
    for n in [0usize, 7, 9, 10, 99, 100, 101, 4096, 65535, 1000000007] {
        assert_eq!(ta_core::decimal::decimal_string(n), n.to_string());
    }
}

#[test]
fn parse_errors_keep_std_detail() {
    let parse_err = "".parse::<i32>().unwrap_err();
    let detail = parse_err.to_string();
    match TalibError::from(parse_err) {
        TalibError::InvalidInput { message } => {
            assert_eq!(message, format!("Failed to parse integer: {}", detail));
        }
        _ => panic!("Expected InvalidInput variant"),
    }
}
