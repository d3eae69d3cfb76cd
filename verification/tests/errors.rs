use baker::constants::exit_codes;
use baker::error::{Error, Result};

#[test]
fn test_result_with_custom_error_type() {
    fn returns_custom_err() -> Result<i32, String> {
        Err("custom error".to_string())
    }

    assert_eq!(returns_custom_err().unwrap_err(), "custom error");
}

#[test]
fn test_exit_codes_constant() {
    assert_eq!(exit_codes::SUCCESS, 0);
    assert_eq!(exit_codes::FAILURE, 1);
}

#[test]
fn error_messages_name_their_cause() {
    assert_eq!(
        Error::ConfigValidation("bad".to_string()).to_string(),
        "Config validation failed: bad"
    );
    assert_eq!(
        Error::OutputDirectoryExistsError { output_dir: "out".to_string() }.to_string(),
        "Output directory 'out' already exists. Use --force to overwrite it."
    );
}

#[test]
fn test_config_validation_error_display() {
    let err = Error::ConfigValidation("missing required field".to_string());
    assert_eq!(err.to_string(), "Config validation failed: missing required field");
}

#[test]
fn test_config_not_found_error_display() {
    let err = Error::ConfigNotFound {
        template_dir: "/path/to/template".to_string(),
        config_files: "baker.json, baker.yaml".to_string(),
    };
    assert_eq!(
        err.to_string(),
        "Configuration file not found in '/path/to/template'. Expected one of: baker.json, baker.yaml"
    );
}

#[test]
fn test_output_directory_exists_error_display() {
    let err = Error::OutputDirectoryExistsError { output_dir: "/path/to/output".to_string() };
    assert_eq!(err.to_string(), "Output directory '/path/to/output' already exists. Use --force to overwrite it.");
}

#[test]
fn test_template_does_not_exist_error_display() {
    let err = Error::TemplateDoesNotExistsError { template_dir: "/path/to/template".to_string() };
    assert_eq!(err.to_string(), "Template directory '/path/to/template' does not exist");
}

#[test]
fn test_process_error_display() {
    let err = Error::ProcessError { source_path: "/path/to/file".to_string(), e: "invalid path".to_string() };
    assert_eq!(err.to_string(), "Cannot process path '/path/to/file': invalid path");
}

#[test]
fn test_error_debug_impl() {
    let err = Error::ConfigValidation("test".to_string());
    let debug_str = format!("{err:?}");
    assert!(debug_str.contains("ConfigValidation"));
    assert!(debug_str.contains("test"));
}

#[test]
fn test_result_type_alias() {
    fn returns_ok() -> Result<i32> {
        Ok(42)
    }
    fn returns_err() -> Result<i32> {
        Err(Error::ConfigValidation("test".to_string()))
    }
    assert_eq!(returns_ok().unwrap(), 42);
    assert!(returns_err().is_err());
}
