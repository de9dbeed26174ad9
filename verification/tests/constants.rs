use cloudwatch_viewer_web_api::logging_table::record_batch::MAX_TEXT_BYTES;
use cloudwatch_viewer_web_api::utils::constants::env::LOG_GROUP_NAME_ENV_VAR;
use cloudwatch_viewer_web_api::utils::constants::prod;

#[test]
fn production_settings() {
    assert_eq!(prod::APP_ADDRESS, "0.0.0.0:8080");
    assert_eq!(prod::MAX_ROWS, 1000);
    assert_eq!(prod::AWS_MAX_RETRIES, 10);
    assert_eq!(prod::REGION, "eu-central-1");
    assert_eq!(prod::LOGGING_TABLE_NAME, "logs");
}

#[test]
fn test_settings() {
    assert_eq!(cloudwatch_viewer_web_api::utils::constants::test::APP_ADDRESS, "127.0.0.1:0");
    assert_eq!(cloudwatch_viewer_web_api::utils::constants::test::MAX_ROWS, 1000);
    assert_eq!(cloudwatch_viewer_web_api::utils::constants::test::AWS_MAX_RETRIES, 10);
    assert_eq!(cloudwatch_viewer_web_api::utils::constants::test::REGION, "eu-central-1");
    assert_eq!(cloudwatch_viewer_web_api::utils::constants::test::LOGGING_TABLE_NAME, "logs");
}

#[test]
fn environment_variable_names() {
    assert_eq!(LOG_GROUP_NAME_ENV_VAR, "LOG_GROUP_NAME");
}

#[test]
fn text_columns_address_bytes_with_signed_32_bit_offsets() {
    assert_eq!(MAX_TEXT_BYTES, i32::MAX as usize);
}
