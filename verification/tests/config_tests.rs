use pamaxie_api::config::{
    config_fault_message, get_aws_access_key, get_aws_default_region, get_aws_secret_access_key,
    get_aws_sqs_queue_url, get_env_variable, get_pam_auth_token, get_pam_db_url, get_pam_url,
    get_s3_access_key, get_s3_bucket, get_s3_region, get_s3_secret_key, get_s3_url,
    s3_region_warning, validate_client_configuration, AppConfig, ConfigFault,
};

fn full_config() -> AppConfig {
    AppConfig {
        s3_access_key: "ak".to_string(),
        s3_secret_key: "sk".to_string(),
        s3_bucket: "bucket".to_string(),
        s3_region: "region".to_string(),
        s3_url: "s3.example".to_string(),
        pam_auth_token: "SECRET-REDACTED".to_string(),
        pam_url: "https://api.example".to_string(),
        pam_db_url: "https://db.example".to_string(),
        aws_access_key: "aws-ak".to_string(),
        aws_secret_access_key: "aws-sk".to_string(),
        aws_sqs_queue_url: "https://sqs.example/q0".to_string(),
        aws_default_region: "us-east-1".to_string(),
    }
}

#[test]
fn env_value_present_wins() {
    let r = get_env_variable(Some("set".to_string()), "fallback".to_string());
    assert_eq!(r, "set");
}

#[test]
fn env_value_empty_falls_back() {
    let r = get_env_variable(Some(String::new()), "fallback".to_string());
    assert_eq!(r, "fallback");
}

#[test]
fn env_value_absent_falls_back() {
    let r = get_env_variable(None, "fallback".to_string());
    assert_eq!(r, "fallback");
}

#[test]
fn getter_defaults() {
    assert_eq!(get_pam_url(None), "https://api.pamaxie.com");
    assert_eq!(get_pam_db_url(None), "");
    assert_eq!(get_pam_auth_token(None), "");
    assert_eq!(get_s3_access_key(None), "");
    assert_eq!(get_s3_secret_key(None), "");
    assert_eq!(get_s3_bucket(None), "pam-dev");
    assert_eq!(get_s3_region(None), "");
    assert_eq!(get_s3_url(None), "sfo3.digitaloceanspaces.com");
    assert_eq!(get_aws_access_key(None), "");
    assert_eq!(get_aws_secret_access_key(None), "");
    assert_eq!(get_aws_default_region(None), "us-east-1");
    assert_eq!(get_aws_sqs_queue_url(None), "");
}

#[test]
fn getter_overrides() {
    assert_eq!(get_pam_url(Some("http://local".to_string())), "http://local");
    assert_eq!(get_aws_default_region(Some("eu-west-1".to_string())), "eu-west-1");
}

#[test]
fn complete_config_has_no_faults() {
    let faults = validate_client_configuration(&full_config());
    assert!(faults.is_empty());
    assert!(!s3_region_warning(&full_config()));
}

#[test]
fn missing_settings_are_each_reported_in_order() {
    let mut cfg = full_config();
    cfg.s3_access_key = String::new();
    cfg.pam_db_url = String::new();
    cfg.aws_default_region = String::new();
    let faults = validate_client_configuration(&cfg);
    assert_eq!(
        faults,
        vec![ConfigFault::S3AccessKey, ConfigFault::PamDbUrl, ConfigFault::AwsDefaultRegion]
    );
}

#[test]
fn empty_region_only_warns() {
    let mut cfg = full_config();
    cfg.s3_region = String::new();
    assert!(validate_client_configuration(&cfg).is_empty());
    assert!(s3_region_warning(&cfg));
}

#[test]
fn fault_messages_name_the_variable() {
    let m = config_fault_message(&ConfigFault::AwsSqsQueueUrl);
    assert_eq!(m, "The AWS_SQS_QUEUE_URL_0 environment variable has not been set.");
    let m = config_fault_message(&ConfigFault::PamAuthToken);
    assert_eq!(m, "The PAM_AUTH_TOKEN environment variable has not been set.");
}
