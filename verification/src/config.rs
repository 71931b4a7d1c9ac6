//! Configuration resolution.
//!
//! The service reads its settings from the process environment. The
//! surrounding binary performs the actual environment lookups and hands the
//! raw readings (present or absent) to the functions here, which resolve each
//! setting to its final value and decide whether the configuration is
//! complete enough to start.

use vstd::prelude::*;
use vstd::string::*;

verus! {

/// The value a setting resolves to: the environment reading when it is
/// present and non-empty, the alternate otherwise.
pub open spec fn spec_resolved(env_value: Option<String>, alternate: Seq<char>) -> Seq<char> {
    match env_value {
        Some(v) => if v@.len() > 0 {
            v@
        } else {
            alternate
        },
        None => alternate,
    }
}

/// Resolves one environment reading against its alternate value.
pub fn get_env_variable(env_value: Option<String>, alternate_value: String) -> (r: String)
    ensures
        r@ == spec_resolved(env_value, alternate_value@),
{
    match env_value {
        Some(v) => {
            if v.as_str().is_empty() {
                alternate_value
            } else {
                v
            }
        },
        None => alternate_value,
    }
}

/// `PAM_BASE_URL`: the public base URL under which workers fetch staged
/// payloads.
pub fn get_pam_url(env_value: Option<String>) -> (r: String)
    ensures
        r@ == spec_resolved(env_value, "https://api.pamaxie.com"@),
{
    get_env_variable(env_value, String::from_str("https://api.pamaxie.com"))
}

/// `DB_API_URL`: the base URL of the Database API.
pub fn get_pam_db_url(env_value: Option<String>) -> (r: String)
    ensures
        r@ == spec_resolved(env_value, ""@),
{
    proof {
        reveal_strlit("");
    }
    get_env_variable(env_value, String::new())
}

/// `PAM_AUTH_TOKEN`: the long-lived key used to log in to the Database API.
pub fn get_pam_auth_token(env_value: Option<String>) -> (r: String)
    ensures
        r@ == spec_resolved(env_value, ""@),
{
    proof {
        reveal_strlit("");
    }
    get_env_variable(env_value, String::new())
}

/// `S3AccessKeyId`: the object-store access key id.
pub fn get_s3_access_key(env_value: Option<String>) -> (r: String)
    ensures
        r@ == spec_resolved(env_value, ""@),
{
    proof {
        reveal_strlit("");
    }
    get_env_variable(env_value, String::new())
}

/// `S3AccessKey`: the object-store secret key.
pub fn get_s3_secret_key(env_value: Option<String>) -> (r: String)
    ensures
        r@ == spec_resolved(env_value, ""@),
{
    proof {
        reveal_strlit("");
    }
    get_env_variable(env_value, String::new())
}

/// `S3Bucket`: the bucket that holds staged payloads.
pub fn get_s3_bucket(env_value: Option<String>) -> (r: String)
    ensures
        r@ == spec_resolved(env_value, "pam-dev"@),
{
    get_env_variable(env_value, String::from_str("pam-dev"))
}

/// `S3Region`: the object-store region; may stay empty.
pub fn get_s3_region(env_value: Option<String>) -> (r: String)
    ensures
        r@ == spec_resolved(env_value, ""@),
{
    proof {
        reveal_strlit("");
    }
    get_env_variable(env_value, String::new())
}

/// `S3Url`: the object-store endpoint.
pub fn get_s3_url(env_value: Option<String>) -> (r: String)
    ensures
        r@ == spec_resolved(env_value, "sfo3.digitaloceanspaces.com"@),
{
    get_env_variable(env_value, String::from_str("sfo3.digitaloceanspaces.com"))
}

/// `AWS_ACCESS_KEY_ID`: the queue access key id.
pub fn get_aws_access_key(env_value: Option<String>) -> (r: String)
    ensures
        r@ == spec_resolved(env_value, ""@),
{
    proof {
        reveal_strlit("");
    }
    get_env_variable(env_value, String::new())
}

/// `AWS_SECRET_ACCESS_KEY`: the queue secret key.
pub fn get_aws_secret_access_key(env_value: Option<String>) -> (r: String)
    ensures
        r@ == spec_resolved(env_value, ""@),
{
    proof {
        reveal_strlit("");
    }
    get_env_variable(env_value, String::new())
}

/// `AWS_DEFAULT_REGION`: the queue region.
pub fn get_aws_default_region(env_value: Option<String>) -> (r: String)
    ensures
        r@ == spec_resolved(env_value, "us-east-1"@),
{
    get_env_variable(env_value, String::from_str("us-east-1"))
}

/// `AWS_SQS_QUEUE_URL_0`: the URL of the work queue.
pub fn get_aws_sqs_queue_url(env_value: Option<String>) -> (r: String)
    ensures
        r@ == spec_resolved(env_value, ""@),
{
    proof {
        reveal_strlit("");
    }
    get_env_variable(env_value, String::new())
}

/// The fully resolved configuration the service starts from.
pub struct AppConfig {
    pub s3_access_key: String,
    pub s3_secret_key: String,
    pub s3_bucket: String,
    pub s3_region: String,
    pub s3_url: String,
    pub pam_auth_token: String,
    pub pam_url: String,
    pub pam_db_url: String,
    pub aws_access_key: String,
    pub aws_secret_access_key: String,
    pub aws_sqs_queue_url: String,
    pub aws_default_region: String,
}

/// A required setting that resolved to the empty string.
#[derive(PartialEq, Eq, Structural, Clone, Copy, Debug)]
pub enum ConfigFault {
    S3AccessKey,
    S3SecretKey,
    S3Bucket,
    S3Url,
    PamAuthToken,
    PamUrl,
    PamDbUrl,
    AwsAccessKey,
    AwsSecretKey,
    AwsSqsQueueUrl,
    AwsDefaultRegion,
}

/// The faults a configuration carries, in the order start-up reports them.
pub open spec fn spec_config_faults(cfg: AppConfig) -> Seq<ConfigFault> {
    let s = Seq::<ConfigFault>::empty();
    let s = if cfg.s3_access_key@.len() == 0 {
        s.push(ConfigFault::S3AccessKey)
    } else {
        s
    };
    let s = if cfg.s3_secret_key@.len() == 0 {
        s.push(ConfigFault::S3SecretKey)
    } else {
        s
    };
    let s = if cfg.s3_bucket@.len() == 0 {
        s.push(ConfigFault::S3Bucket)
    } else {
        s
    };
    let s = if cfg.s3_url@.len() == 0 {
        s.push(ConfigFault::S3Url)
    } else {
        s
    };
    let s = if cfg.pam_auth_token@.len() == 0 {
        s.push(ConfigFault::PamAuthToken)
    } else {
        s
    };
    let s = if cfg.pam_url@.len() == 0 {
        s.push(ConfigFault::PamUrl)
    } else {
        s
    };
    let s = if cfg.pam_db_url@.len() == 0 {
        s.push(ConfigFault::PamDbUrl)
    } else {
        s
    };
    let s = if cfg.aws_access_key@.len() == 0 {
        s.push(ConfigFault::AwsAccessKey)
    } else {
        s
    };
    let s = if cfg.aws_secret_access_key@.len() == 0 {
        s.push(ConfigFault::AwsSecretKey)
    } else {
        s
    };
    let s = if cfg.aws_sqs_queue_url@.len() == 0 {
        s.push(ConfigFault::AwsSqsQueueUrl)
    } else {
        s
    };
    if cfg.aws_default_region@.len() == 0 {
        s.push(ConfigFault::AwsDefaultRegion)
    } else {
        s
    }
}

/// Checks a resolved configuration and reports every required setting that is
/// empty. Start-up must abort when the result is non-empty; an empty
/// `S3Region` is only worth a warning (see [`s3_region_warning`]).
pub fn validate_client_configuration(cfg: &AppConfig) -> (faults: Vec<ConfigFault>)
    ensures
        faults@ == spec_config_faults(*cfg),
{
    let mut faults: Vec<ConfigFault> = Vec::new();
    if cfg.s3_access_key.as_str().is_empty() {
        faults.push(ConfigFault::S3AccessKey);
    }
    if cfg.s3_secret_key.as_str().is_empty() {
        faults.push(ConfigFault::S3SecretKey);
    }
    if cfg.s3_bucket.as_str().is_empty() {
        faults.push(ConfigFault::S3Bucket);
    }
    if cfg.s3_url.as_str().is_empty() {
        faults.push(ConfigFault::S3Url);
    }
    if cfg.pam_auth_token.as_str().is_empty() {
        faults.push(ConfigFault::PamAuthToken);
    }
    if cfg.pam_url.as_str().is_empty() {
        faults.push(ConfigFault::PamUrl);
    }
    if cfg.pam_db_url.as_str().is_empty() {
        faults.push(ConfigFault::PamDbUrl);
    }
    if cfg.aws_access_key.as_str().is_empty() {
        faults.push(ConfigFault::AwsAccessKey);
    }
    if cfg.aws_secret_access_key.as_str().is_empty() {
        faults.push(ConfigFault::AwsSecretKey);
    }
    if cfg.aws_sqs_queue_url.as_str().is_empty() {
        faults.push(ConfigFault::AwsSqsQueueUrl);
    }
    if cfg.aws_default_region.as_str().is_empty() {
        faults.push(ConfigFault::AwsDefaultRegion);
    }
    proof {
        assert(faults@ =~= spec_config_faults(*cfg));
    }
    faults
}

/// True when start-up should warn that `S3Region` is empty.
pub fn s3_region_warning(cfg: &AppConfig) -> (r: bool)
    ensures
        r <==> cfg.s3_region@.len() == 0,
{
    cfg.s3_region.as_str().is_empty()
}

/// The start-up message for one missing setting, naming its environment
/// variable.
pub fn config_fault_message(f: &ConfigFault) -> (r: String)
    ensures
        (match f {
            ConfigFault::S3AccessKey => r@ == "The S3AccessKeyId environment variable has not been set."@,
            ConfigFault::S3SecretKey => r@ == "The S3AccessKey environment variable has not been set."@,
            ConfigFault::S3Bucket => r@ == "The S3Bucket environment variable has not been set."@,
            ConfigFault::S3Url => r@ == "The S3Url environment variable has not been set."@,
            ConfigFault::PamAuthToken => r@ == "The PAM_AUTH_TOKEN environment variable has not been set."@,
            ConfigFault::PamUrl => r@ == "The PAM_BASE_URL environment variable has not been set."@,
            ConfigFault::PamDbUrl => r@ == "The DB_API_URL environment variable has not been set."@,
            ConfigFault::AwsAccessKey => r@ == "The AWS_ACCESS_KEY_ID environment variable has not been set."@,
            ConfigFault::AwsSecretKey => r@ == "The AWS_SECRET_ACCESS_KEY environment variable has not been set."@,
            ConfigFault::AwsSqsQueueUrl => r@ == "The AWS_SQS_QUEUE_URL_0 environment variable has not been set."@,
            ConfigFault::AwsDefaultRegion => r@ == "The AWS_DEFAULT_REGION environment variable has not been set."@,
        }),
{
    match f {
        ConfigFault::S3AccessKey => String::from_str(
            "The S3AccessKeyId environment variable has not been set.",
        ),
        ConfigFault::S3SecretKey => String::from_str(
            "The S3AccessKey environment variable has not been set.",
        ),
        ConfigFault::S3Bucket => String::from_str(
            "The S3Bucket environment variable has not been set.",
        ),
        ConfigFault::S3Url => String::from_str(
            "The S3Url environment variable has not been set.",
        ),
        ConfigFault::PamAuthToken => String::from_str(
            "The PAM_AUTH_TOKEN environment variable has not been set.",
        ),
        ConfigFault::PamUrl => String::from_str(
            "The PAM_BASE_URL environment variable has not been set.",
        ),
        ConfigFault::PamDbUrl => String::from_str(
            "The DB_API_URL environment variable has not been set.",
        ),
        ConfigFault::AwsAccessKey => String::from_str(
            "The AWS_ACCESS_KEY_ID environment variable has not been set.",
        ),
        ConfigFault::AwsSecretKey => String::from_str(
            "The AWS_SECRET_ACCESS_KEY environment variable has not been set.",
        ),
        ConfigFault::AwsSqsQueueUrl => String::from_str(
            "The AWS_SQS_QUEUE_URL_0 environment variable has not been set.",
        ),
        ConfigFault::AwsDefaultRegion => String::from_str(
            "The AWS_DEFAULT_REGION environment variable has not been set.",
        ),
    }
}

} // verus!
