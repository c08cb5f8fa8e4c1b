//! Operator configuration, read once at startup, and its defaults.
use vstd::prelude::*;

verus! {

/// Where the HTTP server listens.
#[derive(Clone, Debug)]
pub struct ServerConfig {
    pub host: String,
    pub port: u16,
}

/// Token settings: the secret that keys are derived from and the two lifetimes.
#[derive(Clone, Debug)]
pub struct JwtConfig {
    pub secret: String,
    pub expiration_hours: i64,
    pub refresh_expiration_days: i64,
}

/// Connection to the relational store.
#[derive(Clone, Debug)]
pub struct DatabaseConfig {
    pub url: String,
    pub max_connections: u32,
    pub min_connections: u32,
}

/// Object storage for image bytes.
#[derive(Clone, Debug)]
pub struct StorageConfig {
    pub endpoint: String,
    pub bucket: String,
    pub region: String,
    pub access_key: String,
    pub secret_key: String,
    pub presign_expiry_secs: u64,
    pub public_endpoint: Option<String>,
}

/// Message queue that analysis jobs are handed to.
#[derive(Clone, Debug)]
pub struct RabbitmqConfig {
    pub host: String,
    pub port: u16,
    pub user: String,
    pub password: String,
    pub analysis_queue: String,
}

pub fn default_host() -> (r: String)
    ensures
        r@ == "0.0.0.0"@,
{
    "0.0.0.0".to_string()
}

pub fn default_port() -> (r: u16)
    ensures
        r == 8080,
{
    8080
}

pub fn default_db_max_conn() -> (r: u32)
    ensures
        r == 10,
{
    10
}

pub fn default_db_min_conn() -> (r: u32)
    ensures
        r == 2,
{
    2
}

/// Access tokens live this many hours unless configured otherwise.
pub fn default_jwt_expiration() -> (r: i64)
    ensures
        r == 24,
{
    24
}

/// Refresh tokens live this many days unless configured otherwise.
pub fn default_jwt_refresh_expiration() -> (r: i64)
    ensures
        r == 7,
{
    7
}

pub fn default_s3_endpoint() -> (r: String)
    ensures
        r@ == "http://localhost:9000"@,
{
    "http://localhost:9000".to_string()
}

pub fn default_s3_bucket() -> (r: String)
    ensures
        r@ == "mybucket"@,
{
    "mybucket".to_string()
}

pub fn default_s3_region() -> (r: String)
    ensures
        r@ == "us-east-1"@,
{
    "us-east-1".to_string()
}

pub fn default_s3_access_key() -> (r: String)
    ensures
        r@ == "minioadmin"@,
{
    "minioadmin".to_string()
}

pub fn default_s3_secret_key() -> (r: String)
    ensures
        r@ == "minioadmin"@,
{
    "minioadmin".to_string()
}

pub fn default_presign_expiry_secs() -> (r: u64)
    ensures
        r == 3600,
{
    3600
}

pub fn default_rabbitmq_host() -> (r: String)
    ensures
        r@ == "localhost"@,
{
    "localhost".to_string()
}

pub fn default_rabbitmq_port() -> (r: u16)
    ensures
        r == 5672,
{
    5672
}

pub fn default_rabbitmq_user() -> (r: String)
    ensures
        r@ == "rabbitmq"@,
{
    "rabbitmq".to_string()
}

pub fn default_rabbitmq_password() -> (r: String)
    ensures
        r@ == "rabbitmq"@,
{
    "rabbitmq".to_string()
}

pub fn default_analysis_queue() -> (r: String)
    ensures
        r@ == "analysis_jobs"@,
{
    "analysis_jobs".to_string()
}

impl Default for StorageConfig {
    fn default() -> (r: StorageConfig)
        ensures
            r.endpoint@ == "http://localhost:9000"@,
            r.bucket@ == "mybucket"@,
            r.region@ == "us-east-1"@,
            r.access_key@ == "minioadmin"@,
            r.secret_key@ == "minioadmin"@,
            r.presign_expiry_secs == 3600,
            r.public_endpoint is None,
    {
        StorageConfig {
            endpoint: default_s3_endpoint(),
            bucket: default_s3_bucket(),
            region: default_s3_region(),
            access_key: default_s3_access_key(),
            secret_key: default_s3_secret_key(),
            presign_expiry_secs: default_presign_expiry_secs(),
            public_endpoint: None,
        }
    }
}

impl Default for RabbitmqConfig {
    fn default() -> (r: RabbitmqConfig)
        ensures
            r.host@ == "localhost"@,
            r.port == 5672,
            r.user@ == "rabbitmq"@,
            r.password@ == "rabbitmq"@,
            r.analysis_queue@ == "analysis_jobs"@,
    {
        RabbitmqConfig {
            host: default_rabbitmq_host(),
            port: default_rabbitmq_port(),
            user: default_rabbitmq_user(),
            password: default_rabbitmq_password(),
            analysis_queue: default_analysis_queue(),
        }
    }
}

} // verus!
