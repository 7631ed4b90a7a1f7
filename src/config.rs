use vstd::prelude::*;
use crate::error::HandlerError;

verus! {

/// Environment variable that names the database cluster.
pub const RESOURCE_ARN_VAR: &'static str = "AURORA_DB_RESOURCE_ARN";

/// Environment variable that names the secret holding the database credentials.
pub const SECRET_ARN_VAR: &'static str = "AURORA_DB_SECRET_ARN";

/// Environment variable that names the region of the database.
pub const REGION_VAR: &'static str = "AURORA_DB_REGION";

/// The database that holds the addon table.
pub const DATABASE: &'static str = "addons";

/// One of the three settings that the catalog needs.
#[derive(Clone, Copy, Debug, PartialEq, Eq)]
pub enum Setting {
    ResourceArn,
    SecretArn,
    Region,
}

impl Setting {
    pub open spec fn spec_variable(self) -> Seq<char> {
        match self {
            Setting::ResourceArn => RESOURCE_ARN_VAR@,
            Setting::SecretArn => SECRET_ARN_VAR@,
            Setting::Region => REGION_VAR@,
        }
    }

    /// The environment variable the setting is read from.
    pub fn variable(&self) -> (r: &'static str)
        ensures
            r@ == self.spec_variable(),
    {
        match self {
            Setting::ResourceArn => RESOURCE_ARN_VAR,
            Setting::SecretArn => SECRET_ARN_VAR,
            Setting::Region => REGION_VAR,
        }
    }
}

/// Where the catalog lives, read once for each request.
#[derive(Clone, Debug)]
pub struct Config {
    pub resource_arn: String,
    pub secret_arn: String,
    pub region: String,
}

/// The configuration that three looked-up settings give: all three must be
/// there, and the first one missing, in the order resource, secret, region,
/// is the error.
pub open spec fn settings_result(
    resource_arn: Option<String>,
    secret_arn: Option<String>,
    region: Option<String>,
) -> Result<Config, HandlerError> {
    match (resource_arn, secret_arn, region) {
        (Some(resource_arn), Some(secret_arn), Some(region)) => Ok(
            Config { resource_arn, secret_arn, region },
        ),
        (None, _, _) => Err(HandlerError::MissingSetting(Setting::ResourceArn)),
        (Some(_), None, _) => Err(HandlerError::MissingSetting(Setting::SecretArn)),
        (Some(_), Some(_), None) => Err(HandlerError::MissingSetting(Setting::Region)),
    }
}

impl Config {
    /// Builds the configuration from the values of the three environment
    /// variables, `None` for one that is not set.
    pub fn from_settings(
        resource_arn: Option<String>,
        secret_arn: Option<String>,
        region: Option<String>,
    ) -> (r: Result<Config, HandlerError>)
        ensures
            r == settings_result(resource_arn, secret_arn, region),
            r is Ok <==> (resource_arn is Some && secret_arn is Some && region is Some),
    {
        match (resource_arn, secret_arn, region) {
            (Some(resource_arn), Some(secret_arn), Some(region)) => Ok(
                Config { resource_arn, secret_arn, region },
            ),
            (None, _, _) => Err(HandlerError::MissingSetting(Setting::ResourceArn)),
            (Some(_), None, _) => Err(HandlerError::MissingSetting(Setting::SecretArn)),
            (Some(_), Some(_), None) => Err(HandlerError::MissingSetting(Setting::Region)),
        }
    }
}

} // verus!
