use api_gateway::config::require_setting;
use api_gateway::error::{AuthError, Error};

#[test]
fn present_setting_is_handed_out() {
    assert_eq!(
        require_setting("AUTH_SECRET", Some("s3cr3t".to_string())),
        Ok("s3cr3t".to_string())
    );
    assert_eq!(require_setting("AUTH_SECRET", Some(String::new())), Ok(String::new()));
}

#[test]
fn missing_setting_is_a_configuration_error_that_names_it() {
    assert_eq!(
        require_setting("ORDER_ENDPOINT", None),
        Err(Error::Configuration { variable: "ORDER_ENDPOINT".to_string() })
    );
    match require_setting("INFLUXDB_URL", None) {
        Err(error) => assert_eq!(error.message(), "Can not parse variable: INFLUXDB_URL"),
        Ok(value) => panic!("found a value: {}", value),
    }
}

#[test]
fn refused_credential_converts_to_a_gateway_error() {
    assert_eq!(Error::from(AuthError::Missing), Error::Credential(AuthError::Missing));
    assert_eq!(Error::from(AuthError::Invalid), Error::Credential(AuthError::Invalid));
    assert_eq!(Error::from(AuthError::Expired), Error::Credential(AuthError::Expired));
}
