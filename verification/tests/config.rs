use webhook::config::{transaction_endpoint, AppConfig, Environment};

#[test]
fn app_config_selects_environment_from_env() {
    let cfg = AppConfig::from_app_env(Some("staging"));
    assert!(matches!(cfg.environment, Environment::Staging));

    let cfg = AppConfig::from_app_env(Some("production"));
    assert!(matches!(cfg.environment, Environment::Production));
}

#[test]
fn app_config_environment_names() {
    assert_eq!(AppConfig::from_app_env(None).environment, Environment::Staging);
    assert_eq!(AppConfig::from_app_env(Some("PROD")).environment, Environment::Production);
    assert_eq!(AppConfig::from_app_env(Some("Production")).environment, Environment::Production);
    assert_eq!(AppConfig::from_app_env(Some("dev")).environment, Environment::Staging);
    assert_eq!(AppConfig::from_app_env(Some("")).environment, Environment::Staging);
}

#[test]
fn backend_url_reads_from_env_with_fallbacks() {
    let staging = AppConfig {
        environment: Environment::Staging,
    };
    assert!(staging.backend_url(None, None).contains("staging.ourpocket.com"));

    let prod = AppConfig {
        environment: Environment::Production,
    };
    assert!(prod.backend_url(None, None).contains("api.ourpocket.com"));

    let staging_url = Some("https://example-staging");
    let prod_url = Some("https://example-prod");
    assert_eq!(staging.backend_url(staging_url, prod_url), "https://example-staging".to_string());
    assert_eq!(prod.backend_url(staging_url, prod_url), "https://example-prod".to_string());
}

#[test]
fn transactions_are_posted_to_the_webhook_endpoint() {
    assert_eq!(
        transaction_endpoint("https://api.ourpocket.com"),
        "https://api.ourpocket.com/transactions/webhook"
    );
}
