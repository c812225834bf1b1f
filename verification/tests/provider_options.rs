use zerofs::config::{CacheConfig, ProviderOptions, Settings};
use zerofs::provider_options::{object_store_options, option_name};

fn option(name: &str, value: &str) -> (String, String) {
    (name.to_string(), value.to_string())
}

fn settings(
    aws: Option<ProviderOptions>,
    azure: Option<ProviderOptions>,
    gcp: Option<ProviderOptions>,
) -> Settings {
    Settings {
        url: "s3://bucket/data".to_string(),
        encryption_password: "correct horse".to_string(),
        cache: CacheConfig {
            root_folder: "/var/cache".to_string(),
            max_cache_size_bytes: 1,
            memory_cache_size_bytes: None,
        },
        aws,
        azure,
        gcp,
        lsm: None,
        max_bytes: None,
    }
}

#[test]
fn no_providers_give_no_options() {
    assert!(object_store_options(&settings(None, None, None)).is_empty());
}

#[test]
fn names_are_lowered_and_prefixed_and_values_kept() {
    let options = object_store_options(&settings(
        Some(vec![
            option("ACCESS_KEY_ID", "AbC"),
            option("Region", "EU-West-1"),
        ]),
        Some(vec![option("Storage_Account_Name", "Name")]),
        Some(vec![option("SERVICE_ACCOUNT", "/Path")]),
    ));
    assert_eq!(
        options,
        vec![
            option("aws_access_key_id", "AbC"),
            option("aws_region", "EU-West-1"),
            option("azure_storage_account_name", "Name"),
            option("google_service_account", "/Path"),
        ]
    );
}

#[test]
fn names_beyond_ascii_are_lowered() {
    let options = object_store_options(&settings(None, Some(vec![option("ÄÖ", "Ü")]), None));
    assert_eq!(options, vec![option("azure_äö", "Ü")]);
}

#[test]
fn the_same_name_differs_between_providers() {
    let list = || Some(vec![option("KEY", "v")]);
    let options = object_store_options(&settings(list(), list(), list()));
    assert_eq!(options.len(), 3);
    assert_ne!(options[0].0, options[1].0);
    assert_ne!(options[1].0, options[2].0);
    assert_ne!(options[2].0, options[0].0);
}

#[test]
fn an_option_name_is_prefix_and_name() {
    assert_eq!(option_name("aws_", "region"), "aws_region");
}
