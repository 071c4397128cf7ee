use std::io::Write;

use rpc_gateway::chain::{Chain, ChainId};
use rpc_gateway::settings::{
    ChainsToEndpoints, RawChain, RawSettings, RawTargetEndpoint, Settings, SettingsError,
};
use rpc_gateway::target_endpoint::{EndpointUrl, InitTargetEndpointError, TargetEndpoint, TargetEndpointBase};

/// The example settings file, `example_configs/example.toml`.
const EXAMPLE_CONFIG: &str = r#"
[[chains]]
chain_id = 1
block_time = 12

[[chains]]
chain_id = 8453
block_time = 2

[[chains]]
chain_id = 11155111
block_time = 12

[[chains]]
chain_id = 84532
block_time = 2

[[target_endpoints]]
name = "first_endpoint"
url = "http://localhost:8080"
chain_id = 1

[[target_endpoints]]
name = "second_endpoint"
url = "http://localhost:8081"
chain_id = 1

[[target_endpoints]]
name = "third_endpoint"
url = "http://localhost:8082"
chain_id = 8453

[[target_endpoints]]
name = "fourth_endpoint"
url = "http://localhost:8083"
chain_id = 84532

[[target_endpoints]]
name = "fifth_endpoint"
url = "ws://localhost:8084"
chain_id = 84532
"#;

/// Writes the example settings to a fresh `.toml` file and gives the file (it is removed when
/// dropped) and its path without the extension, as settings files are named.
fn example_config() -> (tempfile::NamedTempFile, String) {
    config_file(EXAMPLE_CONFIG)
}

/// Writes `text` to a fresh `.toml` file, as [`example_config`] does.
fn config_file(text: &str) -> (tempfile::NamedTempFile, String) {
    let mut file = tempfile::Builder::new().suffix(".toml").tempfile().unwrap();
    file.write_all(text.as_bytes()).unwrap();
    file.flush().unwrap();
    let path = file.path().to_str().unwrap().strip_suffix(".toml").unwrap().to_string();
    (file, path)
}

fn endpoint_url(text: &str) -> EndpointUrl {
    let u = url::Url::parse(text).unwrap();
    EndpointUrl { scheme: u.scheme().to_string(), href: u.as_str().to_string() }
}

fn endpoint(name: &str, text: &str, chain: &'static Chain) -> TargetEndpoint {
    TargetEndpoint::try_from_base(TargetEndpointBase {
        name: name.to_string(),
        url: endpoint_url(text),
        chain,
    })
    .unwrap()
}

#[test]
pub fn read_raw_settings_chains_from_toml() {
    let (_file, path) = example_config();
    let raw_settings = RawSettings::from_config_file(&path).unwrap();
    let chains = raw_settings.chains.unwrap_or(vec![]);
    assert_eq!(
        chains,
        vec![
            RawChain { block_time: Some(12), chain_id: 1 },
            RawChain { chain_id: 8453, block_time: Some(2) },
            RawChain { chain_id: 11155111, block_time: Some(12) },
            RawChain { chain_id: 84532, block_time: Some(2) },
        ],
    );
}

#[test]
pub fn read_raw_settings_target_endpoints_from_toml() {
    let (_file, path) = example_config();
    let raw_settings = RawSettings::from_config_file(&path).unwrap();

    assert_eq!(
        raw_settings.target_endpoints,
        vec![
            RawTargetEndpoint {
                name: "first_endpoint".to_string(),
                url: "http://localhost:8080".to_string(),
                chain_id: 1,
            },
            RawTargetEndpoint {
                name: "second_endpoint".to_string(),
                url: "http://localhost:8081".to_string(),
                chain_id: 1,
            },
            RawTargetEndpoint {
                name: "third_endpoint".to_string(),
                url: "http://localhost:8082".to_string(),
                chain_id: 8453,
            },
            RawTargetEndpoint {
                name: "fourth_endpoint".to_string(),
                url: "http://localhost:8083".to_string(),
                chain_id: 84532,
            },
            RawTargetEndpoint {
                name: "fifth_endpoint".to_string(),
                url: "ws://localhost:8084".to_string(),
                chain_id: 84532,
            },
        ]
    );
}

#[test]
pub fn raw_settings_to_settings() {
    let (_file, path) = example_config();
    let raw_settings = RawSettings::from_config_file(&path).unwrap();
    let actual_settings: Settings = Settings::try_from_raw(raw_settings).unwrap();
    let eth_mainnet = Chain::new(ChainId::from(1), Some(12)).leak();
    let first_endpoint = endpoint("first_endpoint", "http://localhost:8080", eth_mainnet);
    let second_endpoint = endpoint("second_endpoint", "http://localhost:8081", eth_mainnet);
    let base_mainnet = Chain::new(ChainId::from(8453), Some(2)).leak();
    let third_endpoint = endpoint("third_endpoint", "http://localhost:8082", base_mainnet);
    let base_sepolia = Chain::new(ChainId::from(84532), Some(2)).leak();
    let fourth_endpoint = endpoint("fourth_endpoint", "http://localhost:8083", base_sepolia);
    let fifth_endpoint = endpoint("fifth_endpoint", "ws://localhost:8084", base_sepolia);

    let chains_to_targets = ChainsToEndpoints::from_endpoints(vec![
        first_endpoint,
        second_endpoint,
        third_endpoint,
        fourth_endpoint,
        fifth_endpoint,
    ]);

    let expected_settings = Settings::new(chains_to_targets);

    assert_eq!(actual_settings, expected_settings);
}

#[test]
fn missing_settings_file_is_a_config_error() {
    let result = RawSettings::from_config_file("example_configs/no_such_file");
    assert!(matches!(result, Err(rpc_gateway::settings::RawSettingsError::Config(_))));
}

#[test]
fn endpoint_of_unlisted_chain_gets_a_chain_without_block_time() {
    let raw = RawSettings {
        chains: None,
        target_endpoints: vec![RawTargetEndpoint {
            name: "only".to_string(),
            chain_id: 7,
            url: "https://node.example".to_string(),
        }],
    };
    let settings = Settings::try_from_raw(raw).unwrap();
    let targets = settings.chains_to_targets.get(&ChainId(7)).unwrap();
    assert_eq!(targets.chain.block_time, None);
    assert_eq!(targets.chain.chain_id, ChainId(7));
    assert_eq!(targets.http.len(), 1);
    assert_eq!(targets.http[0].base().url.href, "https://node.example/");
}

#[test]
fn bad_url_fails_settings() {
    let raw = RawSettings {
        chains: None,
        target_endpoints: vec![RawTargetEndpoint {
            name: "bad".to_string(),
            chain_id: 1,
            url: "not a url".to_string(),
        }],
    };
    assert!(matches!(Settings::try_from_raw(raw), Err(SettingsError::UrlParseError(_))));
}

#[test]
fn unserved_scheme_fails_settings() {
    let raw = RawSettings {
        chains: Some(vec![RawChain { chain_id: 1, block_time: Some(12) }]),
        target_endpoints: vec![
            RawTargetEndpoint {
                name: "fine".to_string(),
                chain_id: 1,
                url: "http://localhost:1".to_string(),
            },
            RawTargetEndpoint {
                name: "ftp".to_string(),
                chain_id: 1,
                url: "ftp://localhost:2".to_string(),
            },
        ],
    };
    assert!(matches!(
        Settings::try_from_raw(raw),
        Err(SettingsError::InitTargetEndpointError(InitTargetEndpointError::WrongScheme))
    ));
}

#[test]
fn fields_that_are_not_read_may_hold_tables_and_arrays() {
    let text = r#"
[[chains]]
chain_id = 1
block_time = 12
tags = ["main", "l1"]

[[target_endpoints]]
name = "first_endpoint"
url = "http://localhost:8080"
chain_id = 1
limits = { rps = 10 }
"#;
    let (_file, path) = config_file(text);
    let raw = RawSettings::from_config_file(&path).unwrap();
    assert_eq!(raw.chains, Some(vec![RawChain { chain_id: 1, block_time: Some(12) }]));
    assert_eq!(
        raw.target_endpoints,
        vec![RawTargetEndpoint {
            name: "first_endpoint".to_string(),
            chain_id: 1,
            url: "http://localhost:8080".to_string(),
        }]
    );
}

#[test]
fn a_read_field_holding_an_array_is_refused() {
    let text = r#"
[[target_endpoints]]
name = ["first_endpoint"]
url = "http://localhost:8080"
chain_id = 1
"#;
    let (_file, path) = config_file(text);
    let result = RawSettings::from_config_file(&path);
    assert!(matches!(result, Err(rpc_gateway::settings::RawSettingsError::NotText)));
}

#[test]
fn numbers_are_read_as_the_config_crate_reads_them() {
    let text = r#"
[[chains]]
chain_id = "8453"
block_time = 2.5

[[target_endpoints]]
name = 7
url = "http://localhost:8080"
chain_id = 8453
"#;
    let (_file, path) = config_file(text);
    let raw = RawSettings::from_config_file(&path).unwrap();
    assert_eq!(raw.chains, Some(vec![RawChain { chain_id: 8453, block_time: Some(3) }]));
    assert_eq!(raw.target_endpoints[0].name, "7");
}

#[test]
fn a_number_field_without_a_number_is_refused() {
    let text = r#"
[[target_endpoints]]
name = "first_endpoint"
url = "http://localhost:8080"
chain_id = "0x1"
"#;
    let (_file, path) = config_file(text);
    let result = RawSettings::from_config_file(&path);
    assert!(matches!(result, Err(rpc_gateway::settings::RawSettingsError::NotANumber)));
}
