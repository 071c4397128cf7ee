use rpc_gateway::chain::{Chain, ChainId};
use rpc_gateway::settings::{ChainsToEndpoints, Settings, TargetEndpointsForChain};
use rpc_gateway::target_endpoint::{EndpointUrl, TargetEndpoint, TargetEndpointBase};

fn endpoint_url(text: &str) -> EndpointUrl {
    let u = url::Url::parse(text).unwrap();
    EndpointUrl { scheme: u.scheme().to_string(), href: u.as_str().to_string() }
}

fn chain_one() -> &'static Chain {
    Chain::new(ChainId::from(1), None).leak()
}

fn chain_two() -> &'static Chain {
    Chain::new(ChainId::from(2), None).leak()
}

fn get_settings() -> Settings {
    let one = chain_one();
    let two = chain_two();
    let base_endpoints = vec![
        TargetEndpointBase {
            chain: one,
            name: "My First Endpoint".to_string(),
            url: endpoint_url("http://something1.com"),
        },
        TargetEndpointBase {
            chain: one,
            name: "My Second Endpoint".to_string(),
            url: endpoint_url("https://something2.com"),
        },
        TargetEndpointBase {
            chain: two,
            name: "My Third Endpoint".to_string(),
            url: endpoint_url("https://something3.com"),
        },
        TargetEndpointBase {
            chain: two,
            name: "My Fourth Endpoint".to_string(),
            url: endpoint_url("http://something4.com"),
        },
        TargetEndpointBase {
            chain: two,
            name: "My Fifth Endpoint".to_string(),
            url: endpoint_url("ws://something5.com"),
        },
        TargetEndpointBase {
            chain: two,
            name: "My Sixth Endpoint".to_string(),
            url: endpoint_url("wss://something6.com"),
        },
    ];

    let target_endpoints: Vec<TargetEndpoint> = base_endpoints
        .into_iter()
        .map(|x| TargetEndpoint::try_from_base(x).unwrap())
        .collect();

    Settings { chains_to_targets: ChainsToEndpoints::from_endpoints(target_endpoints) }
}

#[test]
fn should_correctly_categorize_http_and_https() {
    let settings: &'static Settings = get_settings().leak();
    let first_chain_targets = settings.chains_to_targets.get(&chain_one().chain_id).unwrap();

    assert_eq!(first_chain_targets.http.len(), 2, "first chain target http length does not match");

    let second_chain_targets = settings.chains_to_targets.get(&chain_two().chain_id).unwrap();

    assert_eq!(second_chain_targets.http.len(), 2, "second chain target http length does not match");
}

#[test]
fn should_correctly_categorize_ws_and_wss() {
    let settings: &'static Settings = get_settings().leak();
    let first_chain_targets = settings.chains_to_targets.get(&chain_one().chain_id).unwrap();

    assert_eq!(
        first_chain_targets.web_socket.len(),
        0,
        "first chain target websocket length does not match"
    );

    let second_chain_targets = settings.chains_to_targets.get(&chain_two().chain_id).unwrap();

    assert_eq!(
        second_chain_targets.web_socket.len(),
        2,
        "second chain target websocket length does not match"
    );
}

#[test]
fn grouping_keeps_the_order_of_each_transport() {
    let settings = get_settings();
    let second = settings.chains_to_targets.get(&ChainId(2)).unwrap();
    let http_names: Vec<&str> = second.http.iter().map(|e| e.base().name.as_str()).collect();
    assert_eq!(http_names, vec!["My Third Endpoint", "My Fourth Endpoint"]);
    let ws_names: Vec<&str> = second.web_socket.iter().map(|e| e.base().name.as_str()).collect();
    assert_eq!(ws_names, vec!["My Fifth Endpoint", "My Sixth Endpoint"]);
    assert!(settings.chains_to_targets.get(&ChainId(3)).is_none());
    assert_eq!(settings.chains_to_targets.0.len(), 2);
}

#[test]
fn target_endpoints_for_chain_add_sorts_by_transport() {
    let chain = chain_one();
    let mut group = TargetEndpointsForChain::new(chain);
    assert!(group.http.is_empty() && group.web_socket.is_empty());
    let ws = TargetEndpoint::try_from_base(TargetEndpointBase {
        chain,
        name: "ws".to_string(),
        url: endpoint_url("ws://a.example"),
    })
    .unwrap();
    group.add(ws);
    assert_eq!(group.http.len(), 0);
    assert_eq!(group.web_socket.len(), 1);
}
