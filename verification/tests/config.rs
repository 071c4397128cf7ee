use rpc_gateway::chain::{Chain, ChainId};
use rpc_gateway::config::{Config, ConfigOptions};
use rpc_gateway::target_endpoint::{EndpointUrl, TargetEndpoint, TargetEndpointBase};

fn endpoint_url(text: &str) -> EndpointUrl {
    let u = url::Url::parse(text).unwrap();
    EndpointUrl { scheme: u.scheme().to_string(), href: u.as_str().to_string() }
}

#[test]
fn test1() {
    let mut x: u64 = 0;
    let chains: [&'static Chain; 10] = [0; 10].map(|_| {
        x += 1;
        Chain::new(ChainId::from(x), Some(12)).leak()
    });

    let base_endpoints = vec![
        TargetEndpointBase {
            chain: chains[0],
            name: "My First Endpoint".to_string(),
            url: endpoint_url("https://something1.com"),
        },
        TargetEndpointBase {
            chain: chains[0],
            name: "My Second Endpoint".to_string(),
            url: endpoint_url("https://something2.com"),
        },
        TargetEndpointBase {
            chain: chains[0],
            name: "My Third Endpoint".to_string(),
            url: endpoint_url("https://something3.com"),
        },
        TargetEndpointBase {
            chain: chains[1],
            name: "My Fourth Endpoint".to_string(),
            url: endpoint_url("https://something4.com"),
        },
        TargetEndpointBase {
            chain: chains[1],
            name: "My Fifth Endpoint".to_string(),
            url: endpoint_url("ws://something5.com"),
        },
        TargetEndpointBase {
            chain: chains[1],
            name: "My Sixth Endpoint".to_string(),
            url: endpoint_url("wss://something6.com"),
        },
    ];

    let target_endpoints: Vec<TargetEndpoint> =
        base_endpoints.into_iter().map(|x| TargetEndpoint::try_from_base(x).unwrap()).collect();

    println!("{:?}", target_endpoints);

    let config_options = ConfigOptions::new(target_endpoints);
    let config: Config = Config::from_options(config_options);

    println!("{config:#?}");

    let first = config.target_endpoints.get(&ChainId(1)).unwrap();
    assert_eq!((first.http.len(), first.web_socket.len()), (3, 0));
    let second = config.target_endpoints.get(&ChainId(2)).unwrap();
    assert_eq!((second.http.len(), second.web_socket.len()), (1, 2));
    assert!(config.target_endpoints.get(&ChainId(3)).is_none());
}
