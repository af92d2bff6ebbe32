use koshelf::proxies::{parse_proxy_net, parse_trusted_proxy_nets, ProxyNet};
use koshelf::validate::ConfigError;

#[test]
fn networks_keep_address_and_prefix() {
    assert_eq!(parse_proxy_net("10.0.0.0/8"), Some(ProxyNet { v6: false, addr: 0x0a00_0000, prefix_len: 8 }));
    assert_eq!(parse_proxy_net("192.168.1.7/24"), Some(ProxyNet { v6: false, addr: 0xc0a8_0107, prefix_len: 24 }));
    assert_eq!(parse_proxy_net("fd00::/8"), Some(ProxyNet { v6: true, addr: 0xfd00u128 << 112, prefix_len: 8 }));
}

#[test]
fn bare_addresses_are_host_networks() {
    assert_eq!(parse_proxy_net("127.0.0.1"), Some(ProxyNet { v6: false, addr: 0x7f00_0001, prefix_len: 32 }));
    assert_eq!(parse_proxy_net("::1"), Some(ProxyNet { v6: true, addr: 1, prefix_len: 128 }));
}

#[test]
fn other_text_is_refused() {
    assert_eq!(parse_proxy_net("not-an-ip"), None);
    assert_eq!(parse_proxy_net("10.0.0.0/33"), None);
    assert_eq!(parse_proxy_net("10.0.0.0/"), None);
    assert_eq!(parse_proxy_net(""), None);
}

#[test]
fn entries_parse_in_order_or_name_the_first_refused() {
    let entries = vec!["::1".to_string(), "10.0.0.0/8".to_string()];
    assert_eq!(
        parse_trusted_proxy_nets(&entries),
        Ok(vec![
            ProxyNet { v6: true, addr: 1, prefix_len: 128 },
            ProxyNet { v6: false, addr: 0x0a00_0000, prefix_len: 8 },
        ])
    );
    assert_eq!(parse_trusted_proxy_nets(&vec![]), Ok(vec![]));
    let bad = vec!["10.0.0.1".to_string(), "x".to_string(), "y".to_string()];
    assert_eq!(parse_trusted_proxy_nets(&bad), Err(ConfigError::InvalidTrustedProxy(1)));
}
