//! Resolver, purge policy, decimal rendering and session configuration.

use dhcpv6_runner::DEFAULT_TIMEOUT;
use dhcpv6_runner::IaType;
use dhcpv6_runner::POLL_WAIT_TIME;
use dhcpv6_runner::SessionConfig;
use dhcpv6_runner::needs_purge;
use dhcpv6_runner::purge_dhcpv6_addr;
use dhcpv6_runner::resolve_ia_type;
use dhcpv6_runner::u32_to_dec;

#[test]
fn resolve_default_is_non_temporary() {
    let r = resolve_ia_type("eth0", false, false);
    assert!(matches!(r, IaType::NonTemporaryAddresses));
}

#[test]
fn resolve_temporary_flag() {
    let r = resolve_ia_type("eth0", false, true);
    assert!(matches!(r, IaType::TemporaryAddresses));
}

#[test]
fn resolve_prefix_delegation_flag() {
    let r = resolve_ia_type("eth0", true, false);
    assert!(matches!(r, IaType::PrefixDelegation));
}

#[test]
fn resolve_prefix_delegation_wins() {
    let r = resolve_ia_type("eth0", true, true);
    assert!(matches!(r, IaType::PrefixDelegation));
}

#[test]
fn purge_required_iff_not_prefix_delegation() {
    assert!(!needs_purge(IaType::PrefixDelegation));
    assert!(needs_purge(IaType::TemporaryAddresses));
    assert!(needs_purge(IaType::NonTemporaryAddresses));
}

#[test]
fn purge_is_idempotent_no_op() {
    purge_dhcpv6_addr("eth0");
    purge_dhcpv6_addr("eth0");
}

#[test]
fn decimal_rendering_exact() {
    assert_eq!(u32_to_dec(0), "0");
    assert_eq!(u32_to_dec(5), "5");
    assert_eq!(u32_to_dec(10), "10");
    assert_eq!(u32_to_dec(56), "56");
    assert_eq!(u32_to_dec(128), "128");
    assert_eq!(u32_to_dec(300), "300");
    assert_eq!(u32_to_dec(7200), "7200");
    assert_eq!(u32_to_dec(u32::MAX), "4294967295");
}

#[test]
fn session_config_defaults() {
    let c = SessionConfig::new(String::from("eth0"), IaType::NonTemporaryAddresses);
    assert_eq!(c.iface_name, "eth0");
    assert!(matches!(c.ia_type, IaType::NonTemporaryAddresses));
    assert_eq!(c.timeout, 480);
    assert_eq!(c.poll_wait, 5);
    assert_eq!(DEFAULT_TIMEOUT, 480);
    assert_eq!(POLL_WAIT_TIME, 5);
}
