//! The per-IA-type dispatch policy and the handler argument contract.

use dhcpv6_runner::DispatchDecision;
use dhcpv6_runner::Lease;
use dhcpv6_runner::LeaseIaType;
use dhcpv6_runner::decide_dispatch;

fn lease(ia_type: LeaseIaType) -> Lease {
    Lease {
        ia_type,
        addr: String::from("2001:db8::1"),
        prefix_len: 64,
        preferred_life: 1800,
        valid_life: 3600,
    }
}

#[test]
fn prefix_delegation_invokes_with_target() {
    let d = decide_dispatch("eth0", &lease(LeaseIaType::PrefixDelegation), "/usr/bin/handler");
    match d {
        DispatchDecision::Invoke(cmd) => {
            assert_eq!(cmd.program, "/usr/bin/handler");
            assert_eq!(cmd.args.len(), 5);
        }
        _ => panic!("prefix delegation must invoke"),
    }
}

#[test]
fn prefix_delegation_invokes_even_with_empty_target() {
    let d = decide_dispatch("eth0", &lease(LeaseIaType::PrefixDelegation), "");
    match d {
        DispatchDecision::Invoke(cmd) => {
            // An empty program cannot be started; the runner treats the
            // failed start as fatal rather than skipping the invocation.
            assert_eq!(cmd.program, "");
            assert_eq!(cmd.args.len(), 5);
        }
        _ => panic!("prefix delegation must invoke even with an empty target"),
    }
}

#[test]
fn temporary_addresses_skip_on_empty_target() {
    let d = decide_dispatch("eth0", &lease(LeaseIaType::TemporaryAddresses), "");
    assert!(matches!(d, DispatchDecision::Skip));
}

#[test]
fn non_temporary_addresses_skip_on_empty_target() {
    let d = decide_dispatch("eth0", &lease(LeaseIaType::NonTemporaryAddresses), "");
    assert!(matches!(d, DispatchDecision::Skip));
}

#[test]
fn temporary_addresses_invoke_with_target() {
    let d = decide_dispatch("eth0", &lease(LeaseIaType::TemporaryAddresses), "/bin/h");
    assert!(matches!(d, DispatchDecision::Invoke(_)));
}

#[test]
fn non_temporary_addresses_invoke_with_target() {
    let d = decide_dispatch("eth0", &lease(LeaseIaType::NonTemporaryAddresses), "/bin/h");
    assert!(matches!(d, DispatchDecision::Invoke(_)));
}

#[test]
fn unrecognized_never_invokes() {
    let d = decide_dispatch("eth0", &lease(LeaseIaType::Unrecognized), "/bin/h");
    assert!(matches!(d, DispatchDecision::Inconsistent));
    let d2 = decide_dispatch("eth0", &lease(LeaseIaType::Unrecognized), "");
    assert!(matches!(d2, DispatchDecision::Inconsistent));
}

#[test]
fn handler_gets_five_arguments_in_order() {
    let l = Lease {
        ia_type: LeaseIaType::NonTemporaryAddresses,
        addr: String::from("2001:db8::5"),
        prefix_len: 128,
        preferred_life: 300,
        valid_life: 600,
    };
    let d = decide_dispatch("eth0", &l, "/usr/bin/handler");
    match d {
        DispatchDecision::Invoke(cmd) => {
            assert_eq!(cmd.program, "/usr/bin/handler");
            assert_eq!(
                cmd.args,
                vec![
                    String::from("eth0"),
                    String::from("2001:db8::5"),
                    String::from("128"),
                    String::from("300"),
                    String::from("600"),
                ]
            );
        }
        _ => panic!("non-temporary lease with a target must invoke"),
    }
}
