use node_core::link::{link_wait_step, LinkPollStatus, LinkWaitAction};
use node_core::netconfig::{static_network_plan, Ipv4Octets};
use node_core::reset_on_failure_count::{CountingReset, ResettingCounter};
use node_core::session::{tcp_establish_step, EstablishAction, SocketPhase};

#[test]
fn link_pending_counts_and_retries() {
    let mut watchdog = ResettingCounter::new(CountingReset::new(), 5);
    let action = link_wait_step(&mut watchdog, LinkPollStatus::Pending);
    assert_eq!(action, LinkWaitAction::RetryAfterDelay);
    assert_eq!(watchdog.failures(), 1);
    assert_eq!(watchdog.reset_action().fire_count(), 0);
}

#[test]
fn link_connected_clears_the_count() {
    let mut watchdog = ResettingCounter::new(CountingReset::new(), 5);
    link_wait_step(&mut watchdog, LinkPollStatus::Pending);
    link_wait_step(&mut watchdog, LinkPollStatus::Pending);
    assert_eq!(watchdog.failures(), 2);
    let action = link_wait_step(&mut watchdog, LinkPollStatus::Connected);
    assert_eq!(action, LinkWaitAction::Proceed);
    assert_eq!(watchdog.failures(), 0);
    assert_eq!(watchdog.reset_action().fire_count(), 0);
}

#[test]
fn link_fault_abandons_the_wait_untouched() {
    let mut watchdog = ResettingCounter::new(CountingReset::new(), 5);
    link_wait_step(&mut watchdog, LinkPollStatus::Pending);
    let action = link_wait_step(&mut watchdog, LinkPollStatus::Fault);
    assert_eq!(action, LinkWaitAction::AbandonWait);
    assert_eq!(watchdog.failures(), 1);
    assert_eq!(watchdog.reset_action().fire_count(), 0);
}

#[test]
fn persistent_link_failure_resets_after_threshold_polls() {
    let mut watchdog = ResettingCounter::new(CountingReset::new(), 3);
    for _ in 0..2 {
        link_wait_step(&mut watchdog, LinkPollStatus::Pending);
        assert_eq!(watchdog.reset_action().fire_count(), 0);
    }
    link_wait_step(&mut watchdog, LinkPollStatus::Pending);
    assert_eq!(watchdog.reset_action().fire_count(), 1);
}

#[test]
fn closed_socket_resets_immediately_without_counting() {
    let mut watchdog = ResettingCounter::new(CountingReset::new(), 20);
    let action = tcp_establish_step(&mut watchdog, SocketPhase::Closed);
    assert_eq!(action, EstablishAction::ResetDevice);
    assert_eq!(watchdog.reset_action().fire_count(), 1);
    assert_eq!(watchdog.failures(), 0);
}

#[test]
fn established_socket_proceeds_untouched() {
    let mut watchdog = ResettingCounter::new(CountingReset::new(), 20);
    let action = tcp_establish_step(&mut watchdog, SocketPhase::Established);
    assert_eq!(action, EstablishAction::Proceed);
    assert_eq!(watchdog.reset_action().fire_count(), 0);
    assert_eq!(watchdog.failures(), 0);
}

#[test]
fn transitional_socket_counts_and_retries() {
    let mut watchdog = ResettingCounter::new(CountingReset::new(), 20);
    let action = tcp_establish_step(&mut watchdog, SocketPhase::Transitional);
    assert_eq!(action, EstablishAction::RetryAfterDelay);
    assert_eq!(watchdog.reset_action().fire_count(), 0);
    assert_eq!(watchdog.failures(), 1);
}

#[test]
fn network_plan_derives_gateway_and_prefix() {
    let plan = static_network_plan(Ipv4Octets { o0: 192, o1: 168, o2: 178, o3: 200 });
    assert_eq!(plan.address, Ipv4Octets { o0: 192, o1: 168, o2: 178, o3: 200 });
    assert_eq!(plan.prefix_len, 24);
    assert_eq!(plan.gateway, Ipv4Octets { o0: 192, o1: 168, o2: 178, o3: 1 });
}
