use chain_follower::follow_chain::EXECUTE_BLOCK_NO_CHECK;
use chain_follower::subscription::{
    SubscriptionConfig, CONNECTION_TIMEOUT_SECS, MAX_NOTIFS_PER_SUBSCRIPTION,
    MAX_REQUEST_BODY_SIZE, SUB, UN_SUB,
};
use chain_follower::transport::{basic_transport_layout, WireLayout, UPGRADE_TIMEOUT_SECS};

#[test]
fn subscription_to_finalized_heads_is_set_up() {
    let config = SubscriptionConfig::finalized_heads();
    assert_eq!(config.subscribe_method, "chain_subscribeFinalizedHeads");
    assert_eq!(config.unsubscribe_method, "chain_unsubscribeFinalizedHeads");
    assert_eq!(config.connection_timeout_secs, 20);
    assert_eq!(config.max_notifs_per_subscription, 1024);
    assert_eq!(config.max_request_body_size, u32::MAX);
    assert_eq!(
        config,
        SubscriptionConfig {
            subscribe_method: SUB,
            unsubscribe_method: UN_SUB,
            connection_timeout_secs: CONNECTION_TIMEOUT_SECS,
            max_notifs_per_subscription: MAX_NOTIFS_PER_SUBSCRIPTION,
            max_request_body_size: MAX_REQUEST_BODY_SIZE,
        }
    );
}

#[test]
fn blocks_are_executed_without_checks() {
    assert_eq!(EXECUTE_BLOCK_NO_CHECK, "TryRuntime_execute_block_no_check");
}

#[test]
fn transport_layout_follows_memory_and_dns() {
    assert_eq!(basic_transport_layout(true, false), WireLayout::Memory);
    assert_eq!(basic_transport_layout(true, true), WireLayout::Memory);
    assert_eq!(basic_transport_layout(false, true), WireLayout::ResolvedWithWebsocket);
    assert_eq!(basic_transport_layout(false, false), WireLayout::DirectWithWebsocket);
    assert_eq!(UPGRADE_TIMEOUT_SECS, 20);
}
