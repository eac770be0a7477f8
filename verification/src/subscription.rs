//! How the subscription to finalized heads is set up.

use vstd::prelude::*;

verus! {

/// The method that subscribes to finalized heads.
pub const SUB: &'static str = "chain_subscribeFinalizedHeads";

/// The method that ends that subscription.
pub const UN_SUB: &'static str = "chain_unsubscribeFinalizedHeads";

/// The seconds after which an attempt to connect is given up.
pub const CONNECTION_TIMEOUT_SECS: u64 = 20;

/// The number of notifications that are buffered for one subscription.
pub const MAX_NOTIFS_PER_SUBSCRIPTION: usize = 1024;

/// The largest body of a request or a response, in bytes.
pub const MAX_REQUEST_BODY_SIZE: u32 = u32::MAX;

/// What a connection for a subscription is set up with. It is applied once,
/// when the subscription begins.
#[derive(Clone, Copy, Debug, PartialEq, Eq)]
pub struct SubscriptionConfig {
    pub subscribe_method: &'static str,
    pub unsubscribe_method: &'static str,
    pub connection_timeout_secs: u64,
    pub max_notifs_per_subscription: usize,
    pub max_request_body_size: u32,
}

impl SubscriptionConfig {
    /// The set-up of the subscription to finalized heads.
    pub fn finalized_heads() -> (config: Self)
        ensures
            config.subscribe_method@ == SUB@,
            config.unsubscribe_method@ == UN_SUB@,
            config.connection_timeout_secs == 20,
            config.max_notifs_per_subscription == 1024,
            config.max_request_body_size == u32::MAX,
    {
        SubscriptionConfig {
            subscribe_method: SUB,
            unsubscribe_method: UN_SUB,
            connection_timeout_secs: CONNECTION_TIMEOUT_SECS,
            max_notifs_per_subscription: MAX_NOTIFS_PER_SUBSCRIPTION,
            max_request_body_size: MAX_REQUEST_BODY_SIZE,
        }
    }
}

} // verus!
