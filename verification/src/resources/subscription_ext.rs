//! Subscriptions and the items they are created with.

use vstd::prelude::*;
use std::collections::HashMap;
use crate::ids::SubscriptionId;
use crate::request::{path_of, Method, Request};
use crate::resources::{CreateSubscriptionItems, Subscription};

verus! {

impl Subscription {
    /// The request that cancels a subscription.
    ///
    /// For more details see https://stripe.com/docs/api#cancel_subscription.
    pub fn cancel(subscription_id: &SubscriptionId) -> (request: Request<()>)
        ensures
            request.method == Method::Delete,
            request.path@ == "/subscriptions/"@ + subscription_id@,
            request.params == None::<()>,
    {
        let path = path_of("/subscriptions/", subscription_id.as_str(), "");
        proof {
            reveal_strlit("");
        }
        Request { method: Method::Delete, path, params: None }
    }
}

impl CreateSubscriptionItems {
    /// An item with nothing set.
    pub fn new() -> (item: Self)
        ensures
            item.billing_thresholds is None,
            item.metadata@ == Map::<String, String>::empty(),
            item.plan is None,
            item.price is None,
            item.price_data is None,
            item.quantity is None,
            item.tax_rates is None,
    {
        Self {
            billing_thresholds: None,
            metadata: HashMap::new(),
            plan: None,
            price: None,
            price_data: None,
            quantity: None,
            tax_rates: None,
        }
    }
}

} // verus!
