//! Subscription schedules.

use vstd::prelude::*;
use crate::ids::SubscriptionScheduleId;
use crate::request::{path_of, Method, Request};
use crate::resources::SubscriptionSchedule;

verus! {

/// The parameters for `SubscriptionSchedule::cancel`.
#[derive(Clone, Debug)]
pub struct CancelSubscriptionSchedule {
    pub invoice_now: Option<bool>,
    pub prorate: Option<bool>,
}

impl Default for CancelSubscriptionSchedule {
    fn default() -> (params: Self)
        ensures
            params == (CancelSubscriptionSchedule { invoice_now: None, prorate: None }),
    {
        CancelSubscriptionSchedule { invoice_now: None, prorate: None }
    }
}

impl CancelSubscriptionSchedule {
    pub fn new() -> (params: CancelSubscriptionSchedule)
        ensures
            params == (CancelSubscriptionSchedule { invoice_now: None, prorate: None }),
    {
        CancelSubscriptionSchedule::default()
    }
}

/// The parameters for `SubscriptionSchedule::release`.
#[derive(Clone, Debug)]
pub struct ReleaseSubscriptionSchedule {
    pub preserve_cancel_date: Option<bool>,
}

impl Default for ReleaseSubscriptionSchedule {
    fn default() -> (params: Self)
        ensures
            params == (ReleaseSubscriptionSchedule { preserve_cancel_date: None }),
    {
        ReleaseSubscriptionSchedule { preserve_cancel_date: None }
    }
}

impl ReleaseSubscriptionSchedule {
    pub fn new() -> (params: ReleaseSubscriptionSchedule)
        ensures
            params == (ReleaseSubscriptionSchedule { preserve_cancel_date: None }),
    {
        ReleaseSubscriptionSchedule::default()
    }
}

impl SubscriptionSchedule {
    /// The request that cancels a subscription schedule.
    ///
    /// For more details see https://stripe.com/docs/api/subscription_schedules/cancel
    pub fn cancel(
        subscription_schedule_id: &SubscriptionScheduleId,
        params: CancelSubscriptionSchedule,
    ) -> (request: Request<CancelSubscriptionSchedule>)
        ensures
            request.method == Method::Post,
            request.path@ == "/subscription_schedules/"@ + subscription_schedule_id@ + "/cancel"@,
            request.params == Some(params),
    {
        Request {
            method: Method::Post,
            path: path_of("/subscription_schedules/", subscription_schedule_id.as_str(), "/cancel"),
            params: Some(params),
        }
    }

    /// The request that releases a subscription schedule.
    ///
    /// For more details see https://stripe.com/docs/api/subscription_schedules/release
    pub fn release(
        subscription_schedule_id: &SubscriptionScheduleId,
        params: ReleaseSubscriptionSchedule,
    ) -> (request: Request<ReleaseSubscriptionSchedule>)
        ensures
            request.method == Method::Post,
            request.path@ == "/subscription_schedules/"@ + subscription_schedule_id@ + "/release"@,
            request.params == Some(params),
    {
        Request {
            method: Method::Post,
            path: path_of(
                "/subscription_schedules/",
                subscription_schedule_id.as_str(),
                "/release",
            ),
            params: Some(params),
        }
    }
}

} // verus!
