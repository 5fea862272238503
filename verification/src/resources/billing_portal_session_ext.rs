//! Sessions of the customer portal.

use vstd::prelude::*;
use crate::ids::{BillingPortalConfigurationId, CustomerId};
use crate::request::{Method, Request};
use crate::resources::BillingPortalSession;

verus! {

/// The parameters for `BillingPortalSession::create`
///
/// For more details see [https://stripe.com/docs/api/customer_portal/sessions/create](https://stripe.com/docs/api/customer_portal/sessions/create).
#[derive(Clone, Debug)]
pub struct CreateBillingPortalSession {
    /// The ID of an existing customer.
    pub customer: CustomerId,
    /// The default URL to redirect customers to when they click on the portal's link to
    /// return to your website.
    ///
    /// Required if the configuration's default return url is not set
    pub return_url: Option<String>,
    /// The ID of an existing configuration to use for this session, describing its
    /// functionality and features.
    ///
    /// If not specified, the session uses the default configuration.
    pub configuration: Option<BillingPortalConfigurationId>,
}

impl BillingPortalSession {
    /// The request that creates a session of the customer portal.
    ///
    /// For more details see [https://stripe.com/docs/api/customer_portal/sessions/create](https://stripe.com/docs/api/customer_portal/sessions/create).
    pub fn create(params: CreateBillingPortalSession) -> (request: Request<
        CreateBillingPortalSession,
    >)
        ensures
            request.method == Method::Post,
            request.path@ == "/billing_portal/sessions"@,
            request.params == Some(params),
    {
        Request {
            method: Method::Post,
            path: String::from_str("/billing_portal/sessions"),
            params: Some(params),
        }
    }
}

} // verus!
