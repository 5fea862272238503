//! Payment methods and the customers they belong to.

use vstd::prelude::*;
use crate::ids::{CustomerId, PaymentMethodId};
use crate::request::{path_of, Method, Request};
use crate::resources::PaymentMethod;

verus! {

/// The parameters for `PaymentMethod::attach`
///
/// For more details see [https://stripe.com/docs/api/payment_methods/attach](https://stripe.com/docs/api/payment_methods/attach).
#[derive(Clone, Debug)]
pub struct AttachPaymentMethod {
    pub customer: CustomerId,
}

impl PaymentMethod {
    /// The request that attaches a payment method to a customer.
    ///
    /// For more details see [https://stripe.com/docs/api/payment_methods/attach](https://stripe.com/docs/api/payment_methods/attach).
    pub fn attach(payment_method_id: &PaymentMethodId, params: AttachPaymentMethod) -> (request:
        Request<AttachPaymentMethod>)
        ensures
            request.method == Method::Post,
            request.path@ == "/payment_methods/"@ + payment_method_id@ + "/attach"@,
            request.params == Some(params),
    {
        Request {
            method: Method::Post,
            path: path_of("/payment_methods/", payment_method_id.as_str(), "/attach"),
            params: Some(params),
        }
    }

    /// The request that detaches a payment method from its customer.
    ///
    /// For more details see [https://stripe.com/docs/api/payment_methods/detach](https://stripe.com/docs/api/payment_methods/detach).
    pub fn detach(payment_method_id: &PaymentMethodId) -> (request: Request<()>)
        ensures
            request.method == Method::Post,
            request.path@ == "/payment_methods/"@ + payment_method_id@ + "/detach"@,
            request.params == None::<()>,
    {
        Request {
            method: Method::Post,
            path: path_of("/payment_methods/", payment_method_id.as_str(), "/detach"),
            params: None,
        }
    }
}

} // verus!
