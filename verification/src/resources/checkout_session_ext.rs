//! Sessions of the hosted checkout page.

use vstd::prelude::*;
use crate::ids::CustomerId;
use crate::request::{Method, Request};
use crate::resources::{
    CheckoutSession, CheckoutSessionLocale, CheckoutSessionMode, CheckoutSessionSubmitType,
    Currency,
};

verus! {

/// The parameters for `CheckoutSession::create`
///
/// For more details see [https://stripe.com/docs/api/checkout/sessions/create](https://stripe.com/docs/api/checkout/sessions/create).
#[derive(Clone, Debug)]
pub struct CreateCheckoutSession<'a> {
    /// The URL the customer will be directed to if they decide to cancel payment and return
    /// to your website.
    pub cancel_url: &'a str,
    /// A list of the types of payment methods (e.g. card) this Checkout Session is allowed
    /// to accept. The only supported values today are `card` and `ideal`.
    pub payment_method_types: Vec<&'a str>,
    /// The URL the customer will be directed to after the payment or subscription creation
    /// is successful.
    pub success_url: &'a str,
    /// A unique string to reference the Checkout Session.
    ///
    /// This can be a customer ID, a cart ID, or similar, and can be used to reconcile the
    /// session with your internal systems.
    pub client_reference_id: Option<&'a str>,
    /// The ID of the customer for this session.
    ///
    /// A new customer will be created unless an existing customer was provided in when the
    /// session was created.
    pub customer: Option<CustomerId>,
    /// If provided, this value will be used when the Customer object is created.
    /// If not provided, customers will be asked to enter their email address.
    /// Use this parameter to prefill customer data if you already have an email
    /// on file.
    ///
    /// To access information about the customer once a session is complete, use the
    /// `customer` field.
    pub customer_email: Option<&'a str>,
    /// The value (`auto` or `required`) for whether Checkout should collect the customer's
    /// billing address.
    pub billing_address_collection: Option<&'a str>,
    /// The line items, plans, or SKUs purchased by the customer.
    pub line_items: Option<Vec<CheckoutSessionLineItem<'a>>>,
    /// The IETF language tag of the locale Checkout is displayed in.
    ///
    /// If blank or `auto`, the browser's locale is used.
    pub locale: Option<CheckoutSessionLocale>,
    /// The mode of the Checkout Session, one of `payment`, `setup`, or `subscription`.
    pub mode: Option<CheckoutSessionMode>,
    /// Describes the type of transaction being performed by Checkout in order
    /// to customize relevant text on the page, such as the submit button.
    /// `submit_type` can only be specified on Checkout Sessions using line
    /// items or a SKU, but not Checkout Sessions for subscriptions.
    ///
    /// Supported values are `auto`, `book`, `donate`, or `pay`.
    pub submit_type: Option<CheckoutSessionSubmitType>,
}

#[derive(Clone, Debug)]
pub struct CheckoutSessionLineItem<'a> {
    /// The amount to be collected per unit of the line item.
    pub amount: i64,
    /// Three-letter [ISO currency code](https://www.iso.org/iso-4217-currency-codes.html), in lowercase.
    ///
    /// Must be a [supported currency](https://stripe.com/docs/currencies).
    pub currency: Currency,
    /// The name for the line item.
    pub name: &'a str,
    /// The quantity of the line item being purchased.
    pub quantity: u64,
    /// The description for the line item.
    pub description: Option<&'a str>,
    /// A list of images representing this line item.
    pub images: Option<Vec<String>>,
}

impl CheckoutSession {
    /// The request that creates a checkout session.
    ///
    /// For more details see [https://stripe.com/docs/api/checkout/sessions/create](https://stripe.com/docs/api/checkout/sessions/create).
    pub fn create<'a>(params: CreateCheckoutSession<'a>) -> (request: Request<
        CreateCheckoutSession<'a>,
    >)
        ensures
            request.method == Method::Post,
            request.path@ == "/checkout/sessions"@,
            request.params == Some(params),
    {
        Request {
            method: Method::Post,
            path: String::from_str("/checkout/sessions"),
            params: Some(params),
        }
    }
}

} // verus!
