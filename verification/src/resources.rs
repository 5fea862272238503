//! The resources of the API that this library has requests for.

use vstd::prelude::*;
use crate::ids::{
    BillingPortalSessionId, CheckoutSessionId, PaymentMethodId, SubscriptionId,
    SubscriptionScheduleId,
};
use crate::params::{Metadata, Timestamp};

pub mod billing_portal_session_ext;
pub mod checkout_session_ext;
pub mod payment_method_ext;
pub mod session_ext;
pub mod subscription_ext;
pub mod subscription_item_ext;
pub mod subscription_schedule_ext;

verus! {

/// A session of the customer portal.
#[derive(Clone, Debug)]
pub struct BillingPortalSession {
    /// Unique identifier for the object.
    pub id: BillingPortalSessionId,
}

/// A session of the hosted checkout page.
#[derive(Clone, Debug)]
pub struct CheckoutSession {
    /// Unique identifier for the object.
    pub id: CheckoutSessionId,
}

/// A payment instrument of a customer.
#[derive(Clone, Debug)]
pub struct PaymentMethod {
    /// Unique identifier for the object.
    pub id: PaymentMethodId,
}

/// A recurring charge of a customer.
#[derive(Clone, Debug)]
pub struct Subscription {
    /// Unique identifier for the object.
    pub id: SubscriptionId,
}

/// A plan of the phases that a subscription goes through.
#[derive(Clone, Debug)]
pub struct SubscriptionSchedule {
    /// Unique identifier for the object.
    pub id: SubscriptionScheduleId,
}

/// A currency, by its three-letter ISO code in lowercase.
#[derive(Clone, Debug, PartialEq, Eq)]
pub struct Currency {
    pub code: String,
}

/// The language that the checkout page is displayed in.
#[derive(Clone, Copy, Debug, PartialEq, Eq)]
pub enum CheckoutSessionLocale {
    Auto,
    Da,
    De,
    En,
    Es,
    Fi,
    Fr,
    It,
    Ja,
    Ms,
    Nb,
    Nl,
    Pl,
    Pt,
    PtBr,
    Sv,
    Zh,
}

/// What a checkout session is for.
#[derive(Clone, Copy, Debug, PartialEq, Eq)]
pub enum CheckoutSessionMode {
    Payment,
    Setup,
    Subscription,
}

/// The wording of the button that submits the checkout page.
#[derive(Clone, Copy, Debug, PartialEq, Eq)]
pub enum CheckoutSessionSubmitType {
    Auto,
    Book,
    Donate,
    Pay,
}

/// A span of time; either end may be left open.
#[derive(Clone, Debug)]
pub struct OpenPeriod {
    pub start: Option<Timestamp>,
    pub end: Option<Timestamp>,
}

/// The usage at which a subscription item is billed ahead of its period.
#[derive(Clone, Debug)]
pub struct SubscriptionItemBillingThresholds {
    pub usage_gte: u64,
}

/// A price that is made up on the spot for one subscription item.
#[derive(Clone, Debug)]
pub struct SubscriptionItemPriceData {
    pub currency: Currency,
    pub product: String,
    pub unit_amount: Option<i64>,
}

/// One of the items of a subscription that is being created.
#[derive(Clone, Debug)]
pub struct CreateSubscriptionItems {
    pub billing_thresholds: Option<SubscriptionItemBillingThresholds>,
    pub metadata: Metadata,
    pub plan: Option<String>,
    pub price: Option<String>,
    pub price_data: Option<SubscriptionItemPriceData>,
    pub quantity: Option<u64>,
    pub tax_rates: Option<Vec<String>>,
}

} // verus!
