//! Identifiers of API objects.
//!
//! Each kind of object has an identifier type of its own, so that the identifier of a
//! customer cannot be handed over where that of an invoice is expected. An identifier is
//! the text the server assigned; its view is that text.

use vstd::prelude::*;
use crate::params::AsCursor;

verus! {

/// Identifies a configuration of the customer portal.
#[derive(Debug, PartialEq, Eq, Hash)]
pub struct BillingPortalConfigurationId {
    value: String,
}

impl View for BillingPortalConfigurationId {
    type V = Seq<char>;

    closed spec fn view(&self) -> Seq<char> {
        self.value@
    }
}

impl BillingPortalConfigurationId {
    /// The identifier with the text `value`.
    pub fn new(value: String) -> (id: Self)
        ensures
            id@ == value@,
    {
        BillingPortalConfigurationId { value }
    }

    /// The text of the identifier.
    pub fn as_str(&self) -> (text: &str)
        ensures
            text@ == self@,
    {
        self.value.as_str()
    }
}

impl Clone for BillingPortalConfigurationId {
    fn clone(&self) -> (id: Self)
        ensures
            id == *self,
    {
        BillingPortalConfigurationId { value: self.value.clone() }
    }
}

impl AsCursor for BillingPortalConfigurationId {
    open spec fn text(&self) -> Seq<char> {
        self@
    }

    fn as_cursor(&self) -> (cursor: &str) {
        self.as_str()
    }
}

/// Identifies a session of the customer portal.
#[derive(Debug, PartialEq, Eq, Hash)]
pub struct BillingPortalSessionId {
    value: String,
}

impl View for BillingPortalSessionId {
    type V = Seq<char>;

    closed spec fn view(&self) -> Seq<char> {
        self.value@
    }
}

impl BillingPortalSessionId {
    /// The identifier with the text `value`.
    pub fn new(value: String) -> (id: Self)
        ensures
            id@ == value@,
    {
        BillingPortalSessionId { value }
    }

    /// The text of the identifier.
    pub fn as_str(&self) -> (text: &str)
        ensures
            text@ == self@,
    {
        self.value.as_str()
    }
}

impl Clone for BillingPortalSessionId {
    fn clone(&self) -> (id: Self)
        ensures
            id == *self,
    {
        BillingPortalSessionId { value: self.value.clone() }
    }
}

impl AsCursor for BillingPortalSessionId {
    open spec fn text(&self) -> Seq<char> {
        self@
    }

    fn as_cursor(&self) -> (cursor: &str) {
        self.as_str()
    }
}

/// Identifies a checkout session.
#[derive(Debug, PartialEq, Eq, Hash)]
pub struct CheckoutSessionId {
    value: String,
}

impl View for CheckoutSessionId {
    type V = Seq<char>;

    closed spec fn view(&self) -> Seq<char> {
        self.value@
    }
}

impl CheckoutSessionId {
    /// The identifier with the text `value`.
    pub fn new(value: String) -> (id: Self)
        ensures
            id@ == value@,
    {
        CheckoutSessionId { value }
    }

    /// The text of the identifier.
    pub fn as_str(&self) -> (text: &str)
        ensures
            text@ == self@,
    {
        self.value.as_str()
    }
}

impl Clone for CheckoutSessionId {
    fn clone(&self) -> (id: Self)
        ensures
            id == *self,
    {
        CheckoutSessionId { value: self.value.clone() }
    }
}

impl AsCursor for CheckoutSessionId {
    open spec fn text(&self) -> Seq<char> {
        self@
    }

    fn as_cursor(&self) -> (cursor: &str) {
        self.as_str()
    }
}

/// Identifies a customer.
#[derive(Debug, PartialEq, Eq, Hash)]
pub struct CustomerId {
    value: String,
}

impl View for CustomerId {
    type V = Seq<char>;

    closed spec fn view(&self) -> Seq<char> {
        self.value@
    }
}

impl CustomerId {
    /// The identifier with the text `value`.
    pub fn new(value: String) -> (id: Self)
        ensures
            id@ == value@,
    {
        CustomerId { value }
    }

    /// The text of the identifier.
    pub fn as_str(&self) -> (text: &str)
        ensures
            text@ == self@,
    {
        self.value.as_str()
    }
}

impl Clone for CustomerId {
    fn clone(&self) -> (id: Self)
        ensures
            id == *self,
    {
        CustomerId { value: self.value.clone() }
    }
}

impl AsCursor for CustomerId {
    open spec fn text(&self) -> Seq<char> {
        self@
    }

    fn as_cursor(&self) -> (cursor: &str) {
        self.as_str()
    }
}

/// Identifies an invoice.
#[derive(Debug, PartialEq, Eq, Hash)]
pub struct InvoiceId {
    value: String,
}

impl View for InvoiceId {
    type V = Seq<char>;

    closed spec fn view(&self) -> Seq<char> {
        self.value@
    }
}

impl InvoiceId {
    /// The identifier with the text `value`.
    pub fn new(value: String) -> (id: Self)
        ensures
            id@ == value@,
    {
        InvoiceId { value }
    }

    /// The text of the identifier.
    pub fn as_str(&self) -> (text: &str)
        ensures
            text@ == self@,
    {
        self.value.as_str()
    }
}

impl Clone for InvoiceId {
    fn clone(&self) -> (id: Self)
        ensures
            id == *self,
    {
        InvoiceId { value: self.value.clone() }
    }
}

impl AsCursor for InvoiceId {
    open spec fn text(&self) -> Seq<char> {
        self@
    }

    fn as_cursor(&self) -> (cursor: &str) {
        self.as_str()
    }
}

/// Identifies a payment method.
#[derive(Debug, PartialEq, Eq, Hash)]
pub struct PaymentMethodId {
    value: String,
}

impl View for PaymentMethodId {
    type V = Seq<char>;

    closed spec fn view(&self) -> Seq<char> {
        self.value@
    }
}

impl PaymentMethodId {
    /// The identifier with the text `value`.
    pub fn new(value: String) -> (id: Self)
        ensures
            id@ == value@,
    {
        PaymentMethodId { value }
    }

    /// The text of the identifier.
    pub fn as_str(&self) -> (text: &str)
        ensures
            text@ == self@,
    {
        self.value.as_str()
    }
}

impl Clone for PaymentMethodId {
    fn clone(&self) -> (id: Self)
        ensures
            id == *self,
    {
        PaymentMethodId { value: self.value.clone() }
    }
}

impl AsCursor for PaymentMethodId {
    open spec fn text(&self) -> Seq<char> {
        self@
    }

    fn as_cursor(&self) -> (cursor: &str) {
        self.as_str()
    }
}

/// Identifies a portal session.
#[derive(Debug, PartialEq, Eq, Hash)]
pub struct SessionId {
    value: String,
}

impl View for SessionId {
    type V = Seq<char>;

    closed spec fn view(&self) -> Seq<char> {
        self.value@
    }
}

impl SessionId {
    /// The identifier with the text `value`.
    pub fn new(value: String) -> (id: Self)
        ensures
            id@ == value@,
    {
        SessionId { value }
    }

    /// The text of the identifier.
    pub fn as_str(&self) -> (text: &str)
        ensures
            text@ == self@,
    {
        self.value.as_str()
    }
}

impl Clone for SessionId {
    fn clone(&self) -> (id: Self)
        ensures
            id == *self,
    {
        SessionId { value: self.value.clone() }
    }
}

impl AsCursor for SessionId {
    open spec fn text(&self) -> Seq<char> {
        self@
    }

    fn as_cursor(&self) -> (cursor: &str) {
        self.as_str()
    }
}

/// Identifies a subscription.
#[derive(Debug, PartialEq, Eq, Hash)]
pub struct SubscriptionId {
    value: String,
}

impl View for SubscriptionId {
    type V = Seq<char>;

    closed spec fn view(&self) -> Seq<char> {
        self.value@
    }
}

impl SubscriptionId {
    /// The identifier with the text `value`.
    pub fn new(value: String) -> (id: Self)
        ensures
            id@ == value@,
    {
        SubscriptionId { value }
    }

    /// The text of the identifier.
    pub fn as_str(&self) -> (text: &str)
        ensures
            text@ == self@,
    {
        self.value.as_str()
    }
}

impl Clone for SubscriptionId {
    fn clone(&self) -> (id: Self)
        ensures
            id == *self,
    {
        SubscriptionId { value: self.value.clone() }
    }
}

impl AsCursor for SubscriptionId {
    open spec fn text(&self) -> Seq<char> {
        self@
    }

    fn as_cursor(&self) -> (cursor: &str) {
        self.as_str()
    }
}

/// Identifies an item of a subscription.
#[derive(Debug, PartialEq, Eq, Hash)]
pub struct SubscriptionItemId {
    value: String,
}

impl View for SubscriptionItemId {
    type V = Seq<char>;

    closed spec fn view(&self) -> Seq<char> {
        self.value@
    }
}

impl SubscriptionItemId {
    /// The identifier with the text `value`.
    pub fn new(value: String) -> (id: Self)
        ensures
            id@ == value@,
    {
        SubscriptionItemId { value }
    }

    /// The text of the identifier.
    pub fn as_str(&self) -> (text: &str)
        ensures
            text@ == self@,
    {
        self.value.as_str()
    }
}

impl Clone for SubscriptionItemId {
    fn clone(&self) -> (id: Self)
        ensures
            id == *self,
    {
        SubscriptionItemId { value: self.value.clone() }
    }
}

impl AsCursor for SubscriptionItemId {
    open spec fn text(&self) -> Seq<char> {
        self@
    }

    fn as_cursor(&self) -> (cursor: &str) {
        self.as_str()
    }
}

/// Identifies a subscription schedule.
#[derive(Debug, PartialEq, Eq, Hash)]
pub struct SubscriptionScheduleId {
    value: String,
}

impl View for SubscriptionScheduleId {
    type V = Seq<char>;

    closed spec fn view(&self) -> Seq<char> {
        self.value@
    }
}

impl SubscriptionScheduleId {
    /// The identifier with the text `value`.
    pub fn new(value: String) -> (id: Self)
        ensures
            id@ == value@,
    {
        SubscriptionScheduleId { value }
    }

    /// The text of the identifier.
    pub fn as_str(&self) -> (text: &str)
        ensures
            text@ == self@,
    {
        self.value.as_str()
    }
}

impl Clone for SubscriptionScheduleId {
    fn clone(&self) -> (id: Self)
        ensures
            id == *self,
    {
        SubscriptionScheduleId { value: self.value.clone() }
    }
}

impl AsCursor for SubscriptionScheduleId {
    open spec fn text(&self) -> Seq<char> {
        self@
    }

    fn as_cursor(&self) -> (cursor: &str) {
        self.as_str()
    }
}

/// Identifies a usage record.
#[derive(Debug, PartialEq, Eq, Hash)]
pub struct UsageRecordId {
    value: String,
}

impl View for UsageRecordId {
    type V = Seq<char>;

    closed spec fn view(&self) -> Seq<char> {
        self.value@
    }
}

impl UsageRecordId {
    /// The identifier with the text `value`.
    pub fn new(value: String) -> (id: Self)
        ensures
            id@ == value@,
    {
        UsageRecordId { value }
    }

    /// The text of the identifier.
    pub fn as_str(&self) -> (text: &str)
        ensures
            text@ == self@,
    {
        self.value.as_str()
    }
}

impl Clone for UsageRecordId {
    fn clone(&self) -> (id: Self)
        ensures
            id == *self,
    {
        UsageRecordId { value: self.value.clone() }
    }
}

impl AsCursor for UsageRecordId {
    open spec fn text(&self) -> Seq<char> {
        self@
    }

    fn as_cursor(&self) -> (cursor: &str) {
        self.as_str()
    }
}

/// Identifies a summary of usage records.
#[derive(Debug, PartialEq, Eq, Hash)]
pub struct UsageRecordSummaryId {
    value: String,
}

impl View for UsageRecordSummaryId {
    type V = Seq<char>;

    closed spec fn view(&self) -> Seq<char> {
        self.value@
    }
}

impl UsageRecordSummaryId {
    /// The identifier with the text `value`.
    pub fn new(value: String) -> (id: Self)
        ensures
            id@ == value@,
    {
        UsageRecordSummaryId { value }
    }

    /// The text of the identifier.
    pub fn as_str(&self) -> (text: &str)
        ensures
            text@ == self@,
    {
        self.value.as_str()
    }
}

impl Clone for UsageRecordSummaryId {
    fn clone(&self) -> (id: Self)
        ensures
            id == *self,
    {
        UsageRecordSummaryId { value: self.value.clone() }
    }
}

impl AsCursor for UsageRecordSummaryId {
    open spec fn text(&self) -> Seq<char> {
        self@
    }

    fn as_cursor(&self) -> (cursor: &str) {
        self.as_str()
    }
}

} // verus!
