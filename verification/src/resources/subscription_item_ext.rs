//! Usage of metered subscription items.

use vstd::prelude::*;
use crate::ids::{InvoiceId, SubscriptionItemId, UsageRecordId, UsageRecordSummaryId};
use crate::params::{Object, Timestamp};
use crate::request::{path_of, Method, Request};
use crate::resources::OpenPeriod;

verus! {

/// The resource representing a Stripe "UsageRecord".
///
/// For more details see [https://stripe.com/docs/api/usage_records/](https://stripe.com/docs/api/usage_records/).
#[derive(Clone, Debug)]
pub struct UsageRecord {
    /// Unique identifier for the object.
    pub id: UsageRecordId,
    /// The usage quantity for the specified date.
    pub quantity: u64,
    /// The ID of the subscription item this usage record contains data for.
    pub subscription_item: SubscriptionItemId,
    /// The timestamp when this usage occurred.
    pub timestamp: Timestamp,
}

/// Creates a usage record for a specified subscription item and date, and fills it with a
/// quantity.
///
/// For more details see [https://stripe.com/docs/api/usage_records/create](https://stripe.com/docs/api/usage_records/create).
#[derive(Clone, Debug)]
pub struct CreateUsageRecord {
    /// The usage quantity for the specified date.
    pub quantity: u64,
    /// The timestamp when this usage occurred.
    pub timestamp: Timestamp,
    /// Valid values are `Increment` (default) or `Overwrite`.
    /// When using `Increment` the specified quantity will be added to the usage at the
    /// specified timestamp. The `Overwrite` action will overwrite the usage quantity at that
    /// timestamp. If the subscription has billing thresholds, `Increment` is the only
    /// allowed value.
    pub action: Option<UsageRecordAction>,
}

impl CreateUsageRecord {
    pub fn new(quantity: u64, timestamp: Timestamp) -> (params: Self)
        ensures
            params == (CreateUsageRecord { quantity, timestamp, action: None }),
    {
        CreateUsageRecord { quantity, timestamp, action: None }
    }
}

/// An enum specifying possible values for `CreateUsageRecord`'s `action` field.
#[derive(Copy, Clone, Debug, Eq, PartialEq)]
pub enum UsageRecordAction {
    /// Default. The specified quantity will be added to the usage.
    Increment,
    /// Overwrites the usage quantity. On the wire this is `set`.
    Overwrite,
}

impl UsageRecord {
    /// The request that creates a usage record for a specified subscription item and date,
    /// and fills it with a quantity.
    ///
    /// For more details see [https://stripe.com/docs/api/usage_records/create](https://stripe.com/docs/api/usage_records/create).
    pub fn create(id: SubscriptionItemId, params: CreateUsageRecord) -> (request: Request<
        CreateUsageRecord,
    >)
        ensures
            request.method == Method::Post,
            request.path@ == "/subscription_items/"@ + id@ + "/usage_records"@,
            request.params == Some(params),
    {
        Request {
            method: Method::Post,
            path: path_of("/subscription_items/", id.as_str(), "/usage_records"),
            params: Some(params),
        }
    }
}

/// The resource representing a Stripe "UsageRecordSummary".
///
/// For more details see [https://stripe.com/docs/api/usage_records/subscription_item_summary_list](https://stripe.com/docs/api/usage_records/subscription_item_summary_list).
#[derive(Clone, Debug)]
pub struct UsageRecordSummary {
    /// Unique identifier for the object.
    pub id: UsageRecordSummaryId,
    /// The invoice in which this usage period has been billed for.
    pub invoice: Option<InvoiceId>,
    /// The usage period.
    pub period: OpenPeriod,
    /// The ID of the subscription item this summary is describing.
    pub subscription_item: SubscriptionItemId,
    /// The total usage within this usage period.
    pub total_usage: u64,
}

impl UsageRecordSummary {
    /// The request that lists the summaries of a subscription item. Each summary provides
    /// usage information that has been summarized from multiple usage records and over a
    /// subscription billing period (e.g., 15 usage records in the month of September).
    ///
    /// The list is sorted in reverse-chronological order (newest first). The first list item
    /// represents the most current usage period that hasn't ended yet. Since new usage
    /// records can still be added, the returned summary information for the subscription
    /// item's ID should be seen as unstable until the subscription billing period ends.
    ///
    /// The subscription item goes into the path; the parameters make up the query.
    pub fn list<'a>(id: &SubscriptionItemId, params: ListUsageRecordSummaries<'a>) -> (request:
        Request<ListUsageRecordSummaries<'a>>)
        ensures
            request.method == Method::Get,
            request.path@ == "/subscription_items/"@ + id@ + "/usage_record_summaries"@,
            request.params == Some(params),
    {
        Request {
            method: Method::Get,
            path: path_of("/subscription_items/", id.as_str(), "/usage_record_summaries"),
            params: Some(params),
        }
    }
}

impl Object for UsageRecordSummary {
    type Id = UsageRecordSummaryId;

    open spec fn spec_id(&self) -> Self::Id {
        self.id
    }

    fn id(&self) -> (id: Self::Id) {
        self.id.clone()
    }

    fn object(&self) -> (name: &'static str)
        ensures
            name@ == "usage_record_summary"@,
    {
        "usage_record_summary"
    }
}

/// The parameters for `UsageRecordSummary::list`.
///
/// For more details see [https://stripe.com/docs/api/usage_records/subscription_item_summary_list](https://stripe.com/docs/api/usage_records/subscription_item_summary_list).
#[derive(Clone, Debug)]
pub struct ListUsageRecordSummaries<'a> {
    /// A cursor for use in pagination.
    ///
    /// `ending_before` is an object ID that defines your place in the list.
    /// For instance, if you make a list request and receive 100 objects, starting with
    /// `obj_bar`, your subsequent call can include `ending_before=obj_bar` in order to fetch
    /// the previous page of the list.
    pub ending_before: Option<UsageRecordSummaryId>,
    /// Specifies which fields in the response should be expanded.
    pub expand: &'a [&'a str],
    /// A limit on the number of objects to be returned.
    ///
    /// Limit can range between 1 and 100, and the default is 10.
    pub limit: Option<u64>,
    /// A cursor for use in pagination.
    ///
    /// `starting_after` is an object ID that defines your place in the list.
    /// For instance, if you make a list request and receive 100 objects, ending with
    /// `obj_foo`, your subsequent call can include `starting_after=obj_foo` in order to
    /// fetch the next page of the list.
    pub starting_after: Option<UsageRecordSummaryId>,
}

impl<'a> ListUsageRecordSummaries<'a> {
    /// Parameters that ask for the first page, of the default size, with nothing expanded.
    pub fn new() -> (params: Self)
        ensures
            params.ending_before is None,
            params.expand@.len() == 0,
            params.limit is None,
            params.starting_after is None,
    {
        ListUsageRecordSummaries {
            ending_before: None,
            expand: &[],
            limit: None,
            starting_after: None,
        }
    }
}

} // verus!
