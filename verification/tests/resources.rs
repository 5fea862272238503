use stripe_core::ids::{
    CustomerId, PaymentMethodId, SubscriptionId, SubscriptionItemId, SubscriptionScheduleId,
    UsageRecordSummaryId,
};
use stripe_core::params::{AsCursor, Object, Paginate};
use stripe_core::request::{path_of, Method};
use stripe_core::resources::billing_portal_session_ext::CreateBillingPortalSession;
use stripe_core::resources::checkout_session_ext::{CheckoutSessionLineItem, CreateCheckoutSession};
use stripe_core::resources::payment_method_ext::AttachPaymentMethod;
use stripe_core::resources::session_ext::{CreateSession, Session};
use stripe_core::resources::subscription_item_ext::{
    CreateUsageRecord, ListUsageRecordSummaries, UsageRecord, UsageRecordAction, UsageRecordSummary,
};
use stripe_core::resources::subscription_schedule_ext::{
    CancelSubscriptionSchedule, ReleaseSubscriptionSchedule,
};
use stripe_core::resources::{
    BillingPortalSession, CheckoutSession, CheckoutSessionMode, CreateSubscriptionItems, Currency,
    OpenPeriod, PaymentMethod, Subscription, SubscriptionSchedule,
};

fn customer(id: &str) -> CustomerId {
    CustomerId::new(id.to_string())
}

#[test]
fn ids_hold_their_text() {
    let id = customer("cus_123");
    assert_eq!(id.as_str(), "cus_123");
    assert_eq!(id.clone(), id);
    assert_eq!(id.as_cursor(), "cus_123");
}

#[test]
fn path_of_joins_its_parts() {
    assert_eq!(path_of("/a/", "b", "/c"), "/a/b/c");
    assert_eq!(path_of("", "", ""), "");
}

#[test]
fn billing_portal_session_create_posts_to_the_sessions() {
    let request = BillingPortalSession::create(CreateBillingPortalSession {
        customer: customer("cus_1"),
        return_url: Some("https://example.com".to_string()),
        configuration: None,
    });
    assert_eq!(request.method, Method::Post);
    assert_eq!(request.path, "/billing_portal/sessions");
    let params = request.params.unwrap();
    assert_eq!(params.customer, customer("cus_1"));
    assert_eq!(params.return_url, Some("https://example.com".to_string()));
}

#[test]
fn checkout_session_create_posts_to_the_sessions() {
    let request = CheckoutSession::create(CreateCheckoutSession {
        cancel_url: "https://example.com/cancel",
        payment_method_types: vec!["card"],
        success_url: "https://example.com/ok",
        client_reference_id: None,
        customer: None,
        customer_email: None,
        billing_address_collection: None,
        line_items: Some(vec![CheckoutSessionLineItem {
            amount: 500,
            currency: Currency { code: "usd".to_string() },
            name: "shirt",
            quantity: 2,
            description: None,
            images: None,
        }]),
        locale: None,
        mode: Some(CheckoutSessionMode::Payment),
        submit_type: None,
    });
    assert_eq!(request.method, Method::Post);
    assert_eq!(request.path, "/checkout/sessions");
    let params = request.params.unwrap();
    assert_eq!(params.success_url, "https://example.com/ok");
    assert_eq!(params.line_items.unwrap()[0].quantity, 2);
}

#[test]
fn payment_method_attach_and_detach_name_the_method() {
    let id = PaymentMethodId::new("pm_1".to_string());
    let attach = PaymentMethod::attach(&id, AttachPaymentMethod { customer: customer("cus_2") });
    assert_eq!(attach.method, Method::Post);
    assert_eq!(attach.path, "/payment_methods/pm_1/attach");
    assert_eq!(attach.params.unwrap().customer, customer("cus_2"));
    let detach = PaymentMethod::detach(&id);
    assert_eq!(detach.method, Method::Post);
    assert_eq!(detach.path, "/payment_methods/pm_1/detach");
    assert!(detach.params.is_none());
}

#[test]
fn create_session_new_leaves_the_return_url_open() {
    let params = CreateSession::new(customer("cus_3"));
    assert_eq!(params.customer, customer("cus_3"));
    assert_eq!(params.return_url, None);
    let request = Session::create(params);
    assert_eq!(request.method, Method::Post);
    assert_eq!(request.path, "/billing_portal/sessions");
    assert_eq!(request.params.unwrap().customer, customer("cus_3"));
}

#[test]
fn subscription_cancel_deletes_the_subscription() {
    let request = Subscription::cancel(&SubscriptionId::new("sub_1".to_string()));
    assert_eq!(request.method, Method::Delete);
    assert_eq!(request.path, "/subscriptions/sub_1");
    assert!(request.params.is_none());
}

#[test]
fn create_subscription_items_new_sets_nothing() {
    let item = CreateSubscriptionItems::new();
    assert!(item.billing_thresholds.is_none());
    assert!(item.metadata.is_empty());
    assert!(item.plan.is_none());
    assert!(item.price.is_none());
    assert!(item.price_data.is_none());
    assert!(item.quantity.is_none());
    assert!(item.tax_rates.is_none());
}

#[test]
fn create_usage_record_new_sets_no_action() {
    let params = CreateUsageRecord::new(7, 1_600_000_000);
    assert_eq!(params.quantity, 7);
    assert_eq!(params.timestamp, 1_600_000_000);
    assert_eq!(params.action, None);
    let request = UsageRecord::create(SubscriptionItemId::new("si_1".to_string()), params);
    assert_eq!(request.method, Method::Post);
    assert_eq!(request.path, "/subscription_items/si_1/usage_records");
    assert_eq!(request.params.unwrap().quantity, 7);
    assert_ne!(UsageRecordAction::Increment, UsageRecordAction::Overwrite);
}

#[test]
fn usage_record_summary_list_gets_the_summaries() {
    let params = ListUsageRecordSummaries::new();
    assert!(params.ending_before.is_none());
    assert!(params.expand.is_empty());
    assert!(params.limit.is_none());
    assert!(params.starting_after.is_none());
    let request = UsageRecordSummary::list(&SubscriptionItemId::new("si_2".to_string()), params);
    assert_eq!(request.method, Method::Get);
    assert_eq!(request.path, "/subscription_items/si_2/usage_record_summaries");
    assert!(request.params.is_some());
}

#[test]
fn usage_record_summary_is_an_object_with_a_cursor() {
    let summary = UsageRecordSummary {
        id: UsageRecordSummaryId::new("urs_1".to_string()),
        invoice: None,
        period: OpenPeriod { start: Some(1), end: None },
        subscription_item: SubscriptionItemId::new("si_3".to_string()),
        total_usage: 42,
    };
    assert_eq!(summary.id().as_str(), "urs_1");
    assert_eq!(summary.object(), "usage_record_summary");
    assert_eq!(summary.cursor().as_cursor(), "urs_1");
}

#[test]
fn subscription_schedule_params_start_empty() {
    let cancel = CancelSubscriptionSchedule::new();
    assert_eq!((cancel.invoice_now, cancel.prorate), (None, None));
    let release = ReleaseSubscriptionSchedule::new();
    assert_eq!(release.preserve_cancel_date, None);
    let cancel = CancelSubscriptionSchedule::default();
    assert_eq!((cancel.invoice_now, cancel.prorate), (None, None));
    assert_eq!(ReleaseSubscriptionSchedule::default().preserve_cancel_date, None);
}

#[test]
fn subscription_schedule_cancel_and_release_name_the_schedule() {
    let id = SubscriptionScheduleId::new("sub_sched_1".to_string());
    let cancel = SubscriptionSchedule::cancel(
        &id,
        CancelSubscriptionSchedule { invoice_now: Some(true), prorate: None },
    );
    assert_eq!(cancel.method, Method::Post);
    assert_eq!(cancel.path, "/subscription_schedules/sub_sched_1/cancel");
    assert_eq!(cancel.params.unwrap().invoice_now, Some(true));
    let release = SubscriptionSchedule::release(
        &id,
        ReleaseSubscriptionSchedule { preserve_cancel_date: Some(false) },
    );
    assert_eq!(release.method, Method::Post);
    assert_eq!(release.path, "/subscription_schedules/sub_sched_1/release");
    assert_eq!(release.params.unwrap().preserve_cancel_date, Some(false));
}
