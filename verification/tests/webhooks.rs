use backend::webhooks::{sns_action, webhook_reply, SnsAction, WebhookReply};

#[test]
fn sns_message_types() {
    assert_eq!(sns_action("SubscriptionConfirmation"), SnsAction::ConfirmSubscription);
    assert_eq!(sns_action("Notification"), SnsAction::ProcessNotification);
    assert_eq!(sns_action("UnsubscribeConfirmation"), SnsAction::Reject);
    assert_eq!(sns_action("notification"), SnsAction::Reject);
    assert_eq!(sns_action(""), SnsAction::Reject);
}

#[test]
fn webhook_replies() {
    assert_eq!(webhook_reply(SnsAction::ConfirmSubscription, true), WebhookReply::SubscriptionConfirmed);
    assert_eq!(webhook_reply(SnsAction::ConfirmSubscription, false), WebhookReply::ConfirmationFailed);
    assert_eq!(webhook_reply(SnsAction::ProcessNotification, true), WebhookReply::NotificationProcessed);
    assert_eq!(webhook_reply(SnsAction::ProcessNotification, false), WebhookReply::NotificationReceived);
    assert_eq!(webhook_reply(SnsAction::Reject, true), WebhookReply::UnknownMessageType);
}

#[test]
fn notifications_are_always_acknowledged() {
    for ok in [true, false] {
        assert_eq!(webhook_reply(SnsAction::ProcessNotification, ok).status_code(), 200);
    }
    assert_eq!(WebhookReply::ConfirmationFailed.status_code(), 500);
    assert_eq!(WebhookReply::UnknownMessageType.status_code(), 400);
    assert_eq!(WebhookReply::SubscriptionConfirmed.status_code(), 200);
}

#[test]
fn webhook_bodies() {
    let pairs = |r: WebhookReply| -> Vec<(String, String)> { r.body_fields() };
    assert_eq!(
        pairs(WebhookReply::SubscriptionConfirmed),
        vec![("status".to_string(), "subscription_confirmed".to_string())]
    );
    assert_eq!(
        pairs(WebhookReply::NotificationReceived),
        vec![
            ("status".to_string(), "notification_received".to_string()),
            ("note".to_string(), "Processing error logged".to_string()),
        ]
    );
    assert_eq!(
        pairs(WebhookReply::UnknownMessageType),
        vec![("error".to_string(), "Unknown message type".to_string())]
    );
    assert_eq!(
        pairs(WebhookReply::ConfirmationFailed),
        vec![("error".to_string(), "Failed to confirm subscription".to_string())]
    );
    assert_eq!(
        pairs(WebhookReply::NotificationProcessed),
        vec![("status".to_string(), "notification_processed".to_string())]
    );
}
