//! Decisions of the SES notification webhook: what to do with an SNS
//! message of a given type, and how to answer once it was handled.

use vstd::prelude::*;

use crate::text::str_eq;

verus! {

/// What the webhook does with an SNS message.
#[derive(Clone, Copy, PartialEq, Eq, Debug)]
pub enum SnsAction {
    /// Confirm the topic subscription.
    ConfirmSubscription,
    /// Record the bounce or complaint the notification carries.
    ProcessNotification,
    /// Refuse a message of an unknown type.
    Reject,
}

/// The action for an SNS message type.
pub open spec fn action_for(message_type: Seq<char>) -> SnsAction {
    if message_type == "SubscriptionConfirmation"@ {
        SnsAction::ConfirmSubscription
    } else if message_type == "Notification"@ {
        SnsAction::ProcessNotification
    } else {
        SnsAction::Reject
    }
}

/// Choose the action for an SNS message type.
pub fn sns_action(message_type: &str) -> (r: SnsAction)
    ensures
        r == action_for(message_type@),
{
    if str_eq(message_type, "SubscriptionConfirmation") {
        SnsAction::ConfirmSubscription
    } else if str_eq(message_type, "Notification") {
        SnsAction::ProcessNotification
    } else {
        SnsAction::Reject
    }
}

/// The webhook's answer.
#[derive(Clone, Copy, PartialEq, Eq, Debug)]
pub enum WebhookReply {
    SubscriptionConfirmed,
    ConfirmationFailed,
    NotificationProcessed,
    /// A notification whose processing failed is still acknowledged, so that
    /// SNS does not retry it.
    NotificationReceived,
    UnknownMessageType,
}

/// The answer after an action, given whether handling it succeeded (an
/// unknown type is refused without handling).
pub open spec fn reply_for(action: SnsAction, succeeded: bool) -> WebhookReply {
    match action {
        SnsAction::ConfirmSubscription => if succeeded {
            WebhookReply::SubscriptionConfirmed
        } else {
            WebhookReply::ConfirmationFailed
        },
        SnsAction::ProcessNotification => if succeeded {
            WebhookReply::NotificationProcessed
        } else {
            WebhookReply::NotificationReceived
        },
        SnsAction::Reject => WebhookReply::UnknownMessageType,
    }
}

/// Choose the answer after an action.
pub fn webhook_reply(action: SnsAction, succeeded: bool) -> (r: WebhookReply)
    ensures
        r == reply_for(action, succeeded),
{
    match action {
        SnsAction::ConfirmSubscription => if succeeded {
            WebhookReply::SubscriptionConfirmed
        } else {
            WebhookReply::ConfirmationFailed
        },
        SnsAction::ProcessNotification => if succeeded {
            WebhookReply::NotificationProcessed
        } else {
            WebhookReply::NotificationReceived
        },
        SnsAction::Reject => WebhookReply::UnknownMessageType,
    }
}

impl WebhookReply {
    /// The HTTP status of the answer.
    pub open spec fn status(self) -> u16 {
        match self {
            WebhookReply::SubscriptionConfirmed => 200,
            WebhookReply::ConfirmationFailed => 500,
            WebhookReply::NotificationProcessed => 200,
            WebhookReply::NotificationReceived => 200,
            WebhookReply::UnknownMessageType => 400,
        }
    }

    /// The fields of the JSON body of the answer, as key and value.
    pub open spec fn fields(self) -> Seq<(Seq<char>, Seq<char>)> {
        match self {
            WebhookReply::SubscriptionConfirmed => seq![("status"@, "subscription_confirmed"@)],
            WebhookReply::ConfirmationFailed => seq![("error"@, "Failed to confirm subscription"@)],
            WebhookReply::NotificationProcessed => seq![("status"@, "notification_processed"@)],
            WebhookReply::NotificationReceived => seq![
                ("status"@, "notification_received"@),
                ("note"@, "Processing error logged"@),
            ],
            WebhookReply::UnknownMessageType => seq![("error"@, "Unknown message type"@)],
        }
    }

    /// The HTTP status of the answer.
    pub fn status_code(&self) -> (r: u16)
        ensures
            r == self.status(),
    {
        match self {
            WebhookReply::SubscriptionConfirmed => 200,
            WebhookReply::ConfirmationFailed => 500,
            WebhookReply::NotificationProcessed => 200,
            WebhookReply::NotificationReceived => 200,
            WebhookReply::UnknownMessageType => 400,
        }
    }

    /// The fields of the JSON body of the answer, in order.
    pub fn body_fields(&self) -> (r: Vec<(String, String)>)
        ensures
            r.len() == self.fields().len(),
            forall|i: int|
                0 <= i < r.len() ==> (#[trigger] r@[i]).0@ == self.fields()[i].0 && r@[i].1@
                    == self.fields()[i].1,
    {
        let mut r: Vec<(String, String)> = Vec::new();
        match self {
            WebhookReply::SubscriptionConfirmed => {
                r.push(("status".to_owned(), "subscription_confirmed".to_owned()));
            },
            WebhookReply::ConfirmationFailed => {
                r.push(("error".to_owned(), "Failed to confirm subscription".to_owned()));
            },
            WebhookReply::NotificationProcessed => {
                r.push(("status".to_owned(), "notification_processed".to_owned()));
            },
            WebhookReply::NotificationReceived => {
                r.push(("status".to_owned(), "notification_received".to_owned()));
                r.push(("note".to_owned(), "Processing error logged".to_owned()));
            },
            WebhookReply::UnknownMessageType => {
                r.push(("error".to_owned(), "Unknown message type".to_owned()));
            },
        }
        r
    }
}

/// Every notification is acknowledged with 200, whether or not processing
/// it succeeded, so that SNS never retries one.
pub proof fn lemma_notifications_always_acknowledged(succeeded: bool)
    ensures
        reply_for(SnsAction::ProcessNotification, succeeded).status() == 200,
{
}

} // verus!
