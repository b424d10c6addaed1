use vstd::prelude::*;

use crate::text::clone_opt_string;

use crate::notify::{NotificationEvent, NotificationEventView};
use crate::time::Timestamp;

verus! {

/// A stored notification, as the database holds it.
pub struct NotificationRecord {
    pub id: u128,
    pub user_id: u128,
    pub event_type: String,
    pub title: String,
    pub body: Option<String>,
    pub link: Option<String>,
    pub read: bool,
    pub created_at: Timestamp,
}

pub struct NotificationRecordView {
    pub id: u128,
    pub user_id: u128,
    pub event_type: Seq<char>,
    pub title: Seq<char>,
    pub body: Option<Seq<char>>,
    pub link: Option<Seq<char>>,
    pub read: bool,
    pub created_at: Timestamp,
}

impl View for NotificationRecord {
    type V = NotificationRecordView;

    open spec fn view(&self) -> NotificationRecordView {
        NotificationRecordView {
            id: self.id,
            user_id: self.user_id,
            event_type: self.event_type@,
            title: self.title@,
            body: self.body.deep_view(),
            link: self.link.deep_view(),
            read: self.read,
            created_at: self.created_at,
        }
    }
}

/// The stored form of a notification: the event's user, type, title, body
/// and link, unread, created now.
pub open spec fn spec_notification_record(
    event: NotificationEventView,
    id: u128,
    now: Timestamp,
) -> NotificationRecordView {
    NotificationRecordView {
        id,
        user_id: event.user_id,
        event_type: event.event_type,
        title: event.title,
        body: event.body,
        link: event.link,
        read: false,
        created_at: now,
    }
}

/// Builds the record that persists a notification (the database channel).
/// `id` and `now` are the new record's id and creation time.
pub fn notification_record(event: &NotificationEvent, id: u128, now: Timestamp) -> (r:
    NotificationRecord)
    ensures
        r@ == spec_notification_record(event@, id, now),
{
    NotificationRecord {
        id,
        user_id: event.user_id,
        event_type: event.event_type.clone(),
        title: event.title.clone(),
        body: clone_opt_string(&event.body),
        link: clone_opt_string(&event.link),
        read: false,
        created_at: now,
    }
}

} // verus!
