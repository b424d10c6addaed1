pub mod channels;
pub mod dispatch;

use vstd::prelude::*;

verus! {

/// Something a user is to be notified of.
pub struct NotificationEvent {
    pub user_id: u128,
    pub event_type: String,
    pub title: String,
    pub body: Option<String>,
    pub link: Option<String>,
}

pub struct NotificationEventView {
    pub user_id: u128,
    pub event_type: Seq<char>,
    pub title: Seq<char>,
    pub body: Option<Seq<char>>,
    pub link: Option<Seq<char>>,
}

impl View for NotificationEvent {
    type V = NotificationEventView;

    open spec fn view(&self) -> NotificationEventView {
        NotificationEventView {
            user_id: self.user_id,
            event_type: self.event_type@,
            title: self.title@,
            body: self.body.deep_view(),
            link: self.link.deep_view(),
        }
    }
}

} // verus!
