use vstd::prelude::*;

use crate::notify::channels::db::{
    notification_record, spec_notification_record, NotificationRecord, NotificationRecordView,
};
use crate::notify::{NotificationEvent, NotificationEventView};
use crate::time::Timestamp;

verus! {

/// A device of the user, as the device list gives it: its push token, if it
/// has registered one.
pub struct Device {
    pub fcm_token: Option<String>,
}

/// A browser push subscription of the user.
pub struct PushSubscription {
    pub endpoint: String,
    pub p256dh: String,
    pub auth: String,
}

/// One push to a native device.
pub struct FcmPush {
    pub token: String,
    pub title: String,
    pub body: String,
}

/// One push to a browser.
pub struct WebPush {
    pub endpoint: String,
    pub p256dh: String,
    pub auth: String,
    pub payload: String,
}

/// What a notification carries through the channels: whom it is for, the
/// title and body native pushes show, and the JSON payload of browser pushes.
pub struct Delivery {
    pub user_id: u128,
    pub title: String,
    pub body: String,
    pub payload: String,
}

pub struct DeliveryView {
    pub user_id: u128,
    pub title: Seq<char>,
    pub body: Seq<char>,
    pub payload: Seq<char>,
}

impl View for Device {
    /// The push token, if any.
    type V = Option<Seq<char>>;

    open spec fn view(&self) -> Option<Seq<char>> {
        self.fcm_token.deep_view()
    }
}

impl View for PushSubscription {
    /// The endpoint and the two keys.
    type V = (Seq<char>, Seq<char>, Seq<char>);

    open spec fn view(&self) -> (Seq<char>, Seq<char>, Seq<char>) {
        (self.endpoint@, self.p256dh@, self.auth@)
    }
}

impl View for FcmPush {
    /// The token, title and body.
    type V = (Seq<char>, Seq<char>, Seq<char>);

    open spec fn view(&self) -> (Seq<char>, Seq<char>, Seq<char>) {
        (self.token@, self.title@, self.body@)
    }
}

impl View for WebPush {
    /// The endpoint, the two keys and the payload.
    type V = (Seq<char>, Seq<char>, Seq<char>, Seq<char>);

    open spec fn view(&self) -> (Seq<char>, Seq<char>, Seq<char>, Seq<char>) {
        (self.endpoint@, self.p256dh@, self.auth@, self.payload@)
    }
}

impl View for Delivery {
    type V = DeliveryView;

    open spec fn view(&self) -> DeliveryView {
        DeliveryView {
            user_id: self.user_id,
            title: self.title@,
            body: self.body@,
            payload: self.payload@,
        }
    }
}

/// The native pushes for a list of devices: one for each device with a push
/// token, in the devices' order, each with the notification's title and body.
pub open spec fn spec_fcm_pushes(devices: Seq<Option<Seq<char>>>, title: Seq<char>, body: Seq<char>) -> Seq<
    (Seq<char>, Seq<char>, Seq<char>),
>
    decreases devices.len(),
{
    if devices.len() == 0 {
        Seq::empty()
    } else {
        let before = spec_fcm_pushes(devices.drop_last(), title, body);
        match devices.last() {
            Some(token) => before.push((token, title, body)),
            None => before,
        }
    }
}

/// The browser pushes for a list of subscriptions: one for each, in order,
/// all with the same payload.
pub open spec fn spec_web_pushes(
    subscriptions: Seq<(Seq<char>, Seq<char>, Seq<char>)>,
    payload: Seq<char>,
) -> Seq<(Seq<char>, Seq<char>, Seq<char>, Seq<char>)> {
    subscriptions.map_values(
        |s: (Seq<char>, Seq<char>, Seq<char>)| (s.0, s.1, s.2, payload),
    )
}

/// The native pushes for a notification: one per device with a push token.
pub fn fcm_pushes(delivery: &Delivery, devices: &Vec<Device>) -> (pushes: Vec<FcmPush>)
    ensures
        pushes@.map_values(|p: FcmPush| p@) == spec_fcm_pushes(
            devices@.map_values(|d: Device| d@),
            delivery.title@,
            delivery.body@,
        ),
{
    let ghost all = devices@.map_values(|d: Device| d@);
    let mut pushes: Vec<FcmPush> = Vec::new();
    let n = devices.len();
    for i in 0..n
        invariant
            n == devices@.len(),
            all == devices@.map_values(|d: Device| d@),
            pushes@.map_values(|p: FcmPush| p@) == spec_fcm_pushes(
                all.take(i as int),
                delivery.title@,
                delivery.body@,
            ),
    {
        assert(all.take(i + 1).drop_last() =~= all.take(i as int));
        let ghost before = pushes@;
        if let Some(token) = &devices[i].fcm_token {
            pushes.push(
                FcmPush {
                    token: token.clone(),
                    title: delivery.title.clone(),
                    body: delivery.body.clone(),
                },
            );
            assert(pushes@.map_values(|p: FcmPush| p@) =~= before.map_values(|p: FcmPush| p@).push(
                (token@, delivery.title@, delivery.body@),
            ));
        }
    }
    assert(all.take(n as int) =~= all);
    pushes
}

/// The browser pushes for a notification: one per subscription, carrying the
/// notification's payload.
pub fn web_pushes(delivery: &Delivery, subscriptions: &Vec<PushSubscription>) -> (pushes: Vec<
    WebPush,
>)
    ensures
        pushes@.map_values(|p: WebPush| p@) == spec_web_pushes(
            subscriptions@.map_values(|s: PushSubscription| s@),
            delivery.payload@,
        ),
{
    let mut pushes: Vec<WebPush> = Vec::new();
    let n = subscriptions.len();
    for i in 0..n
        invariant
            n == subscriptions@.len(),
            pushes@.len() == i,
            forall|j: int|
                0 <= j < i ==> (#[trigger] pushes@[j])@ == (
                    subscriptions@[j].endpoint@,
                    subscriptions@[j].p256dh@,
                    subscriptions@[j].auth@,
                    delivery.payload@,
                ),
    {
        let s = &subscriptions[i];
        pushes.push(
            WebPush {
                endpoint: s.endpoint.clone(),
                p256dh: s.p256dh.clone(),
                auth: s.auth.clone(),
                payload: delivery.payload.clone(),
            },
        );
    }
    assert(pushes@.map_values(|p: WebPush| p@) =~= spec_web_pushes(
        subscriptions@.map_values(|s: PushSubscription| s@),
        delivery.payload@,
    ));
    pushes
}

// ---------------------------------------------------------------------------
// The dispatch of a notification over its three channels: the database
// record, native pushes to the user's devices, browser pushes to the user's
// subscriptions. The decisions are made here; the database work and the
// sending are the actions asked for, and their results are the events.
// ---------------------------------------------------------------------------

/// Where a dispatch stands, waiting for the result of its last action.
pub enum DispatchFlow {
    AwaitPersist { delivery: Delivery },
    AwaitDevices { delivery: Delivery },
    AwaitNativeSends { delivery: Delivery },
    AwaitSubscriptions { delivery: Delivery },
    AwaitBrowserSends,
    Done,
}

/// The result of the action a dispatch asked for.
pub enum DispatchEvent {
    /// The record was stored, or the database's error text.
    Persisted(Result<(), String>),
    /// The user's active devices, or `None` when they could not be listed.
    Devices(Option<Vec<Device>>),
    /// The pushes asked for were sent (each one succeeding or not).
    Sent,
    /// The user's push subscriptions, or `None` when they could not be listed.
    Subscriptions(Option<Vec<PushSubscription>>),
}

/// What the dispatch asks to be done next.
pub enum DispatchAction {
    /// Store the notification record.
    Persist { record: NotificationRecord },
    /// List the user's active devices.
    ListDevices { user_id: u128 },
    /// Send these native pushes, one after the other.
    SendNative { pushes: Vec<FcmPush> },
    /// List the user's push subscriptions.
    ListSubscriptions { user_id: u128 },
    /// Send these browser pushes, one after the other.
    SendBrowser { pushes: Vec<WebPush> },
    /// The notification has been dispatched.
    Finish,
}

pub enum DispatchFlowView {
    AwaitPersist { delivery: DeliveryView },
    AwaitDevices { delivery: DeliveryView },
    AwaitNativeSends { delivery: DeliveryView },
    AwaitSubscriptions { delivery: DeliveryView },
    AwaitBrowserSends,
    Done,
}

pub enum DispatchEventView {
    Persisted(Result<(), Seq<char>>),
    Devices(Option<Seq<Option<Seq<char>>>>),
    Sent,
    Subscriptions(Option<Seq<(Seq<char>, Seq<char>, Seq<char>)>>),
}

pub enum DispatchActionView {
    Persist { record: NotificationRecordView },
    ListDevices { user_id: u128 },
    SendNative { pushes: Seq<(Seq<char>, Seq<char>, Seq<char>)> },
    ListSubscriptions { user_id: u128 },
    SendBrowser { pushes: Seq<(Seq<char>, Seq<char>, Seq<char>, Seq<char>)> },
    Finish,
}

impl View for DispatchFlow {
    type V = DispatchFlowView;

    open spec fn view(&self) -> DispatchFlowView {
        match self {
            DispatchFlow::AwaitPersist { delivery } => DispatchFlowView::AwaitPersist {
                delivery: delivery@,
            },
            DispatchFlow::AwaitDevices { delivery } => DispatchFlowView::AwaitDevices {
                delivery: delivery@,
            },
            DispatchFlow::AwaitNativeSends { delivery } => DispatchFlowView::AwaitNativeSends {
                delivery: delivery@,
            },
            DispatchFlow::AwaitSubscriptions { delivery } => DispatchFlowView::AwaitSubscriptions {
                delivery: delivery@,
            },
            DispatchFlow::AwaitBrowserSends => DispatchFlowView::AwaitBrowserSends,
            DispatchFlow::Done => DispatchFlowView::Done,
        }
    }
}

impl View for DispatchEvent {
    type V = DispatchEventView;

    open spec fn view(&self) -> DispatchEventView {
        match self {
            DispatchEvent::Persisted(r) => DispatchEventView::Persisted(
                match r {
                    Ok(()) => Ok(()),
                    Err(e) => Err(e@),
                },
            ),
            DispatchEvent::Devices(d) => DispatchEventView::Devices(
                match d {
                    Some(v) => Some(v@.map_values(|x: Device| x@)),
                    None => None,
                },
            ),
            DispatchEvent::Sent => DispatchEventView::Sent,
            DispatchEvent::Subscriptions(s) => DispatchEventView::Subscriptions(
                match s {
                    Some(v) => Some(v@.map_values(|x: PushSubscription| x@)),
                    None => None,
                },
            ),
        }
    }
}

impl View for DispatchAction {
    type V = DispatchActionView;

    open spec fn view(&self) -> DispatchActionView {
        match self {
            DispatchAction::Persist { record } => DispatchActionView::Persist { record: record@ },
            DispatchAction::ListDevices { user_id } => DispatchActionView::ListDevices {
                user_id: *user_id,
            },
            DispatchAction::SendNative { pushes } => DispatchActionView::SendNative {
                pushes: pushes@.map_values(|p: FcmPush| p@),
            },
            DispatchAction::ListSubscriptions { user_id } => DispatchActionView::ListSubscriptions {
                user_id: *user_id,
            },
            DispatchAction::SendBrowser { pushes } => DispatchActionView::SendBrowser {
                pushes: pushes@.map_values(|p: WebPush| p@),
            },
            DispatchAction::Finish => DispatchActionView::Finish,
        }
    }
}

impl DispatchFlowView {
    /// Whether the dispatch waits for this kind of result.
    pub open spec fn accepts(self, event: DispatchEventView) -> bool {
        match self {
            DispatchFlowView::AwaitPersist { .. } => event is Persisted,
            DispatchFlowView::AwaitDevices { .. } => event is Devices,
            DispatchFlowView::AwaitNativeSends { .. } => event is Sent,
            DispatchFlowView::AwaitSubscriptions { .. } => event is Subscriptions,
            DispatchFlowView::AwaitBrowserSends => event is Sent,
            DispatchFlowView::Done => false,
        }
    }

    /// At most how many more results the dispatch waits for.
    pub open spec fn remaining_steps(self) -> nat {
        match self {
            DispatchFlowView::AwaitPersist { .. } => 5,
            DispatchFlowView::AwaitDevices { .. } => 4,
            DispatchFlowView::AwaitNativeSends { .. } => 3,
            DispatchFlowView::AwaitSubscriptions { .. } => 2,
            DispatchFlowView::AwaitBrowserSends => 1,
            DispatchFlowView::Done => 0,
        }
    }
}

/// Whether an event is the result of an action: what the service hands back
/// after doing what the action asks for. Finishing has no result.
pub open spec fn dispatch_answers(action: DispatchActionView, event: DispatchEventView) -> bool {
    match action {
        DispatchActionView::Persist { .. } => event is Persisted,
        DispatchActionView::ListDevices { .. } => event is Devices,
        DispatchActionView::SendNative { .. } => event is Sent,
        DispatchActionView::ListSubscriptions { .. } => event is Subscriptions,
        DispatchActionView::SendBrowser { .. } => event is Sent,
        DispatchActionView::Finish => false,
    }
}

/// What a notification carries through the channels: a missing body is sent
/// to devices as the empty text.
pub open spec fn spec_delivery(event: NotificationEventView, payload: Seq<char>) -> DeliveryView {
    DeliveryView {
        user_id: event.user_id,
        title: event.title,
        body: match event.body {
            Some(b) => b,
            None => Seq::empty(),
        },
        payload,
    }
}

/// Once the devices are dealt with: list the subscriptions.
pub open spec fn to_subscriptions(d: DeliveryView) -> (DispatchFlowView, DispatchActionView) {
    (
        DispatchFlowView::AwaitSubscriptions { delivery: d },
        DispatchActionView::ListSubscriptions { user_id: d.user_id },
    )
}

/// Where a dispatch goes, and what it asks for, on the result it waits for.
/// A failure to store the record or to list devices or subscriptions only
/// skips that channel: the dispatch goes on with the next one.
pub open spec fn dispatch_next(flow: DispatchFlowView, event: DispatchEventView) -> (
    DispatchFlowView,
    DispatchActionView,
) {
    match flow {
        DispatchFlowView::AwaitPersist { delivery } => (
            DispatchFlowView::AwaitDevices { delivery },
            DispatchActionView::ListDevices { user_id: delivery.user_id },
        ),
        DispatchFlowView::AwaitDevices { delivery } => match event {
            DispatchEventView::Devices(Some(devices)) => (
                DispatchFlowView::AwaitNativeSends { delivery },
                DispatchActionView::SendNative {
                    pushes: spec_fcm_pushes(devices, delivery.title, delivery.body),
                },
            ),
            _ => to_subscriptions(delivery),
        },
        DispatchFlowView::AwaitNativeSends { delivery } => to_subscriptions(delivery),
        DispatchFlowView::AwaitSubscriptions { delivery } => match event {
            DispatchEventView::Subscriptions(Some(subscriptions)) => (
                DispatchFlowView::AwaitBrowserSends,
                DispatchActionView::SendBrowser {
                    pushes: spec_web_pushes(subscriptions, delivery.payload),
                },
            ),
            _ => (DispatchFlowView::Done, DispatchActionView::Finish),
        },
        DispatchFlowView::AwaitBrowserSends => (DispatchFlowView::Done, DispatchActionView::Finish),
        DispatchFlowView::Done => (DispatchFlowView::Done, DispatchActionView::Finish),
    }
}

/// Starts dispatching a notification: the record is stored first. `id` and
/// `now` are the record's id and creation time; `payload` is the
/// notification's JSON text, sent to browsers.
pub fn dispatch(event: &NotificationEvent, id: u128, now: Timestamp, payload: String) -> (r: (
    DispatchFlow,
    DispatchAction,
))
    ensures
        r.0@ == (DispatchFlowView::AwaitPersist { delivery: spec_delivery(event@, payload@) }),
        r.1@ == (DispatchActionView::Persist {
            record: spec_notification_record(event@, id, now),
        }),
{
    let body = match &event.body {
        Some(b) => b.clone(),
        None => String::new(),
    };
    let delivery = Delivery { user_id: event.user_id, title: event.title.clone(), body, payload };
    let record = notification_record(event, id, now);
    (DispatchFlow::AwaitPersist { delivery }, DispatchAction::Persist { record })
}

/// Moves a dispatch on with the result of the action it asked for, and names
/// the next action.
pub fn dispatch_step(flow: DispatchFlow, event: DispatchEvent) -> (r: (DispatchFlow, DispatchAction))
    requires
        flow@.accepts(event@),
    ensures
        (r.0@, r.1@) == dispatch_next(flow@, event@),
{
    match flow {
        DispatchFlow::AwaitPersist { delivery } => {
            let user_id = delivery.user_id;
            (DispatchFlow::AwaitDevices { delivery }, DispatchAction::ListDevices { user_id })
        },
        DispatchFlow::AwaitDevices { delivery } => match event {
            DispatchEvent::Devices(Some(devices)) => {
                let pushes = fcm_pushes(&delivery, &devices);
                (DispatchFlow::AwaitNativeSends { delivery }, DispatchAction::SendNative { pushes })
            },
            _ => {
                let user_id = delivery.user_id;
                (
                    DispatchFlow::AwaitSubscriptions { delivery },
                    DispatchAction::ListSubscriptions { user_id },
                )
            },
        },
        DispatchFlow::AwaitNativeSends { delivery } => {
            let user_id = delivery.user_id;
            (
                DispatchFlow::AwaitSubscriptions { delivery },
                DispatchAction::ListSubscriptions { user_id },
            )
        },
        DispatchFlow::AwaitSubscriptions { delivery } => match event {
            DispatchEvent::Subscriptions(Some(subscriptions)) => {
                let pushes = web_pushes(&delivery, &subscriptions);
                (DispatchFlow::AwaitBrowserSends, DispatchAction::SendBrowser { pushes })
            },
            _ => (DispatchFlow::Done, DispatchAction::Finish),
        },
        DispatchFlow::AwaitBrowserSends => (DispatchFlow::Done, DispatchAction::Finish),
        DispatchFlow::Done => (DispatchFlow::Done, DispatchAction::Finish),
    }
}

/// A failure on one channel only skips that channel: whatever storing the
/// record gave, the devices are listed next; when they cannot be listed, the
/// subscriptions are listed next; when those cannot be listed, the dispatch
/// ends.
pub proof fn law_failures_skip_only_their_channel(
    delivery: DeliveryView,
    stored: Result<(), Seq<char>>,
)
    ensures
        dispatch_next(
            DispatchFlowView::AwaitPersist { delivery },
            DispatchEventView::Persisted(stored),
        ) == (DispatchFlowView::AwaitDevices { delivery }, DispatchActionView::ListDevices {
            user_id: delivery.user_id,
        }),
        dispatch_next(
            DispatchFlowView::AwaitDevices { delivery },
            DispatchEventView::Devices(None),
        ) == (DispatchFlowView::AwaitSubscriptions { delivery },
        DispatchActionView::ListSubscriptions { user_id: delivery.user_id }),
        dispatch_next(
            DispatchFlowView::AwaitSubscriptions { delivery },
            DispatchEventView::Subscriptions(None),
        ) == (DispatchFlowView::Done, DispatchActionView::Finish),
{
}

/// Every result moves a dispatch closer to its end, and it finishes exactly
/// when it is done: the channels are served once each, in order.
pub proof fn law_dispatch_progresses(flow: DispatchFlowView, event: DispatchEventView)
    requires
        flow.accepts(event),
    ensures
        dispatch_next(flow, event).0.remaining_steps() < flow.remaining_steps(),
        dispatch_next(flow, event).1 is Finish <==> dispatch_next(flow, event).0 is Done,
{
}

/// Each device with a push token gets a push with the notification's title
/// and body, and every push goes to the token of some device; there are never
/// more pushes than devices.
pub proof fn law_native_pushes_reach_devices_with_tokens(
    devices: Seq<Option<Seq<char>>>,
    title: Seq<char>,
    body: Seq<char>,
)
    ensures
        spec_fcm_pushes(devices, title, body).len() <= devices.len(),
        forall|i: int|
            0 <= i < devices.len() && (#[trigger] devices[i]) is Some ==> spec_fcm_pushes(
                devices,
                title,
                body,
            ).contains((devices[i]->0, title, body)),
        forall|k: int|
            0 <= k < spec_fcm_pushes(devices, title, body).len() ==> {
                let p = #[trigger] spec_fcm_pushes(devices, title, body)[k];
                &&& p.1 == title
                &&& p.2 == body
                &&& exists|i: int| 0 <= i < devices.len() && devices[i] == Some(p.0)
            },
    decreases devices.len(),
{
    if devices.len() > 0 {
        let rest = devices.drop_last();
        law_native_pushes_reach_devices_with_tokens(rest, title, body);
        let before = spec_fcm_pushes(rest, title, body);
        let all = spec_fcm_pushes(devices, title, body);
        assert forall|i: int|
            0 <= i < devices.len() && (#[trigger] devices[i]) is Some implies all.contains(
                (devices[i]->0, title, body),
            ) by {
            if i < devices.len() - 1 {
                assert(rest[i] == devices[i]);
                let k = choose|k: int| 0 <= k < before.len() && before[k] == (devices[i]->0, title, body);
                assert(all[k] == before[k]);
            } else {
                assert(all[all.len() - 1] == (devices[i]->0, title, body));
            }
        }
        assert forall|k: int| 0 <= k < all.len() implies {
            let p = #[trigger] all[k];
            &&& p.1 == title
            &&& p.2 == body
            &&& exists|i: int| 0 <= i < devices.len() && devices[i] == Some(p.0)
        } by {
            if k < before.len() {
                assert(all[k] == before[k]);
                let p = before[k];
                let i = choose|i: int| 0 <= i < rest.len() && rest[i] == Some(p.0);
                assert(devices[i] == rest[i]);
            } else {
                assert(devices[devices.len() - 1] == Some(all[k].0));
            }
        }
    }
}

/// A dispatch always waits for exactly the result of the action it asked
/// for, from its start on.
pub proof fn law_dispatch_waits_for_its_action(
    flow: DispatchFlowView,
    event: DispatchEventView,
    result: DispatchEventView,
    delivery: DeliveryView,
    record: NotificationRecordView,
)
    ensures
        flow.accepts(event) ==> (dispatch_next(flow, event).0.accepts(result) <==> dispatch_answers(
            dispatch_next(flow, event).1,
            result,
        )),
        (DispatchFlowView::AwaitPersist { delivery }).accepts(result) <==> dispatch_answers(
            (DispatchActionView::Persist { record }),
            result,
        ),
{
}

/// The browser channel is served whatever the device list gave: with no
/// device list, the subscriptions are listed next; with one (empty, or with
/// devices with or without tokens), the native pushes are sent and the
/// subscriptions listed right after; the dispatch never finishes straight
/// from the device list.
pub proof fn law_browser_channel_follows_the_devices(
    delivery: DeliveryView,
    devices: Option<Seq<Option<Seq<char>>>>,
)
    ensures
        ({
            let (f1, a1) = dispatch_next(
                DispatchFlowView::AwaitDevices { delivery },
                DispatchEventView::Devices(devices),
            );
            &&& a1 !is Finish
            &&& f1 !is Done
            &&& match devices {
                None => a1 == DispatchActionView::ListSubscriptions { user_id: delivery.user_id },
                Some(_) => {
                    &&& a1 is SendNative
                    &&& dispatch_next(f1, DispatchEventView::Sent).1
                        == DispatchActionView::ListSubscriptions { user_id: delivery.user_id }
                },
            }
        }),
{
}

} // verus!
