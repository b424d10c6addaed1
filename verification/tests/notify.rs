use eulesia::notify::channels::db::notification_record;
use eulesia::notify::dispatch::{
    dispatch, dispatch_step, fcm_pushes, web_pushes, Delivery, Device, DispatchAction,
    DispatchEvent, DispatchFlow, PushSubscription,
};
use eulesia::notify::NotificationEvent;
use eulesia::time::Timestamp;

fn event(body: Option<&str>) -> NotificationEvent {
    NotificationEvent {
        user_id: 77,
        event_type: "reply".to_string(),
        title: "New reply".to_string(),
        body: body.map(|b| b.to_string()),
        link: Some("/threads/1".to_string()),
    }
}

fn now() -> Timestamp {
    Timestamp::new(1_700_000_000, 0, 0).unwrap()
}

fn device(token: Option<&str>) -> Device {
    Device { fcm_token: token.map(|t| t.to_string()) }
}

fn subscription(endpoint: &str) -> PushSubscription {
    PushSubscription {
        endpoint: endpoint.to_string(),
        p256dh: "key".to_string(),
        auth: "secret".to_string(),
    }
}

#[test]
fn notification_record_is_unread_and_copies_the_event() {
    let r = notification_record(&event(Some("hi")), 5, now());
    assert_eq!(r.id, 5);
    assert_eq!(r.user_id, 77);
    assert_eq!(r.event_type, "reply");
    assert_eq!(r.title, "New reply");
    assert_eq!(r.body.as_deref(), Some("hi"));
    assert_eq!(r.link.as_deref(), Some("/threads/1"));
    assert!(!r.read);
    assert_eq!(r.created_at.unix_secs(), 1_700_000_000);
}

#[test]
fn native_pushes_go_to_devices_with_tokens() {
    let d = Delivery {
        user_id: 1,
        title: "T".to_string(),
        body: "B".to_string(),
        payload: "{}".to_string(),
    };
    let pushes = fcm_pushes(&d, &vec![device(Some("a")), device(None), device(Some("b"))]);
    assert_eq!(pushes.len(), 2);
    assert_eq!(pushes[0].token, "a");
    assert_eq!(pushes[1].token, "b");
    assert_eq!(pushes[1].title, "T");
    assert_eq!(pushes[1].body, "B");
    assert!(fcm_pushes(&d, &vec![]).is_empty());
}

#[test]
fn browser_pushes_carry_the_payload() {
    let d = Delivery {
        user_id: 1,
        title: "T".to_string(),
        body: "B".to_string(),
        payload: "{\"a\":1}".to_string(),
    };
    let pushes = web_pushes(&d, &vec![subscription("https://push/1"), subscription("https://push/2")]);
    assert_eq!(pushes.len(), 2);
    assert_eq!(pushes[0].endpoint, "https://push/1");
    assert_eq!(pushes[1].endpoint, "https://push/2");
    assert_eq!(pushes[0].p256dh, "key");
    assert_eq!(pushes[0].auth, "secret");
    assert_eq!(pushes[1].payload, "{\"a\":1}");
}

#[test]
fn dispatch_serves_the_three_channels_in_order() {
    let (flow, action) = dispatch(&event(None), 9, now(), "{}".to_string());
    let DispatchAction::Persist { record } = action else { panic!("expected a persist") };
    assert_eq!(record.id, 9);
    let (flow, action) = dispatch_step(flow, DispatchEvent::Persisted(Ok(())));
    assert!(matches!(action, DispatchAction::ListDevices { user_id: 77 }));
    let (flow, action) = dispatch_step(
        flow,
        DispatchEvent::Devices(Some(vec![device(Some("tok")), device(None)])),
    );
    match &action {
        DispatchAction::SendNative { pushes } => {
            assert_eq!(pushes.len(), 1);
            assert_eq!(pushes[0].token, "tok");
            assert_eq!(pushes[0].title, "New reply");
            assert_eq!(pushes[0].body, "");
        },
        _ => panic!("expected native pushes"),
    }
    let (flow, action) = dispatch_step(flow, DispatchEvent::Sent);
    assert!(matches!(action, DispatchAction::ListSubscriptions { user_id: 77 }));
    let (flow, action) = dispatch_step(flow, DispatchEvent::Subscriptions(Some(vec![subscription("e")])));
    match &action {
        DispatchAction::SendBrowser { pushes } => {
            assert_eq!(pushes.len(), 1);
            assert_eq!(pushes[0].payload, "{}");
        },
        _ => panic!("expected browser pushes"),
    }
    let (flow, action) = dispatch_step(flow, DispatchEvent::Sent);
    assert!(matches!(action, DispatchAction::Finish));
    assert!(matches!(flow, DispatchFlow::Done));
}

#[test]
fn failures_only_skip_their_channel() {
    let (flow, _) = dispatch(&event(Some("body")), 9, now(), "{}".to_string());
    let (flow, action) = dispatch_step(flow, DispatchEvent::Persisted(Err("down".to_string())));
    assert!(matches!(action, DispatchAction::ListDevices { .. }));
    let (flow, action) = dispatch_step(flow, DispatchEvent::Devices(None));
    assert!(matches!(action, DispatchAction::ListSubscriptions { .. }));
    let (flow, action) = dispatch_step(flow, DispatchEvent::Subscriptions(None));
    assert!(matches!(action, DispatchAction::Finish));
    assert!(matches!(flow, DispatchFlow::Done));
}

#[test]
fn the_body_is_kept_when_present() {
    let (flow, _) = dispatch(&event(Some("see this")), 9, now(), "{}".to_string());
    let (flow, _) = dispatch_step(flow, DispatchEvent::Persisted(Ok(())));
    let (_, action) = dispatch_step(flow, DispatchEvent::Devices(Some(vec![device(Some("x"))])));
    let DispatchAction::SendNative { pushes } = action else { panic!("expected native pushes") };
    assert_eq!(pushes[0].body, "see this");
}
