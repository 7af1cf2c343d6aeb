use denim::hub::Hub;
use denim::routes::sse::SseEvent;

#[test]
fn earlier_subscriber_receives_and_later_does_not() {
    let mut hub = Hub::new(4);
    let early = hub.subscribe();
    let receivers = hub.publish(SseEvent::CrudEvent);
    assert_eq!(receivers, 1);
    let late = hub.subscribe();
    assert_ne!(early, late);
    assert_eq!(hub.receive(early), Some(SseEvent::CrudEvent));
    assert_eq!(hub.receive(early), None);
    assert_eq!(hub.receive(late), None);
}

#[test]
fn publish_without_subscribers_drops_the_event() {
    let mut hub = Hub::new(2);
    assert_eq!(hub.publish(SseEvent::CrudPerson), 0);
    let id = hub.subscribe();
    assert_eq!(hub.pending_len(id), 0);
    assert_eq!(hub.receive(id), None);
}

#[test]
fn events_arrive_in_publish_order() {
    let mut hub = Hub::new(3);
    let a = hub.subscribe();
    let b = hub.subscribe();
    hub.publish(SseEvent::CrudEvent);
    hub.publish(SseEvent::ChangeSignUp { event_id: 9 });
    hub.publish(SseEvent::CrudPerson);
    for id in [a, b] {
        assert_eq!(hub.receive(id), Some(SseEvent::CrudEvent));
        assert_eq!(hub.receive(id), Some(SseEvent::ChangeSignUp { event_id: 9 }));
        assert_eq!(hub.receive(id), Some(SseEvent::CrudPerson));
        assert_eq!(hub.receive(id), None);
    }
}

#[test]
fn slow_subscriber_loses_the_oldest() {
    let mut hub = Hub::new(2);
    let slow = hub.subscribe();
    let quick = hub.subscribe();
    hub.publish(SseEvent::ChangeSignUp { event_id: 1 });
    assert_eq!(hub.receive(quick), Some(SseEvent::ChangeSignUp { event_id: 1 }));
    hub.publish(SseEvent::ChangeSignUp { event_id: 2 });
    assert_eq!(hub.receive(quick), Some(SseEvent::ChangeSignUp { event_id: 2 }));
    hub.publish(SseEvent::ChangeSignUp { event_id: 3 });
    assert_eq!(hub.receive(quick), Some(SseEvent::ChangeSignUp { event_id: 3 }));
    assert_eq!(hub.pending_len(slow), 2);
    assert_eq!(hub.receive(slow), Some(SseEvent::ChangeSignUp { event_id: 2 }));
    assert_eq!(hub.receive(slow), Some(SseEvent::ChangeSignUp { event_id: 3 }));
    assert_eq!(hub.receive(slow), None);
}

#[test]
fn capacity_of_one_keeps_the_newest() {
    let mut hub = Hub::new(1);
    let id = hub.subscribe();
    hub.publish(SseEvent::CrudEvent);
    hub.publish(SseEvent::CrudPerson);
    assert_eq!(hub.receive(id), Some(SseEvent::CrudPerson));
    assert_eq!(hub.receive(id), None);
}

#[test]
fn places_are_reused_after_unsubscribe() {
    let mut hub = Hub::new(2);
    let a = hub.subscribe();
    let b = hub.subscribe();
    assert_eq!((a, b), (0, 1));
    hub.publish(SseEvent::CrudEvent);
    hub.unsubscribe(a);
    assert_eq!(hub.receive(a), None);
    assert_eq!(hub.publish(SseEvent::CrudPerson), 1);
    let c = hub.subscribe();
    assert_eq!(c, 0);
    assert_eq!(hub.receive(c), None);
    assert_eq!(hub.receive(b), Some(SseEvent::CrudEvent));
    hub.unsubscribe(17);
    assert_eq!(hub.publish(SseEvent::CrudEvent), 2);
}

#[test]
fn events_travel_under_their_names() {
    assert_eq!(SseEvent::CrudEvent.event_name(), "crud_event");
    assert_eq!(SseEvent::CrudPerson.event_name(), "crud_person");
    let id = 0xa1a2a3a4b1b2c1c2d1d2d3d4d5d6d7d8u128;
    assert_eq!(
        SseEvent::ChangeSignUp { event_id: id }.event_name(),
        "change_sign_up_a1a2a3a4-b1b2-c1c2-d1d2-d3d4d5d6d7d8"
    );
    assert_eq!(SseEvent::ChangeSignUp { event_id: id }.correlation_id(), Some(id));
    assert_eq!(SseEvent::CrudEvent.correlation_id(), None);
}
