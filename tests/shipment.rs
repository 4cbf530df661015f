use laposte_tracking::{delivery_status, DeliveryStatus, Event, EventStatus, Shipment, TimelineEvent};

fn step(id: u32, status: bool) -> TimelineEvent {
    TimelineEvent {
        id,
        short_label: String::from("label"),
        long_label: String::from("long label"),
        status,
        kind: 1,
        country: String::from("FR"),
    }
}

fn event(order: u32, code: EventStatus) -> Event {
    Event {
        order,
        date: format!("2020-01-0{}", order),
        label: format!("event {}", order),
        code,
    }
}

fn shipment(event: Vec<Event>) -> Shipment {
    Shipment {
        id_ship: String::from("6A12345678912"),
        product: String::from("Colissimo"),
        is_final: false,
        timeline: DeliveryStatus::InTransit,
        event,
        holder: 4,
    }
}

#[test]
fn gap_stops_the_scan() {
    let steps = vec![step(1, true), step(2, true), step(3, false), step(4, true)];
    assert_eq!(delivery_status(&steps), Ok(DeliveryStatus::CollectedByCarrier));
}

#[test]
fn all_steps_completed_is_delivered() {
    let steps = vec![step(1, true), step(2, true), step(3, true), step(4, true), step(5, true)];
    assert_eq!(delivery_status(&steps), Ok(DeliveryStatus::Delivered));
}

#[test]
fn empty_timeline_is_first_phase() {
    assert_eq!(delivery_status(&vec![]), Ok(DeliveryStatus::ReadyToBeCollectedByCarrier));
}

#[test]
fn first_step_not_completed_is_first_phase() {
    let steps = vec![step(1, false), step(2, true)];
    assert_eq!(delivery_status(&steps), Ok(DeliveryStatus::ReadyToBeCollectedByCarrier));
}

#[test]
fn extension_after_gap_changes_nothing() {
    let short = vec![step(1, true), step(2, true), step(3, true), step(4, false)];
    let long = vec![step(1, true), step(2, true), step(3, true), step(4, false), step(5, true)];
    assert_eq!(delivery_status(&short), Ok(DeliveryStatus::InTransit));
    assert_eq!(delivery_status(&long), delivery_status(&short));
    assert_eq!(delivery_status(&long), delivery_status(&long));
}

#[test]
fn step_out_of_range_is_an_error() {
    assert!(delivery_status(&vec![step(1, true), step(7, true)]).is_err());
    assert!(delivery_status(&vec![step(0, true)]).is_err());
}

#[test]
fn last_and_first_event_by_order() {
    let s = shipment(vec![
        event(3, EventStatus::Delivered),
        event(1, EventStatus::Declared),
        event(2, EventStatus::UnderTreatment),
    ]);
    assert_eq!(s.last_event().unwrap().order, 3);
    assert_eq!(s.first_event().unwrap().order, 1);
    let t = shipment(vec![
        event(1, EventStatus::Declared),
        event(2, EventStatus::UnderTreatment),
        event(3, EventStatus::Delivered),
    ]);
    assert_eq!(t.last_event().unwrap().order, 3);
    assert_eq!(t.first_event().unwrap().order, 1);
}

#[test]
fn no_events_gives_no_first_or_last() {
    let s = shipment(vec![]);
    assert!(s.last_event().is_none());
    assert!(s.first_event().is_none());
}

#[test]
fn equal_orders_pick_one_of_them() {
    let s = shipment(vec![event(2, EventStatus::Declared), event(2, EventStatus::Delivered), event(1, EventStatus::ProblemOccurring)]);
    assert_eq!(s.last_event().unwrap().order, 2);
    assert_eq!(s.first_event().unwrap().code, EventStatus::ProblemOccurring);
}

#[test]
fn declared_wins_wherever_it_stands() {
    let s = shipment(vec![
        event(1, EventStatus::UnderTreatment),
        event(2, EventStatus::CollectedByCarrier),
        event(3, EventStatus::Declared),
    ]);
    let e = s.shipping_event().unwrap();
    assert_eq!(e.code, EventStatus::Declared);
    assert_eq!(e.order, 3);
}

#[test]
fn collected_by_carrier_before_collected_in_country() {
    let s = shipment(vec![
        event(1, EventStatus::CollectedInShippingCountry),
        event(2, EventStatus::CollectedByCarrier),
        event(3, EventStatus::CollectedByCarrier),
    ]);
    let e = s.shipping_event().unwrap();
    assert_eq!(e.code, EventStatus::CollectedByCarrier);
    assert_eq!(e.order, 2);
}

#[test]
fn collected_in_country_last_resort() {
    let s = shipment(vec![event(5, EventStatus::Delivered), event(4, EventStatus::CollectedInShippingCountry)]);
    assert_eq!(s.shipping_event().unwrap().order, 4);
}

#[test]
fn shipping_event_of_empty_list_is_none() {
    assert!(shipment(vec![]).shipping_event().is_none());
}

#[test]
fn shipping_event_without_candidates_is_none() {
    let s = shipment(vec![event(1, EventStatus::UnderTreatment), event(2, EventStatus::Delivered)]);
    assert!(s.shipping_event().is_none());
}
