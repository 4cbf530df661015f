use laposte_tracking::{event_status, DeliveryStatus, EventStatus};

#[test]
fn every_code_decodes() {
    let table = [
        ("DR1", EventStatus::Declared),
        ("PC1", EventStatus::CollectedByCarrier),
        ("PC2", EventStatus::CollectedInShippingCountry),
        ("ET1", EventStatus::UnderTreatment),
        ("ET2", EventStatus::UnderTreatmentInShippingCountry),
        ("ET3", EventStatus::UnderTreatmentInDestinationCountry),
        ("ET4", EventStatus::UnderTreatmentInTransitCountry),
        ("EP1", EventStatus::WaitingForPresentation),
        ("DO1", EventStatus::HandedToCustoms),
        ("DO2", EventStatus::ReleasedByCustoms),
        ("DO3", EventStatus::HeldByCustoms),
        ("PB1", EventStatus::ProblemOccurring),
        ("PB2", EventStatus::ProblemSolved),
        ("MD2", EventStatus::SetForDistribution),
        ("ND1", EventStatus::CannotDistribute),
        ("AG1", EventStatus::WaitingInPostOffice),
        ("RE1", EventStatus::ReturnedToSender),
        ("DI1", EventStatus::Delivered),
        ("DI2", EventStatus::DeliveredToSender),
    ];
    for (code, status) in table.iter() {
        assert_eq!(EventStatus::try_from(*code), Ok(*status));
        assert_eq!(event_status(code), Ok(*status));
    }
}

#[test]
fn delivered_code() {
    assert_eq!(EventStatus::try_from("DI1"), Ok(EventStatus::Delivered));
}

#[test]
fn unknown_codes_fail() {
    assert!(EventStatus::try_from("XX9").is_err());
    assert!(EventStatus::try_from("di1").is_err());
    assert!(EventStatus::try_from("DI").is_err());
    assert!(EventStatus::try_from("DI11").is_err());
    assert!(EventStatus::try_from(" DI1").is_err());
    assert!(EventStatus::try_from("").is_err());
    assert!(event_status("MD1").is_err());
}

#[test]
fn steps_map_to_phases() {
    assert_eq!(DeliveryStatus::try_from(1), Ok(DeliveryStatus::ReadyToBeCollectedByCarrier));
    assert_eq!(DeliveryStatus::try_from(2), Ok(DeliveryStatus::CollectedByCarrier));
    assert_eq!(DeliveryStatus::try_from(3), Ok(DeliveryStatus::InTransit));
    assert_eq!(DeliveryStatus::try_from(4), Ok(DeliveryStatus::ReadyForDelivery));
    assert_eq!(DeliveryStatus::try_from(5), Ok(DeliveryStatus::Delivered));
    assert!(DeliveryStatus::try_from(0).is_err());
    assert!(DeliveryStatus::try_from(6).is_err());
    assert!(DeliveryStatus::try_from(u32::MAX).is_err());
}

#[test]
fn phases_are_ordered_by_step() {
    assert!(DeliveryStatus::ReadyToBeCollectedByCarrier < DeliveryStatus::CollectedByCarrier);
    assert!(DeliveryStatus::CollectedByCarrier < DeliveryStatus::InTransit);
    assert!(DeliveryStatus::InTransit < DeliveryStatus::ReadyForDelivery);
    assert!(DeliveryStatus::ReadyForDelivery < DeliveryStatus::Delivered);
}
