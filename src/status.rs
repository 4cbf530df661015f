//! The two closed vocabularies of the tracking API: the five delivery phases
//! and the carrier's event codes.
use vstd::prelude::*;

verus! {

/// The coarse phase of a shipment, on a linear scale of steps 1 to 5.
#[derive(Debug, Clone, Copy, PartialEq, Eq, Structural, PartialOrd, Ord)]
pub enum DeliveryStatus {
    ReadyToBeCollectedByCarrier,
    CollectedByCarrier,
    InTransit,
    ReadyForDelivery,
    Delivered,
}

/// The phase that a step number stands for, if any.
pub open spec fn status_of_step(step: int) -> Option<DeliveryStatus> {
    if step == 1 {
        Some(DeliveryStatus::ReadyToBeCollectedByCarrier)
    } else if step == 2 {
        Some(DeliveryStatus::CollectedByCarrier)
    } else if step == 3 {
        Some(DeliveryStatus::InTransit)
    } else if step == 4 {
        Some(DeliveryStatus::ReadyForDelivery)
    } else if step == 5 {
        Some(DeliveryStatus::Delivered)
    } else {
        None
    }
}

impl DeliveryStatus {
    /// The step number of this phase.
    pub open spec fn step(self) -> int {
        match self {
            DeliveryStatus::ReadyToBeCollectedByCarrier => 1,
            DeliveryStatus::CollectedByCarrier => 2,
            DeliveryStatus::InTransit => 3,
            DeliveryStatus::ReadyForDelivery => 4,
            DeliveryStatus::Delivered => 5,
        }
    }

    /// The phase of step `step`; steps outside 1..=5 are rejected.
    pub fn try_from(step: u32) -> (r: Result<DeliveryStatus, &'static str>)
        ensures
            r is Ok <==> 1 <= step <= 5,
            r is Ok ==> Some(r->Ok_0) == status_of_step(step as int),
            r is Ok ==> r->Ok_0.step() == step,
    {
        match step {
            1 => Ok(DeliveryStatus::ReadyToBeCollectedByCarrier),
            2 => Ok(DeliveryStatus::CollectedByCarrier),
            3 => Ok(DeliveryStatus::InTransit),
            4 => Ok(DeliveryStatus::ReadyForDelivery),
            5 => Ok(DeliveryStatus::Delivered),
            _ => Err("Not a valid step"),
        }
    }
}


/// A milestone reported by the carrier; each one has a three-character code.
#[derive(Debug, Copy, Clone, PartialEq, Eq, Structural)]
pub enum EventStatus {
    Declared,
    CollectedByCarrier,
    CollectedInShippingCountry,
    UnderTreatment,
    UnderTreatmentInShippingCountry,
    UnderTreatmentInDestinationCountry,
    UnderTreatmentInTransitCountry,
    WaitingForPresentation,
    HandedToCustoms,
    ReleasedByCustoms,
    HeldByCustoms,
    ProblemOccurring,
    ProblemSolved,
    SetForDistribution,
    CannotDistribute,
    WaitingInPostOffice,
    ReturnedToSender,
    Delivered,
    DeliveredToSender,
}

/// The milestone that a code stands for, if any: exact and case-sensitive.
pub open spec fn status_of_code(code: Seq<char>) -> Option<EventStatus> {
    if code.len() != 3 {
        None
    } else {
        match (code[0], code[1], code[2]) {
            ('D', 'R', '1') => Some(EventStatus::Declared),
            ('P', 'C', '1') => Some(EventStatus::CollectedByCarrier),
            ('P', 'C', '2') => Some(EventStatus::CollectedInShippingCountry),
            ('E', 'T', '1') => Some(EventStatus::UnderTreatment),
            ('E', 'T', '2') => Some(EventStatus::UnderTreatmentInShippingCountry),
            ('E', 'T', '3') => Some(EventStatus::UnderTreatmentInDestinationCountry),
            ('E', 'T', '4') => Some(EventStatus::UnderTreatmentInTransitCountry),
            ('E', 'P', '1') => Some(EventStatus::WaitingForPresentation),
            ('D', 'O', '1') => Some(EventStatus::HandedToCustoms),
            ('D', 'O', '2') => Some(EventStatus::ReleasedByCustoms),
            ('D', 'O', '3') => Some(EventStatus::HeldByCustoms),
            ('P', 'B', '1') => Some(EventStatus::ProblemOccurring),
            ('P', 'B', '2') => Some(EventStatus::ProblemSolved),
            ('M', 'D', '2') => Some(EventStatus::SetForDistribution),
            ('N', 'D', '1') => Some(EventStatus::CannotDistribute),
            ('A', 'G', '1') => Some(EventStatus::WaitingInPostOffice),
            ('R', 'E', '1') => Some(EventStatus::ReturnedToSender),
            ('D', 'I', '1') => Some(EventStatus::Delivered),
            ('D', 'I', '2') => Some(EventStatus::DeliveredToSender),
            _ => None,
        }
    }
}

impl EventStatus {
    /// The carrier's code for this milestone.
    pub open spec fn code(self) -> Seq<char> {
        match self {
            EventStatus::Declared => seq!['D', 'R', '1'],
            EventStatus::CollectedByCarrier => seq!['P', 'C', '1'],
            EventStatus::CollectedInShippingCountry => seq!['P', 'C', '2'],
            EventStatus::UnderTreatment => seq!['E', 'T', '1'],
            EventStatus::UnderTreatmentInShippingCountry => seq!['E', 'T', '2'],
            EventStatus::UnderTreatmentInDestinationCountry => seq!['E', 'T', '3'],
            EventStatus::UnderTreatmentInTransitCountry => seq!['E', 'T', '4'],
            EventStatus::WaitingForPresentation => seq!['E', 'P', '1'],
            EventStatus::HandedToCustoms => seq!['D', 'O', '1'],
            EventStatus::ReleasedByCustoms => seq!['D', 'O', '2'],
            EventStatus::HeldByCustoms => seq!['D', 'O', '3'],
            EventStatus::ProblemOccurring => seq!['P', 'B', '1'],
            EventStatus::ProblemSolved => seq!['P', 'B', '2'],
            EventStatus::SetForDistribution => seq!['M', 'D', '2'],
            EventStatus::CannotDistribute => seq!['N', 'D', '1'],
            EventStatus::WaitingInPostOffice => seq!['A', 'G', '1'],
            EventStatus::ReturnedToSender => seq!['R', 'E', '1'],
            EventStatus::Delivered => seq!['D', 'I', '1'],
            EventStatus::DeliveredToSender => seq!['D', 'I', '2'],
        }
    }

    /// Decodes a carrier code; any code outside the table is rejected.
    pub fn try_from(status: &str) -> (r: Result<EventStatus, &'static str>)
        ensures
            r is Ok <==> status_of_code(status@) is Some,
            r is Ok ==> Some(r->Ok_0) == status_of_code(status@),
    {
        if status.unicode_len() != 3 {
            return Err("Not a valid timeline event code");
        }
        let c0 = status.get_char(0);
        let c1 = status.get_char(1);
        let c2 = status.get_char(2);
        match (c0, c1, c2) {
            ('D', 'R', '1') => Ok(EventStatus::Declared),
            ('P', 'C', '1') => Ok(EventStatus::CollectedByCarrier),
            ('P', 'C', '2') => Ok(EventStatus::CollectedInShippingCountry),
            ('E', 'T', '1') => Ok(EventStatus::UnderTreatment),
            ('E', 'T', '2') => Ok(EventStatus::UnderTreatmentInShippingCountry),
            ('E', 'T', '3') => Ok(EventStatus::UnderTreatmentInDestinationCountry),
            ('E', 'T', '4') => Ok(EventStatus::UnderTreatmentInTransitCountry),
            ('E', 'P', '1') => Ok(EventStatus::WaitingForPresentation),
            ('D', 'O', '1') => Ok(EventStatus::HandedToCustoms),
            ('D', 'O', '2') => Ok(EventStatus::ReleasedByCustoms),
            ('D', 'O', '3') => Ok(EventStatus::HeldByCustoms),
            ('P', 'B', '1') => Ok(EventStatus::ProblemOccurring),
            ('P', 'B', '2') => Ok(EventStatus::ProblemSolved),
            ('M', 'D', '2') => Ok(EventStatus::SetForDistribution),
            ('N', 'D', '1') => Ok(EventStatus::CannotDistribute),
            ('A', 'G', '1') => Ok(EventStatus::WaitingInPostOffice),
            ('R', 'E', '1') => Ok(EventStatus::ReturnedToSender),
            ('D', 'I', '1') => Ok(EventStatus::Delivered),
            ('D', 'I', '2') => Ok(EventStatus::DeliveredToSender),
            _ => Err("Not a valid timeline event code"),
        }
    }
}

/// Every milestone's code decodes back to that milestone.
pub proof fn lemma_code_round_trip(e: EventStatus)
    ensures
        e.code().len() == 3,
        status_of_code(e.code()) == Some(e),
{
}

/// Two milestones with the same code are the same milestone.
pub proof fn lemma_code_injective(a: EventStatus, b: EventStatus)
    ensures
        a.code() == b.code() <==> a == b,
{
    lemma_code_round_trip(a);
    lemma_code_round_trip(b);
}

/// A code decodes to a milestone exactly when it is that milestone's code;
/// every other string fails to decode.
pub proof fn lemma_decode_exact(code: Seq<char>, e: EventStatus)
    ensures
        status_of_code(code) == Some(e) <==> e.code() == code,
{
    lemma_code_round_trip(e);
    if status_of_code(code) == Some(e) {
        assert(code =~= e.code());
    }
}

} // verus!
