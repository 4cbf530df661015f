//! Shipments as the tracking API reports them, the delivery phase inferred
//! from their timeline, and queries over their events.
use vstd::prelude::*;

use crate::status::{status_of_code, status_of_step, DeliveryStatus, EventStatus};

verus! {

/// One row of the carrier's progress table: step `id`, done when `status`.
#[derive(Clone)]
pub struct TimelineEvent {
    pub id: u32,
    pub short_label: String,
    pub long_label: String,
    pub status: bool,
    pub kind: u32,
    pub country: String,
}

/// A dated milestone of a shipment; `order` is its place in the history.
#[derive(Clone)]
pub struct Event {
    pub order: u32,
    pub date: String,
    pub label: String,
    pub code: EventStatus,
}

/// A shipment: its phase, inferred from the timeline, and its events in the
/// order the carrier listed them.
pub struct Shipment {
    pub id_ship: String,
    pub product: String,
    pub is_final: bool,
    pub timeline: DeliveryStatus,
    pub event: Vec<Event>,
    pub holder: u32,
}

/// A tracking report as the API returns it.
pub struct TrackingInfo {
    pub lang: String,
    pub scope: String,
    pub return_code: u32,
    pub shipment: Shipment,
}

/// The step reached by scanning `steps` from the front with `current` as the
/// step so far: each completed step moves it to that step's id, and the first
/// step not completed ends the scan.
pub open spec fn scan_steps(steps: Seq<TimelineEvent>, current: int) -> int
    decreases steps.len(),
{
    if steps.len() == 0 {
        current
    } else if steps[0].status {
        scan_steps(steps.drop_first(), steps[0].id as int)
    } else {
        current
    }
}

/// The last contiguous completed step of a timeline, 1 when there is none.
pub open spec fn last_completed_step(steps: Seq<TimelineEvent>) -> int {
    scan_steps(steps, 1)
}

/// The phase that a timeline has reached.
pub fn delivery_status(timeline: &Vec<TimelineEvent>) -> (r: Result<DeliveryStatus, &'static str>)
    ensures
        r is Ok <==> status_of_step(last_completed_step(timeline@)) is Some,
        r is Ok ==> Some(r->Ok_0) == status_of_step(last_completed_step(timeline@)),
{
    let mut step: u32 = 1;
    let mut i: usize = 0;
    assert(timeline@.subrange(0, timeline@.len() as int) =~= timeline@);
    while i < timeline.len()
        invariant
            i <= timeline@.len(),
            scan_steps(timeline@.subrange(i as int, timeline@.len() as int), step as int)
                == last_completed_step(timeline@),
        decreases timeline@.len() - i,
    {
        let ghost rest = timeline@.subrange(i as int, timeline@.len() as int);
        assert(rest.drop_first() =~= timeline@.subrange(i + 1, timeline@.len() as int));
        assert(rest[0] == timeline@[i as int]);
        if timeline[i].status {
            step = timeline[i].id;
        } else {
            return DeliveryStatus::try_from(step);
        }
        i = i + 1;
    }
    proof {
        if i == timeline@.len() {
            assert(timeline@.subrange(i as int, timeline@.len() as int).len() == 0);
        }
    }
    DeliveryStatus::try_from(step)
}

/// Decodes the carrier code of an event.
pub fn event_status(code: &str) -> (r: Result<EventStatus, &'static str>)
    ensures
        r is Ok <==> status_of_code(code@) is Some,
        r is Ok ==> Some(r->Ok_0) == status_of_code(code@),
{
    EventStatus::try_from(code)
}

proof fn lemma_scan_closed_form(steps: Seq<TimelineEvent>, current: int, k: int)
    requires
        0 <= k <= steps.len(),
        forall|i: int| 0 <= i < k ==> (#[trigger] steps[i]).status,
        k < steps.len() ==> !steps[k].status,
    ensures
        scan_steps(steps, current) == if k == 0 { current } else { steps[k - 1].id as int },
    decreases steps.len(),
{
    if steps.len() > 0 && steps[0].status {
        let rest = steps.drop_first();
        assert forall|i: int| 0 <= i < k - 1 implies (#[trigger] rest[i]).status by {
            assert(rest[i] == steps[i + 1]);
        }
        if k > 1 {
            assert(rest[k - 2] == steps[k - 1]);
        }
        if k - 1 < rest.len() {
            assert(rest[k - 1] == steps[k]);
        }
        lemma_scan_closed_form(rest, steps[0].id as int, k - 1);
    }
}

/// The inferred step is the id of the last step before the first step that
/// is not completed (or before the end), and 1 when the first step is not
/// completed or the timeline is empty.
pub proof fn lemma_last_completed_step(steps: Seq<TimelineEvent>, k: int)
    requires
        0 <= k <= steps.len(),
        forall|i: int| 0 <= i < k ==> (#[trigger] steps[i]).status,
        k < steps.len() ==> !steps[k].status,
    ensures
        last_completed_step(steps) == if k == 0 { 1 } else { steps[k - 1].id as int },
{
    lemma_scan_closed_form(steps, 1, k);
}

proof fn lemma_scan_extension(steps: Seq<TimelineEvent>, more: Seq<TimelineEvent>, current: int, gap: int)
    requires
        0 <= gap < steps.len(),
        !steps[gap].status,
    ensures
        scan_steps(steps + more, current) == scan_steps(steps, current),
    decreases steps.len(),
{
    let all = steps + more;
    assert(all[0] == steps[0]);
    if steps[0].status {
        assert(all.drop_first() =~= steps.drop_first() + more);
        assert(steps.drop_first()[gap - 1] == steps[gap]);
        lemma_scan_extension(steps.drop_first(), more, steps[0].id as int, gap - 1);
    }
}

/// Once a timeline holds a step that is not completed, appending further
/// steps, completed or not, leaves the inferred step unchanged; in
/// particular scanning the timeline up to its first gap gives the same step
/// as scanning all of it.
pub proof fn lemma_gap_ends_progress(steps: Seq<TimelineEvent>, more: Seq<TimelineEvent>, gap: int)
    requires
        0 <= gap < steps.len(),
        !steps[gap].status,
    ensures
        last_completed_step(steps + more) == last_completed_step(steps),
        last_completed_step(steps) == last_completed_step(steps.take(gap + 1)),
{
    lemma_scan_extension(steps, more, 1, gap);
    let head = steps.take(gap + 1);
    assert(head[gap] == steps[gap]);
    assert(head + steps.skip(gap + 1) =~= steps);
    lemma_scan_extension(head, steps.skip(gap + 1), 1, gap);
}

/// Some event of `events` has milestone `s`.
pub open spec fn has_status(events: Seq<Event>, s: EventStatus) -> bool {
    exists|i: int| 0 <= i < events.len() && (#[trigger] events[i]).code == s
}

/// The milestone that marks the hand-over to the carrier, by priority:
/// `Declared`, then `CollectedByCarrier`, then `CollectedInShippingCountry`.
pub open spec fn shipping_status(events: Seq<Event>) -> Option<EventStatus> {
    if has_status(events, EventStatus::Declared) {
        Some(EventStatus::Declared)
    } else if has_status(events, EventStatus::CollectedByCarrier) {
        Some(EventStatus::CollectedByCarrier)
    } else if has_status(events, EventStatus::CollectedInShippingCountry) {
        Some(EventStatus::CollectedInShippingCountry)
    } else {
        None
    }
}

/// The position of the first event with milestone `s`.
fn position_of(events: &Vec<Event>, s: EventStatus) -> (r: Option<usize>)
    ensures
        r is None <==> !has_status(events@, s),
        r is Some ==> r->0 < events@.len() && events@[r->0 as int].code == s,
        r is Some ==> forall|j: int| 0 <= j < r->0 ==> (#[trigger] events@[j]).code != s,
{
    let mut i: usize = 0;
    while i < events.len()
        invariant
            i <= events@.len(),
            forall|j: int| 0 <= j < i ==> (#[trigger] events@[j]).code != s,
        decreases events@.len() - i,
    {
        if events[i].code == s {
            return Some(i);
        }
        i = i + 1;
    }
    None
}

impl Shipment {
    /// The event with the greatest `order`; which one of several with that
    /// order is left open.
    pub fn last_event(&self) -> (r: Option<&Event>)
        ensures
            r is None <==> self.event@.len() == 0,
            r is Some ==> exists|i: int| 0 <= i < self.event@.len() && self.event@[i] == *r->0,
            r is Some ==> forall|j: int| 0 <= j < self.event@.len()
                ==> (#[trigger] self.event@[j]).order <= r->0.order,
    {
        if self.event.len() == 0 {
            return None;
        }
        let mut best: usize = 0;
        let mut i: usize = 1;
        while i < self.event.len()
            invariant
                1 <= i <= self.event@.len(),
                best < i,
                forall|j: int| 0 <= j < i ==> (#[trigger] self.event@[j]).order <= self.event@[best as int].order,
            decreases self.event@.len() - i,
        {
            if self.event[i].order >= self.event[best].order {
                best = i;
            }
            i = i + 1;
        }
        Some(&self.event[best])
    }

    /// The event with the least `order`; which one of several with that order
    /// is left open.
    pub fn first_event(&self) -> (r: Option<&Event>)
        ensures
            r is None <==> self.event@.len() == 0,
            r is Some ==> exists|i: int| 0 <= i < self.event@.len() && self.event@[i] == *r->0,
            r is Some ==> forall|j: int| 0 <= j < self.event@.len()
                ==> (#[trigger] self.event@[j]).order >= r->0.order,
    {
        if self.event.len() == 0 {
            return None;
        }
        let mut best: usize = 0;
        let mut i: usize = 1;
        while i < self.event.len()
            invariant
                1 <= i <= self.event@.len(),
                best < i,
                forall|j: int| 0 <= j < i ==> (#[trigger] self.event@[j]).order >= self.event@[best as int].order,
            decreases self.event@.len() - i,
        {
            if self.event[i].order < self.event[best].order {
                best = i;
            }
            i = i + 1;
        }
        Some(&self.event[best])
    }

    /// The first event, in the order of the list, whose milestone is the
    /// highest-priority shipping milestone present; `None` when none of the
    /// three occurs.
    pub fn shipping_event(&self) -> (r: Option<&Event>)
        ensures
            r is None <==> shipping_status(self.event@) is None,
            r is Some ==> Some(r->0.code) == shipping_status(self.event@),
            r is Some ==> exists|i: int| 0 <= i < self.event@.len() && self.event@[i] == *r->0
                && forall|j: int| 0 <= j < i ==> (#[trigger] self.event@[j]).code != r->0.code,
    {
        if self.event.len() == 0 {
            return None;
        }
        if let Some(i) = position_of(&self.event, EventStatus::Declared) {
            return Some(&self.event[i]);
        }
        if let Some(i) = position_of(&self.event, EventStatus::CollectedByCarrier) {
            return Some(&self.event[i]);
        }
        if let Some(i) = position_of(&self.event, EventStatus::CollectedInShippingCountry) {
            return Some(&self.event[i]);
        }
        None
    }
}

} // verus!
