use vstd::prelude::*;

verus! {

/// The number of resolutions in flight after a request to start one
/// (`start`) or a report that one finished (`!start`).
pub open spec fn next_in_flight(cap: nat, in_flight: nat, start: bool) -> nat {
    if start {
        if in_flight < cap {
            in_flight + 1
        } else {
            in_flight
        }
    } else if in_flight > 0 {
        (in_flight - 1) as nat
    } else {
        in_flight
    }
}

/// The number in flight after a run of requests and reports, in order.
pub open spec fn in_flight_after(cap: nat, in_flight: nat, events: Seq<bool>) -> nat
    decreases events.len(),
{
    if events.len() == 0 {
        in_flight
    } else {
        in_flight_after(cap, next_in_flight(cap, in_flight, events[0]), events.drop_first())
    }
}

/// Gate of the fan-out: at most `cap` resolutions run at once.
pub struct FanOut {
    cap: usize,
    in_flight: usize,
}

impl FanOut {
    pub closed spec fn cap_spec(&self) -> nat {
        self.cap as nat
    }

    pub closed spec fn in_flight_spec(&self) -> nat {
        self.in_flight as nat
    }

    pub open spec fn wf(&self) -> bool {
        0 < self.cap_spec() && self.in_flight_spec() <= self.cap_spec()
    }

    /// A gate with nothing in flight.
    pub fn new(cap: usize) -> (r: FanOut)
        requires
            cap > 0,
        ensures
            r.wf(),
            r.cap_spec() == cap,
            r.in_flight_spec() == 0,
    {
        FanOut { cap, in_flight: 0 }
    }

    pub fn cap(&self) -> (r: usize)
        ensures
            r == self.cap_spec(),
    {
        self.cap
    }

    pub fn in_flight(&self) -> (r: usize)
        ensures
            r == self.in_flight_spec(),
    {
        self.in_flight
    }

    /// Whether one more resolution may start now.
    pub fn can_start(&self) -> (r: bool)
        ensures
            r == (self.in_flight_spec() < self.cap_spec()),
    {
        self.in_flight < self.cap
    }

    /// Whether nothing is in flight.
    pub fn is_idle(&self) -> (r: bool)
        ensures
            r == (self.in_flight_spec() == 0),
    {
        self.in_flight == 0
    }

    /// Starts one resolution if the cap allows; says whether it did.
    pub fn start(&mut self) -> (r: bool)
        requires
            old(self).wf(),
        ensures
            final(self).wf(),
            r == (old(self).in_flight_spec() < old(self).cap_spec()),
            final(self).cap_spec() == old(self).cap_spec(),
            final(self).in_flight_spec() == next_in_flight(
                old(self).cap_spec(),
                old(self).in_flight_spec(),
                true,
            ),
    {
        if self.in_flight < self.cap {
            self.in_flight = self.in_flight + 1;
            true
        } else {
            false
        }
    }

    /// Records that one resolution finished; says whether one was in flight.
    pub fn finish(&mut self) -> (r: bool)
        requires
            old(self).wf(),
        ensures
            final(self).wf(),
            r == (old(self).in_flight_spec() > 0),
            final(self).cap_spec() == old(self).cap_spec(),
            final(self).in_flight_spec() == next_in_flight(
                old(self).cap_spec(),
                old(self).in_flight_spec(),
                false,
            ),
    {
        if self.in_flight > 0 {
            self.in_flight = self.in_flight - 1;
            true
        } else {
            false
        }
    }
}

/// Whatever requests to start and reports of completion arrive, in whatever
/// order, the number of resolutions in flight never exceeds the cap.
pub proof fn lemma_cap_never_exceeded(cap: nat, in_flight: nat, events: Seq<bool>)
    requires
        in_flight <= cap,
    ensures
        in_flight_after(cap, in_flight, events) <= cap,
    decreases events.len(),
{
    if events.len() > 0 {
        lemma_cap_never_exceeded(cap, next_in_flight(cap, in_flight, events[0]), events.drop_first());
    }
}

} // verus!
