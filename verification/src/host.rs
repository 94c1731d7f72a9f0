//! A host, the inoculations it carries, and the rules that act on a single
//! host: the status shown for it, a day's transitions of its inoculations,
//! and the treatment and prophylaxis policy.

use vstd::prelude::*;
use crate::inoculation::{lemma_request_not_in_past, Draws, InfectionState, Inoculation};
use crate::params::{rounded_days, round_to_days, Params};

verus! {

/// The status shown for a host.
#[derive(Debug, Clone, Copy, PartialEq, Eq, Structural)]
pub enum HostState {
    Susceptible,
    Exposed,
    Acute,
    Chronic,
    Prophylaxis,
}

/// A simulated individual.
#[derive(Debug, Clone, PartialEq, Eq)]
pub struct Host {
    pub on_prophylaxis: bool,
    /// The day on which prophylaxis ends, while a window is open.
    pub prophylaxis_end_day: Option<u32>,
    /// The day for which treatment is requested, if it is.
    pub pending_treatment_day: Option<u32>,
    /// The inoculations that the host carries; their order means nothing.
    pub inoculations: Vec<Inoculation>,
}

/// The mathematical value of a host.
pub struct HostView {
    pub on_prophylaxis: bool,
    pub prophylaxis_end_day: Option<u32>,
    pub pending_treatment_day: Option<u32>,
    pub inoculations: Seq<Inoculation>,
}

impl View for Host {
    type V = HostView;

    open spec fn view(&self) -> HostView {
        HostView {
            on_prophylaxis: self.on_prophylaxis,
            prophylaxis_end_day: self.prophylaxis_end_day,
            pending_treatment_day: self.pending_treatment_day,
            inoculations: self.inoculations@,
        }
    }
}

/// The first `n` inoculations after a day's transitions: each one kept as the
/// transition rule leaves it, the destroyed ones left out.
pub open spec fn survivors_upto(
    inocs: Seq<Inoculation>,
    day: u32,
    on_prophylaxis: bool,
    params: Params,
    draws: Seq<Draws>,
    n: nat,
) -> Seq<Inoculation>
    decreases n,
{
    if n == 0 {
        Seq::empty()
    } else {
        let rest = survivors_upto(inocs, day, on_prophylaxis, params, draws, (n - 1) as nat);
        match inocs[n - 1].resolution(day, on_prophylaxis, params, draws[n - 1]).next {
            Some(next) => rest.push(next),
            None => rest,
        }
    }
}

/// The treatment days that the first `n` inoculations request, in order.
pub open spec fn requests_upto(
    inocs: Seq<Inoculation>,
    day: u32,
    on_prophylaxis: bool,
    params: Params,
    draws: Seq<Draws>,
    n: nat,
) -> Seq<u32>
    decreases n,
{
    if n == 0 {
        Seq::empty()
    } else {
        let rest = requests_upto(inocs, day, on_prophylaxis, params, draws, (n - 1) as nat);
        match inocs[n - 1].resolution(day, on_prophylaxis, params, draws[n - 1]).treatment_request {
            Some(requested) => rest.push(requested),
            None => rest,
        }
    }
}

/// Earliest wins: a request replaces the pending day only where none is
/// pending or the request is strictly earlier.
pub open spec fn merged(pending: Option<u32>, requested: u32) -> Option<u32> {
    match pending {
        Some(p) => if requested < p { Some(requested) } else { Some(p) },
        None => Some(requested),
    }
}

/// The pending treatment day after the requests in `requests[..n]` have
/// been merged into `pending`, one after the other.
pub open spec fn pending_upto(pending: Option<u32>, requests: Seq<u32>, n: nat) -> Option<u32>
    decreases n,
{
    if n == 0 {
        pending
    } else {
        merged(pending_upto(pending, requests, (n - 1) as nat), requests[n - 1])
    }
}

impl HostView {
    /// Some inoculation of the host is in state `s`.
    pub open spec fn carries(self, s: InfectionState) -> bool {
        exists|i: int| 0 <= i < self.inoculations.len() && (#[trigger] self.inoculations[i]).state == s
    }

    /// The status shown for the host: prophylaxis first, then the most
    /// advanced stage among its inoculations, acute before chronic before
    /// exposed; susceptible where it carries none.
    pub open spec fn status(self) -> HostState {
        if self.on_prophylaxis {
            HostState::Prophylaxis
        } else if self.carries(InfectionState::Acute) {
            HostState::Acute
        } else if self.carries(InfectionState::Chronic) {
            HostState::Chronic
        } else if self.carries(InfectionState::Exposed) {
            HostState::Exposed
        } else {
            HostState::Susceptible
        }
    }

    /// The treatment days requested by a day's transitions, in the order of
    /// the inoculations that request them.
    pub open spec fn requests(self, day: u32, params: Params, draws: Seq<Draws>) -> Seq<u32> {
        requests_upto(
            self.inoculations,
            day,
            self.on_prophylaxis,
            params,
            draws,
            self.inoculations.len(),
        )
    }

    /// The host after a day's transitions, `draws[i]` being the random
    /// numbers for its `i`-th inoculation. The prophylaxis flag read by
    /// every transition is the one the host had when the day began.
    pub open spec fn after_transitions(self, day: u32, params: Params, draws: Seq<Draws>) -> HostView {
        let requests = self.requests(day, params, draws);
        HostView {
            inoculations: survivors_upto(
                self.inoculations,
                day,
                self.on_prophylaxis,
                params,
                draws,
                self.inoculations.len(),
            ),
            pending_treatment_day: pending_upto(
                self.pending_treatment_day,
                requests,
                requests.len(),
            ),
            ..self
        }
    }

    /// Treatment is pending and its day has come.
    pub open spec fn treatment_due(self, day: u32) -> bool {
        match self.pending_treatment_day {
            Some(p) => day >= p,
            None => false,
        }
    }

    /// The host as treatment leaves it: no inoculations, on prophylaxis
    /// until a rounded window from `day`, nothing pending.
    pub open spec fn treated(self, day: u32, params: Params) -> HostView {
        HostView {
            on_prophylaxis: true,
            prophylaxis_end_day: Some(
                (day + rounded_days(params.prophylaxis_millidays as int)) as u32,
            ),
            pending_treatment_day: None,
            inoculations: Seq::empty(),
        }
    }

    /// A prophylaxis window is open and its last day has come.
    pub open spec fn prophylaxis_over(self, day: u32) -> bool {
        match self.prophylaxis_end_day {
            Some(e) => day >= e,
            None => false,
        }
    }

    /// The host with its prophylaxis window closed.
    pub open spec fn released(self) -> HostView {
        HostView { on_prophylaxis: false, prophylaxis_end_day: None, ..self }
    }

    /// The host after the treatment and prophylaxis policy of `day`: first
    /// treatment where it is due, then the end of prophylaxis, judged on the
    /// window that treatment may just have opened.
    pub open spec fn after_policy(self, day: u32, params: Params) -> HostView {
        let h = if self.treatment_due(day) { self.treated(day, params) } else { self };
        if h.prophylaxis_over(day) { h.released() } else { h }
    }

    /// The host with one more inoculation, freshly exposed on `day`.
    pub open spec fn exposed(self, day: u32, params: Params) -> HostView {
        HostView {
            inoculations: self.inoculations.push(Inoculation::exposure(day, params)),
            ..self
        }
    }
}

impl Default for Host {
    /// A host off prophylaxis, with nothing pending and no inoculations.
    fn default() -> (h: Host)
        ensures
            h@ == (HostView {
                on_prophylaxis: false,
                prophylaxis_end_day: None,
                pending_treatment_day: None,
                inoculations: Seq::empty(),
            }),
    {
        Host::new()
    }
}

impl Host {
    /// A host off prophylaxis, with nothing pending and no inoculations.
    pub fn new() -> (h: Host)
        ensures
            h@ == (HostView {
                on_prophylaxis: false,
                prophylaxis_end_day: None,
                pending_treatment_day: None,
                inoculations: Seq::empty(),
            }),
    {
        Host {
            on_prophylaxis: false,
            prophylaxis_end_day: None,
            pending_treatment_day: None,
            inoculations: Vec::new(),
        }
    }

    /// The status shown for the host.
    pub fn state(&self) -> (s: HostState)
        ensures
            s == self@.status(),
    {
        if self.on_prophylaxis {
            return HostState::Prophylaxis;
        }
        let mut has_acute = false;
        let mut has_chronic = false;
        let mut has_exposed = false;
        let n = self.inoculations.len();
        let mut i: usize = 0;
        while i < n
            invariant
                i <= n,
                n == self.inoculations.len(),
                has_acute <==> exists|k: int|
                    0 <= k < i && (#[trigger] self.inoculations[k]).state == InfectionState::Acute,
                has_chronic <==> exists|k: int|
                    0 <= k < i && (#[trigger] self.inoculations[k]).state
                        == InfectionState::Chronic,
                has_exposed <==> exists|k: int|
                    0 <= k < i && (#[trigger] self.inoculations[k]).state
                        == InfectionState::Exposed,
            decreases n - i,
        {
            match self.inoculations[i].state {
                InfectionState::Acute => {
                    has_acute = true;
                },
                InfectionState::Chronic => {
                    has_chronic = true;
                },
                InfectionState::Exposed => {
                    has_exposed = true;
                },
            }
            i = i + 1;
        }
        if has_acute {
            HostState::Acute
        } else if has_chronic {
            HostState::Chronic
        } else if has_exposed {
            HostState::Exposed
        } else {
            HostState::Susceptible
        }
    }

    /// Runs one day's transitions over the host's inoculations with the
    /// given random numbers, one set per inoculation. Returns the treatment
    /// days requested, in order; the earliest of them and of the day already
    /// pending stays pending.
    pub fn step_inoculations_with(&mut self, day: u32, params: &Params, draws: &Vec<Draws>) -> (emitted:
        Vec<u32>)
        requires
            draws.len() == old(self).inoculations.len(),
            forall|k: int|
                0 <= k < draws.len() ==> day + rounded_days(
                    (#[trigger] draws[k]).treatment_delay as int,
                ) <= u32::MAX,
        ensures
            final(self)@ == old(self)@.after_transitions(day, *params, draws@),
            emitted@ == old(self)@.requests(day, *params, draws@),
    {
        let ghost before = self@;
        let mut kept: Vec<Inoculation> = Vec::new();
        let mut emitted: Vec<u32> = Vec::new();
        let mut pending = self.pending_treatment_day;
        let n = self.inoculations.len();
        let mut i: usize = 0;
        while i < n
            invariant
                i <= n,
                n == self.inoculations.len(),
                draws.len() == n,
                self@ == before,
                forall|k: int|
                    0 <= k < draws.len() ==> day + rounded_days(
                        (#[trigger] draws[k]).treatment_delay as int,
                    ) <= u32::MAX,
                kept@ == survivors_upto(
                    before.inoculations,
                    day,
                    before.on_prophylaxis,
                    *params,
                    draws@,
                    i as nat,
                ),
                emitted@ == requests_upto(
                    before.inoculations,
                    day,
                    before.on_prophylaxis,
                    *params,
                    draws@,
                    i as nat,
                ),
                pending == pending_upto(before.pending_treatment_day, emitted@, emitted@.len()),
            decreases n - i,
        {
            let r = self.inoculations[i].resolve(day, self.on_prophylaxis, params, &draws[i]);
            match r.next {
                Some(next) => {
                    kept.push(next);
                },
                None => {},
            }
            match r.treatment_request {
                Some(requested) => {
                    let ghost earlier = emitted@;
                    emitted.push(requested);
                    proof {
                        lemma_pending_ignores_tail(
                            before.pending_treatment_day,
                            earlier,
                            emitted@,
                            earlier.len(),
                        );
                    }
                    pending = match pending {
                        Some(p) => if requested < p { Some(requested) } else { Some(p) },
                        None => Some(requested),
                    };
                },
                None => {},
            }
            i = i + 1;
        }
        self.inoculations = kept;
        self.pending_treatment_day = pending;
        emitted
    }

    /// Applies the treatment and prophylaxis policy of `day`: a host whose
    /// treatment is due loses every inoculation and starts prophylaxis; a
    /// host whose prophylaxis window has run out leaves prophylaxis.
    pub fn apply_policy(&mut self, day: u32, params: &Params)
        requires
            day + rounded_days(params.prophylaxis_millidays as int) <= u32::MAX,
        ensures
            final(self)@ == old(self)@.after_policy(day, *params),
    {
        let due = match self.pending_treatment_day {
            Some(p) => day >= p,
            None => false,
        };
        if due {
            self.inoculations = Vec::new();
            self.on_prophylaxis = true;
            self.prophylaxis_end_day = Some(day + round_to_days(params.prophylaxis_millidays));
            self.pending_treatment_day = None;
        }
        let over = match self.prophylaxis_end_day {
            Some(e) => day >= e,
            None => false,
        };
        if over {
            self.on_prophylaxis = false;
            self.prophylaxis_end_day = None;
        }
    }

    /// Gives the host one more inoculation, freshly exposed on `day`.
    pub fn expose(&mut self, day: u32, params: &Params)
        ensures
            final(self)@ == old(self)@.exposed(day, *params),
    {
        self.inoculations.push(Inoculation::new_exposure(day, params));
    }
}

/// Merging the first `n` requests gives the same day whatever follows them.
pub proof fn lemma_pending_ignores_tail(
    pending: Option<u32>,
    short: Seq<u32>,
    long: Seq<u32>,
    n: nat,
)
    requires
        n <= short.len() <= long.len(),
        forall|k: int| 0 <= k < short.len() ==> short[k] == long[k],
    ensures
        pending_upto(pending, short, n) == pending_upto(pending, long, n),
    decreases n,
{
    if n > 0 {
        lemma_pending_ignores_tail(pending, short, long, (n - 1) as nat);
    }
}

/// Merging keeps the earliest: the day that stays pending is the day that
/// was pending or one of the first `n` requests, and none of them is earlier
/// than it. Nothing stays pending only where nothing was and nothing came.
pub proof fn lemma_pending_is_earliest(pending: Option<u32>, requests: Seq<u32>, n: nat)
    requires
        n <= requests.len(),
    ensures
        (match pending_upto(pending, requests, n) {
            Some(q) => {
                &&& (pending == Some(q) || exists|k: int| 0 <= k < n && requests[k] == q)
                &&& (match pending {
                    Some(p) => q <= p,
                    None => true,
                })
                &&& forall|k: int| 0 <= k < n ==> q <= #[trigger] requests[k]
            },
            None => pending is None && n == 0,
        }),
    decreases n,
{
    if n > 0 {
        lemma_pending_is_earliest(pending, requests, (n - 1) as nat);
    }
}

/// No request of the first `n` inoculations is for a day before `day`.
pub proof fn lemma_requests_not_in_past(
    inocs: Seq<Inoculation>,
    day: u32,
    on_prophylaxis: bool,
    params: Params,
    draws: Seq<Draws>,
    n: nat,
)
    requires
        n <= inocs.len(),
        n <= draws.len(),
        forall|k: int|
            0 <= k < draws.len() ==> day + rounded_days(
                (#[trigger] draws[k]).treatment_delay as int,
            ) <= u32::MAX,
    ensures
        forall|j: int|
            0 <= j < requests_upto(inocs, day, on_prophylaxis, params, draws, n).len() ==> day
                <= #[trigger] requests_upto(inocs, day, on_prophylaxis, params, draws, n)[j],
    decreases n,
{
    if n > 0 {
        lemma_requests_not_in_past(inocs, day, on_prophylaxis, params, draws, (n - 1) as nat);
        let last = draws[n - 1];
        assert(day + rounded_days(last.treatment_delay as int) <= u32::MAX);
        lemma_request_not_in_past(inocs[n - 1], day, on_prophylaxis, params, last);
        let rest = requests_upto(inocs, day, on_prophylaxis, params, draws, (n - 1) as nat);
        let all = requests_upto(inocs, day, on_prophylaxis, params, draws, n);
        assert forall|j: int| 0 <= j < all.len() implies day <= #[trigger] all[j] by {
            if j < rest.len() {
                assert(all[j] == rest[j]);
            }
        }
    } else {
        assert(requests_upto(inocs, day, on_prophylaxis, params, draws, n).len() == 0);
    }
}

/// A day's transitions never push a pending treatment later and never drop
/// it: a day that was pending stays or gives way to a strictly earlier
/// request. Every request is for the day it is made on or a later one, so a
/// pending day that was not in the past when it was set was never in the
/// past on that day.
pub proof fn lemma_treatment_never_postponed(
    h: HostView,
    day: u32,
    params: Params,
    draws: Seq<Draws>,
)
    requires
        draws.len() == h.inoculations.len(),
        forall|k: int|
            0 <= k < draws.len() ==> day + rounded_days(
                (#[trigger] draws[k]).treatment_delay as int,
            ) <= u32::MAX,
    ensures
        (match (
            h.pending_treatment_day,
            h.after_transitions(day, params, draws).pending_treatment_day,
        ) {
            (Some(p), Some(q)) => q == p || (q < p && day <= q),
            (Some(_), None) => false,
            (None, Some(q)) => day <= q,
            (None, None) => true,
        }),
        h.after_transitions(day, params, draws).on_prophylaxis == h.on_prophylaxis,
        h.after_transitions(day, params, draws).prophylaxis_end_day == h.prophylaxis_end_day,
{
    let requests = h.requests(day, params, draws);
    lemma_requests_not_in_past(
        h.inoculations,
        day,
        h.on_prophylaxis,
        params,
        draws,
        h.inoculations.len(),
    );
    lemma_pending_is_earliest(h.pending_treatment_day, requests, requests.len());
}

/// The policy clears a pending treatment exactly when it applies it. A host
/// whose treatment is due ends the day with no inoculations and nothing
/// pending, on prophylaxis unless the window rounds to no days at all. On
/// any other host the pending day and the inoculations stay as they are.
pub proof fn lemma_policy_clears_pending_with_treatment(h: HostView, day: u32, params: Params)
    requires
        day + rounded_days(params.prophylaxis_millidays as int) <= u32::MAX,
    ensures
        h.treatment_due(day) ==> ({
            let after = h.after_policy(day, params);
            &&& after.pending_treatment_day is None
            &&& after.inoculations == Seq::<Inoculation>::empty()
            &&& rounded_days(params.prophylaxis_millidays as int) > 0 ==> after.on_prophylaxis
                && after.prophylaxis_end_day == Some(
                (day + rounded_days(params.prophylaxis_millidays as int)) as u32,
            )
            &&& rounded_days(params.prophylaxis_millidays as int) == 0 ==> !after.on_prophylaxis
                && after.prophylaxis_end_day is None
        }),
        !h.treatment_due(day) ==> ({
            let after = h.after_policy(day, params);
            &&& after.pending_treatment_day == h.pending_treatment_day
            &&& after.inoculations == h.inoculations
        }),
{
}

/// A prophylaxis window that has run out is closed, whatever else the host
/// holds, unless treatment is due on that very day and opens a new one.
pub proof fn lemma_prophylaxis_ends(h: HostView, day: u32, params: Params)
    requires
        h.prophylaxis_over(day),
        !h.treatment_due(day),
    ensures
        h.after_policy(day, params) == h.released(),
        !h.after_policy(day, params).on_prophylaxis,
        h.after_policy(day, params).prophylaxis_end_day is None,
{
}

/// Transitions never add an inoculation: of the first `n`, at most `n`
/// survive.
pub proof fn lemma_survivors_bounded(
    inocs: Seq<Inoculation>,
    day: u32,
    on_prophylaxis: bool,
    params: Params,
    draws: Seq<Draws>,
    n: nat,
)
    ensures
        survivors_upto(inocs, day, on_prophylaxis, params, draws, n).len() <= n,
    decreases n,
{
    if n > 0 {
        lemma_survivors_bounded(inocs, day, on_prophylaxis, params, draws, (n - 1) as nat);
    }
}

/// The first `n` inoculations of a host on prophylaxis request no
/// treatment: only an exposed inoculation that turns acute requests one, and
/// under prophylaxis none does.
pub proof fn lemma_prophylaxis_requests_nothing_upto(
    inocs: Seq<Inoculation>,
    day: u32,
    params: Params,
    draws: Seq<Draws>,
    n: nat,
)
    ensures
        requests_upto(inocs, day, true, params, draws, n) == Seq::<u32>::empty(),
    decreases n,
{
    if n > 0 {
        lemma_prophylaxis_requests_nothing_upto(inocs, day, params, draws, (n - 1) as nat);
    }
}

/// While a host is on prophylaxis its day's transitions request no
/// treatment and leave whatever is pending as it is.
pub proof fn lemma_prophylaxis_requests_nothing(
    h: HostView,
    day: u32,
    params: Params,
    draws: Seq<Draws>,
)
    requires
        h.on_prophylaxis,
    ensures
        h.requests(day, params, draws) == Seq::<u32>::empty(),
        h.after_transitions(day, params, draws).pending_treatment_day == h.pending_treatment_day,
{
    lemma_prophylaxis_requests_nothing_upto(
        h.inoculations,
        day,
        params,
        draws,
        h.inoculations.len(),
    );
}

} // verus!
