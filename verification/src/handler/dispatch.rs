use vstd::prelude::*;
use super::events::{EventKind, offered, offered_spec};
use super::processes::{Module, ModuleEventProcess};
use super::results::{EventResult, EventResultHandler, ModuleInfo, ResultProcess, listens_spec, result_kind};

verus! {

/// What a handler answered when it was offered an event: it processed the
/// event (`Ok(true)`), passed it on (`Ok(false)`), or failed (`Err`).
#[derive(Clone, Copy, Debug, PartialEq, Eq, Structural)]
pub enum HandlerOutcome {
    Handled,
    Ignored,
    Failed,
}

/// Where the dispatch of one event ended: no handler took it, the handler
/// at (module, handler) processed it, or that handler failed.
#[derive(Clone, Copy, Debug, PartialEq, Eq, Structural)]
pub enum MapResult {
    NotHandled,
    Process(usize, usize),
    Exception(usize, usize),
}

/// Whether the handler at position (`m`, `h`) exists and is offered events of kind `e`.
pub open spec fn matches_at(modules: Seq<Module>, e: EventKind, m: int, h: int) -> bool {
    &&& 0 <= m < modules.len()
    &&& 0 <= h < modules[m].handles@.len()
    &&& offered_spec(e, modules[m].handles@[h].process)
}

/// Positions in dispatch order: module by module, each module's handlers in order.
pub open spec fn pos_lt(am: int, ah: int, bm: int, bh: int) -> bool {
    am < bm || (am == bm && ah < bh)
}

/// Whether position (`am`, `ah`) comes at or before (`bm`, `bh`).
pub open spec fn pos_le(am: int, ah: int, bm: int, bh: int) -> bool {
    am < bm || (am == bm && ah <= bh)
}

/// The first position at or after (`m`, `h`), in dispatch order, whose
/// handler is offered events of kind `e`.
pub open spec fn next_match_spec(modules: Seq<Module>, e: EventKind, m: int, h: int) -> Option<
    (usize, usize),
>
    decreases modules.len() - m, modules[m].handles@.len() - h,
{
    if m < 0 || m >= modules.len() || h < 0 {
        None
    } else if h >= modules[m].handles@.len() {
        next_match_spec(modules, e, m + 1, 0)
    } else if offered_spec(e, modules[m].handles@[h].process) {
        Some((m as usize, h as usize))
    } else {
        next_match_spec(modules, e, m, h + 1)
    }
}

/// The outcome of dispatching an event of kind `e` from position (`m`, `h`)
/// on, when the handler at each position answers `o` of that position:
/// handlers are offered the event in order until one processes it or fails.
pub open spec fn dispatch_scan(
    modules: Seq<Module>,
    e: EventKind,
    o: spec_fn(int, int) -> HandlerOutcome,
    m: int,
    h: int,
) -> MapResult
    decreases modules.len() - m, modules[m].handles@.len() - h,
{
    if m < 0 || m >= modules.len() || h < 0 {
        MapResult::NotHandled
    } else if h >= modules[m].handles@.len() {
        dispatch_scan(modules, e, o, m + 1, 0)
    } else if !offered_spec(e, modules[m].handles@[h].process) {
        dispatch_scan(modules, e, o, m, h + 1)
    } else {
        match o(m, h) {
            HandlerOutcome::Handled => MapResult::Process(m as usize, h as usize),
            HandlerOutcome::Failed => MapResult::Exception(m as usize, h as usize),
            HandlerOutcome::Ignored => dispatch_scan(modules, e, o, m, h + 1),
        }
    }
}

/// Whether the vector lengths of a module list fit in `usize`, as they
/// do for any list that exists.
pub open spec fn sizes_fit(modules: Seq<Module>) -> bool {
    &&& modules.len() <= usize::MAX
    &&& forall|m: int| 0 <= m < modules.len() ==> #[trigger] modules[m].handles@.len() <= usize::MAX
}

/// Vector lengths fit in `usize`.
pub proof fn lemma_sizes_fit(modules: &Vec<Module>)
    ensures
        sizes_fit(modules@),
{
    assert(modules.len() == modules@.len());
    assert forall|m: int| 0 <= m < modules@.len() implies #[trigger] modules@[m].handles@.len()
        <= usize::MAX by {
        assert(modules@[m].handles.len() == modules@[m].handles@.len());
    }
}

proof fn lemma_next_match(modules: Seq<Module>, e: EventKind, m: int, h: int)
    requires
        sizes_fit(modules),
        m >= 0,
        h >= 0,
    ensures
        next_match_spec(modules, e, m, h) matches Some(p) ==> {
            &&& matches_at(modules, e, p.0 as int, p.1 as int)
            &&& pos_le(m, h, p.0 as int, p.1 as int)
            &&& forall|qm: int, qh: int|
                #![trigger matches_at(modules, e, qm, qh)]
                matches_at(modules, e, qm, qh) && pos_le(m, h, qm, qh) && pos_lt(
                    qm,
                    qh,
                    p.0 as int,
                    p.1 as int,
                ) ==> false
        },
        next_match_spec(modules, e, m, h) is None ==> forall|qm: int, qh: int|
            #![trigger matches_at(modules, e, qm, qh)]
            matches_at(modules, e, qm, qh) ==> !pos_le(m, h, qm, qh),
    decreases modules.len() - m, modules[m].handles@.len() - h,
{
    if m >= modules.len() {
    } else if h >= modules[m].handles@.len() {
        lemma_next_match(modules, e, m + 1, 0);
    } else if offered_spec(e, modules[m].handles@[h].process) {
    } else {
        lemma_next_match(modules, e, m, h + 1);
    }
}

/// Scanning from a position equals scanning from the next offered handler:
/// positions whose handler is not offered the event are passed over.
proof fn lemma_scan_skips(
    modules: Seq<Module>,
    e: EventKind,
    o: spec_fn(int, int) -> HandlerOutcome,
    m: int,
    h: int,
)
    requires
        sizes_fit(modules),
        m >= 0,
        h >= 0,
    ensures
        dispatch_scan(modules, e, o, m, h) == (match next_match_spec(modules, e, m, h) {
            None => MapResult::NotHandled,
            Some(p) => step_scan(modules, e, o, p.0 as int, p.1 as int),
        }),
    decreases modules.len() - m, modules[m].handles@.len() - h,
{
    if m >= modules.len() {
    } else if h >= modules[m].handles@.len() {
        lemma_scan_skips(modules, e, o, m + 1, 0);
    } else if offered_spec(e, modules[m].handles@[h].process) {
    } else {
        lemma_scan_skips(modules, e, o, m, h + 1);
    }
}

/// The outcome of the scan once the handler at (`m`, `h`) has answered.
pub open spec fn step_scan(
    modules: Seq<Module>,
    e: EventKind,
    o: spec_fn(int, int) -> HandlerOutcome,
    m: int,
    h: int,
) -> MapResult {
    match o(m, h) {
        HandlerOutcome::Handled => MapResult::Process(m as usize, h as usize),
        HandlerOutcome::Failed => MapResult::Exception(m as usize, h as usize),
        HandlerOutcome::Ignored => dispatch_scan(modules, e, o, m, h + 1),
    }
}

proof fn lemma_scan_first(
    modules: Seq<Module>,
    e: EventKind,
    o: spec_fn(int, int) -> HandlerOutcome,
    m: int,
    h: int,
    pm: usize,
    ph: usize,
)
    requires
        sizes_fit(modules),
        m >= 0,
        h >= 0,
    ensures
        (dispatch_scan(modules, e, o, m, h) == MapResult::Process(pm, ph)) <==> {
            &&& matches_at(modules, e, pm as int, ph as int)
            &&& pos_le(m, h, pm as int, ph as int)
            &&& o(pm as int, ph as int) == HandlerOutcome::Handled
            &&& forall|qm: int, qh: int|
                #![trigger matches_at(modules, e, qm, qh)]
                matches_at(modules, e, qm, qh) && pos_le(m, h, qm, qh) && pos_lt(
                    qm,
                    qh,
                    pm as int,
                    ph as int,
                ) ==> o(qm, qh) == HandlerOutcome::Ignored
        },
        (dispatch_scan(modules, e, o, m, h) == MapResult::Exception(pm, ph)) <==> {
            &&& matches_at(modules, e, pm as int, ph as int)
            &&& pos_le(m, h, pm as int, ph as int)
            &&& o(pm as int, ph as int) == HandlerOutcome::Failed
            &&& forall|qm: int, qh: int|
                #![trigger matches_at(modules, e, qm, qh)]
                matches_at(modules, e, qm, qh) && pos_le(m, h, qm, qh) && pos_lt(
                    qm,
                    qh,
                    pm as int,
                    ph as int,
                ) ==> o(qm, qh) == HandlerOutcome::Ignored
        },
        (dispatch_scan(modules, e, o, m, h) == MapResult::NotHandled) <==> forall|qm: int, qh: int|
            #![trigger matches_at(modules, e, qm, qh)]
            matches_at(modules, e, qm, qh) && pos_le(m, h, qm, qh) ==> o(qm, qh)
                == HandlerOutcome::Ignored,
    decreases modules.len() - m, modules[m].handles@.len() - h,
{
    if m >= modules.len() {
    } else if h >= modules[m].handles@.len() {
        lemma_scan_first(modules, e, o, m + 1, 0, pm, ph);
        assert forall|qm: int, qh: int| matches_at(modules, e, qm, qh) implies pos_le(m, h, qm, qh)
            == pos_le(m + 1, 0, qm, qh) by {}
    } else if !offered_spec(e, modules[m].handles@[h].process) {
        lemma_scan_first(modules, e, o, m, h + 1, pm, ph);
        assert forall|qm: int, qh: int| matches_at(modules, e, qm, qh) implies pos_le(m, h, qm, qh)
            == pos_le(m, h + 1, qm, qh) by {}
    } else {
        lemma_scan_first(modules, e, o, m, h + 1, pm, ph);
        assert(matches_at(modules, e, m, h));
        assert forall|qm: int, qh: int| matches_at(modules, e, qm, qh) && !(qm == m && qh == h)
            implies pos_le(m, h, qm, qh) == pos_le(m, h + 1, qm, qh) by {}
    }
}

/// The law of dispatch: handlers are offered an event in order, module by
/// module, until one processes it, one fails, or none is left.
///
/// The dispatch of an event ends in `Process(m, h)` exactly when the handler
/// at (m, h) is offered the event, processes it, and every handler offered
/// the event before it passed it on; in `Exception(m, h)` in the same way for
/// a handler that failed; and in `None` exactly when every handler offered
/// the event passed it on.
pub proof fn law_dispatch_first_decisive(
    modules: Seq<Module>,
    e: EventKind,
    o: spec_fn(int, int) -> HandlerOutcome,
    pm: usize,
    ph: usize,
)
    requires
        sizes_fit(modules),
    ensures
        (dispatch_scan(modules, e, o, 0, 0) == MapResult::Process(pm, ph)) <==> {
            &&& matches_at(modules, e, pm as int, ph as int)
            &&& o(pm as int, ph as int) == HandlerOutcome::Handled
            &&& forall|qm: int, qh: int|
                #![trigger matches_at(modules, e, qm, qh)]
                matches_at(modules, e, qm, qh) && pos_lt(qm, qh, pm as int, ph as int) ==> o(
                    qm,
                    qh,
                ) == HandlerOutcome::Ignored
        },
        (dispatch_scan(modules, e, o, 0, 0) == MapResult::Exception(pm, ph)) <==> {
            &&& matches_at(modules, e, pm as int, ph as int)
            &&& o(pm as int, ph as int) == HandlerOutcome::Failed
            &&& forall|qm: int, qh: int|
                #![trigger matches_at(modules, e, qm, qh)]
                matches_at(modules, e, qm, qh) && pos_lt(qm, qh, pm as int, ph as int) ==> o(
                    qm,
                    qh,
                ) == HandlerOutcome::Ignored
        },
        (dispatch_scan(modules, e, o, 0, 0) == MapResult::NotHandled) <==> forall|qm: int, qh: int|
            #![trigger matches_at(modules, e, qm, qh)]
            matches_at(modules, e, qm, qh) ==> o(qm, qh) == HandlerOutcome::Ignored,
{
    lemma_scan_first(modules, e, o, 0, 0, pm, ph);
}

/// The first position at or after (`m`, `h`) whose handler is offered events of kind `e`.
pub fn next_handler(modules: &Vec<Module>, e: EventKind, m: usize, h: usize) -> (r: Option<
    (usize, usize),
>)
    ensures
        r == next_match_spec(modules@, e, m as int, h as int),
{
    let mut mi = m;
    let mut hi = h;
    while mi < modules.len()
        invariant
            next_match_spec(modules@, e, m as int, h as int) == next_match_spec(
                modules@,
                e,
                mi as int,
                hi as int,
            ),
        decreases modules@.len() - mi,
    {
        let handles = &modules[mi].handles;
        while hi < handles.len()
            invariant
                mi < modules@.len(),
                handles@ == modules@[mi as int].handles@,
                next_match_spec(modules@, e, m as int, h as int) == next_match_spec(
                    modules@,
                    e,
                    mi as int,
                    hi as int,
                ),
            decreases handles@.len() - hi,
        {
            if offered(e, handles[hi].process) {
                return Some((mi, hi));
            }
            hi = hi + 1;
        }
        mi = mi + 1;
        hi = 0;
    }
    None
}

/// The first result handler at or after index `i` that listens to the
/// results of handlers of kind `p`.
pub open spec fn next_listener_spec(rhs: Seq<EventResultHandler>, p: ModuleEventProcess, i: int) -> Option<
    usize,
>
    decreases rhs.len() - i,
{
    if i < 0 || i >= rhs.len() {
        None
    } else if listens_spec(rhs[i].process, p) {
        Some(i as usize)
    } else {
        next_listener_spec(rhs, p, i + 1)
    }
}

/// Result handlers are told of a result in order, and only those that
/// listen to it: the next listener after index `i` listens, and no
/// result handler between them does.
pub proof fn law_next_listener(rhs: Seq<EventResultHandler>, p: ModuleEventProcess, i: int)
    requires
        rhs.len() <= usize::MAX,
        i >= 0,
    ensures
        next_listener_spec(rhs, p, i) matches Some(j) ==> {
            &&& i <= j < rhs.len()
            &&& listens_spec(rhs[j as int].process, p)
            &&& forall|k: int| i <= k < j ==> !listens_spec(#[trigger] rhs[k].process, p)
        },
        next_listener_spec(rhs, p, i) is None ==> forall|k: int|
            i <= k < rhs.len() ==> !listens_spec(#[trigger] rhs[k].process, p),
    decreases rhs.len() - i,
{
    if i < rhs.len() && !listens_spec(rhs[i].process, p) {
        law_next_listener(rhs, p, i + 1);
    }
}

/// The first result handler at or after index `i` that listens to the
/// results of handlers of kind `p`.
pub fn next_result_handler(rhs: &Vec<EventResultHandler>, p: ModuleEventProcess, i: usize) -> (r:
    Option<usize>)
    ensures
        r == next_listener_spec(rhs@, p, i as int),
{
    let mut k = i;
    while k < rhs.len()
        invariant
            next_listener_spec(rhs@, p, i as int) == next_listener_spec(rhs@, p, k as int),
        decreases rhs@.len() - k,
    {
        let r = result_kind(p);
        if rhs[k].process == ResultProcess::OnlyResult || rhs[k].process == r {
            return Some(k);
        }
        k = k + 1;
    }
    None
}

/// What the caller driving a dispatch does next: offer the event to a
/// handler, tell a result handler of the result, or stop with the result.
#[derive(Clone, Copy, Debug, PartialEq, Eq, Structural)]
pub enum DispatchAction {
    CallHandler(usize, usize),
    CallResultHandler(usize),
    Finish(MapResult),
}

/// The phase of a dispatch: offering the event to the handler at a
/// position; telling the result handler at an index of a result reached by a
/// handler of some kind; or finished.
#[derive(Clone, Copy, Debug, PartialEq, Eq, Structural)]
pub enum DispatchPhase {
    Handlers(usize, usize),
    Results(MapResult, ModuleEventProcess, usize),
    Done(MapResult),
}

/// The dispatch of one event to the modules and then to the result handlers.
pub struct Dispatcher {
    pub event: EventKind,
    pub phase: DispatchPhase,
}

/// The phase and action that follow a handler's result `r`: the result
/// handlers that listen are told of it, from the first on.
pub open spec fn after_result(rhs: Seq<EventResultHandler>, r: MapResult, p: ModuleEventProcess) -> (
    DispatchPhase,
    DispatchAction,
) {
    match next_listener_spec(rhs, p, 0) {
        None => (DispatchPhase::Done(r), DispatchAction::Finish(r)),
        Some(i) => (DispatchPhase::Results(r, p, i), DispatchAction::CallResultHandler(i)),
    }
}

/// The phase and action that follow offering the event from (`m`, `h`) on.
pub open spec fn offer_from(modules: Seq<Module>, e: EventKind, m: int, h: int) -> (
    DispatchPhase,
    DispatchAction,
) {
    match next_match_spec(modules, e, m, h) {
        None => (DispatchPhase::Done(MapResult::NotHandled), DispatchAction::Finish(MapResult::NotHandled)),
        Some(q) => (DispatchPhase::Handlers(q.0, q.1), DispatchAction::CallHandler(q.0, q.1)),
    }
}

/// The transition once the handler at (`m`, `h`) has answered `outcome`.
pub open spec fn handler_transition(
    modules: Seq<Module>,
    rhs: Seq<EventResultHandler>,
    e: EventKind,
    m: int,
    h: int,
    outcome: HandlerOutcome,
) -> (DispatchPhase, DispatchAction) {
    let p = modules[m].handles@[h].process;
    match outcome {
        HandlerOutcome::Ignored => offer_from(modules, e, m, h + 1),
        HandlerOutcome::Handled => after_result(rhs, MapResult::Process(m as usize, h as usize), p),
        HandlerOutcome::Failed => after_result(
            rhs,
            MapResult::Exception(m as usize, h as usize),
            p,
        ),
    }
}

/// The transition once the result handler at index `i` has answered
/// `outcome` about the result `r`: a result handler that took care of the
/// result, or failed, ends the notification.
pub open spec fn result_transition(
    rhs: Seq<EventResultHandler>,
    r: MapResult,
    p: ModuleEventProcess,
    i: int,
    outcome: HandlerOutcome,
) -> (DispatchPhase, DispatchAction) {
    match outcome {
        HandlerOutcome::Ignored => match next_listener_spec(rhs, p, i + 1) {
            None => (DispatchPhase::Done(r), DispatchAction::Finish(r)),
            Some(j) => (DispatchPhase::Results(r, p, j), DispatchAction::CallResultHandler(j)),
        },
        _ => (DispatchPhase::Done(r), DispatchAction::Finish(r)),
    }
}

/// The dispatch result that a phase stands for, when handlers answer `o`:
/// the rest of the scan while handlers are offered the event, the result
/// already reached afterwards.
pub open spec fn phase_result(
    modules: Seq<Module>,
    e: EventKind,
    o: spec_fn(int, int) -> HandlerOutcome,
    phase: DispatchPhase,
) -> MapResult {
    match phase {
        DispatchPhase::Handlers(m, h) => dispatch_scan(modules, e, o, m as int, h as int),
        DispatchPhase::Results(r, _, _) => r,
        DispatchPhase::Done(r) => r,
    }
}

impl Dispatcher {
    /// Whether the dispatcher's phase names a handler offered its event,
    /// or a result handler that listens to the result.
    pub open spec fn wf(&self, modules: Seq<Module>, rhs: Seq<EventResultHandler>) -> bool {
        match self.phase {
            DispatchPhase::Handlers(m, h) => matches_at(modules, self.event, m as int, h as int),
            DispatchPhase::Results(r, p, i) => i < rhs.len() && listens_spec(rhs[i as int].process, p)
                && !(r is NotHandled),
            DispatchPhase::Done(_) => true,
        }
    }

    /// Starts the dispatch of an event of kind `event`: the first handler
    /// offered the event, or the end when there is none.
    pub fn start(modules: &Vec<Module>, event: EventKind) -> (res: (Dispatcher, DispatchAction))
        ensures
            res.0.event == event,
            (res.0.phase, res.1) == offer_from(modules@, event, 0, 0),
            res.0.wf(modules@, Seq::empty()),
    {
        proof {
            lemma_sizes_fit(modules);
            lemma_next_match(modules@, event, 0, 0);
        }
        let (phase, action) = match next_handler(modules, event, 0, 0) {
            None => (DispatchPhase::Done(MapResult::NotHandled), DispatchAction::Finish(MapResult::NotHandled)),
            Some((m, h)) => (DispatchPhase::Handlers(m, h), DispatchAction::CallHandler(m, h)),
        };
        (Dispatcher { event, phase }, action)
    }

    /// Goes on after the handler named by the last action answered `outcome`.
    pub fn handler_done(
        &mut self,
        modules: &Vec<Module>,
        rhs: &Vec<EventResultHandler>,
        outcome: HandlerOutcome,
    ) -> (act: DispatchAction)
        requires
            old(self).wf(modules@, rhs@),
            old(self).phase is Handlers,
        ensures
            final(self).event == old(self).event,
            (final(self).phase, act) == handler_transition(
                modules@,
                rhs@,
                old(self).event,
                old(self).phase->Handlers_0 as int,
                old(self).phase->Handlers_1 as int,
                outcome,
            ),
            final(self).wf(modules@, rhs@),
    {
        proof {
            lemma_sizes_fit(modules);
        }
        let (m, h) = match self.phase {
            DispatchPhase::Handlers(m, h) => (m, h),
            _ => (0, 0),
        };
        let p = modules[m].handles[h].process;
        let result = match outcome {
            HandlerOutcome::Ignored => {
                proof {
                    lemma_next_match(modules@, self.event, m as int, h as int + 1);
                }
                let (phase, act) = match next_handler(modules, self.event, m, h + 1) {
                    None => (
                        DispatchPhase::Done(MapResult::NotHandled),
                        DispatchAction::Finish(MapResult::NotHandled),
                    ),
                    Some((qm, qh)) => (DispatchPhase::Handlers(qm, qh), DispatchAction::CallHandler(qm, qh)),
                };
                self.phase = phase;
                return act;
            },
            HandlerOutcome::Handled => MapResult::Process(m, h),
            HandlerOutcome::Failed => MapResult::Exception(m, h),
        };
        proof {
            assert(rhs.len() == rhs@.len());
            law_next_listener(rhs@, p, 0);
        }
        match next_result_handler(rhs, p, 0) {
            None => {
                self.phase = DispatchPhase::Done(result);
                DispatchAction::Finish(result)
            },
            Some(i) => {
                self.phase = DispatchPhase::Results(result, p, i);
                DispatchAction::CallResultHandler(i)
            },
        }
    }

    /// Goes on after the result handler named by the last action answered `outcome`.
    pub fn result_handler_done(&mut self, rhs: &Vec<EventResultHandler>, outcome: HandlerOutcome) -> (act:
        DispatchAction)
        requires
            old(self).phase is Results,
        ensures
            final(self).event == old(self).event,
            (final(self).phase, act) == result_transition(
                rhs@,
                old(self).phase->Results_0,
                old(self).phase->Results_1,
                old(self).phase->Results_2 as int,
                outcome,
            ),
            old(self).wf(Seq::empty(), rhs@) ==> final(self).wf(Seq::empty(), rhs@),
    {
        let (r, p, i) = match self.phase {
            DispatchPhase::Results(r, p, i) => (r, p, i),
            _ => (MapResult::NotHandled, ModuleEventProcess::Message, 0),
        };
        proof {
            assert(rhs.len() == rhs@.len());
        }
        match outcome {
            HandlerOutcome::Ignored => {
                proof {
                    if i < usize::MAX {
                        law_next_listener(rhs@, p, i + 1);
                    }
                }
                if i < usize::MAX {
                    match next_result_handler(rhs, p, i + 1) {
                        None => {
                            self.phase = DispatchPhase::Done(r);
                            DispatchAction::Finish(r)
                        },
                        Some(j) => {
                            self.phase = DispatchPhase::Results(r, p, j);
                            DispatchAction::CallResultHandler(j)
                        },
                    }
                } else {
                    self.phase = DispatchPhase::Done(r);
                    DispatchAction::Finish(r)
                }
            },
            _ => {
                self.phase = DispatchPhase::Done(r);
                DispatchAction::Finish(r)
            },
        }
    }
}

/// The dispatch starts from the result of the whole scan: the phase reached
/// by `start` stands for `dispatch_scan` from the first position.
pub proof fn law_start_keeps_result(
    modules: Seq<Module>,
    e: EventKind,
    o: spec_fn(int, int) -> HandlerOutcome,
)
    requires
        sizes_fit(modules),
    ensures
        phase_result(modules, e, o, offer_from(modules, e, 0, 0).0) == dispatch_scan(
            modules,
            e,
            o,
            0,
            0,
        ),
{
    lemma_scan_skips(modules, e, o, 0, 0);
    if let Some(q) = next_match_spec(modules, e, 0, 0) {
        lemma_next_match(modules, e, 0, 0);
        lemma_scan_skips(modules, e, o, q.0 as int, q.1 as int);
    }
}

/// Each step of the dispatch keeps the result it is heading for: once the
/// handler at (`m`, `h`) has answered as `o` says, the next phase stands for
/// the same result as the scan from (`m`, `h`). With `law_start_keeps_result`,
/// a dispatch whose handlers answer `o` finishes with
/// `dispatch_scan(modules, e, o, 0, 0)`, as `law_dispatch_first_decisive` describes it.
pub proof fn law_step_keeps_result(
    modules: Seq<Module>,
    rhs: Seq<EventResultHandler>,
    e: EventKind,
    o: spec_fn(int, int) -> HandlerOutcome,
    m: int,
    h: int,
)
    requires
        sizes_fit(modules),
        matches_at(modules, e, m, h),
    ensures
        phase_result(modules, e, o, handler_transition(modules, rhs, e, m, h, o(m, h)).0)
            == dispatch_scan(modules, e, o, m, h),
{
    if o(m, h) == HandlerOutcome::Ignored {
        lemma_scan_skips(modules, e, o, m, h + 1);
        if let Some(q) = next_match_spec(modules, e, m, h + 1) {
            lemma_next_match(modules, e, m, h + 1);
            lemma_scan_skips(modules, e, o, q.0 as int, q.1 as int);
        }
    }
}

/// Telling result handlers of a result never changes it.
pub proof fn law_results_keep_result(
    rhs: Seq<EventResultHandler>,
    r: MapResult,
    p: ModuleEventProcess,
    i: int,
    outcome: HandlerOutcome,
)
    ensures
        match result_transition(rhs, r, p, i, outcome).0 {
            DispatchPhase::Results(r2, p2, _) => r2 == r && p2 == p,
            DispatchPhase::Done(r2) => r2 == r,
            DispatchPhase::Handlers(_, _) => false,
        },
{
}


/// The handlers that a dispatch scanning from (`m`, `h`) calls, in the
/// order it calls them, when the handler at each position answers `o` of
/// that position: each handler offered the event, until one processes it
/// or fails.
pub open spec fn scan_calls(
    modules: Seq<Module>,
    e: EventKind,
    o: spec_fn(int, int) -> HandlerOutcome,
    m: int,
    h: int,
) -> Seq<(int, int)>
    decreases modules.len() - m, modules[m].handles@.len() - h,
{
    if m < 0 || m >= modules.len() || h < 0 {
        Seq::empty()
    } else if h >= modules[m].handles@.len() {
        scan_calls(modules, e, o, m + 1, 0)
    } else if !offered_spec(e, modules[m].handles@[h].process) {
        scan_calls(modules, e, o, m, h + 1)
    } else {
        seq![(m, h)] + match o(m, h) {
            HandlerOutcome::Ignored => scan_calls(modules, e, o, m, h + 1),
            _ => Seq::empty(),
        }
    }
}

/// What a dispatch ends with after calling `calls`: the last call's handler
/// processed the event or failed, or every handler called passed it on.
pub open spec fn calls_result(calls: Seq<(int, int)>, o: spec_fn(int, int) -> HandlerOutcome) -> MapResult {
    if calls.len() == 0 {
        MapResult::NotHandled
    } else {
        let q = calls.last();
        match o(q.0, q.1) {
            HandlerOutcome::Handled => MapResult::Process(q.0 as usize, q.1 as usize),
            HandlerOutcome::Failed => MapResult::Exception(q.0 as usize, q.1 as usize),
            HandlerOutcome::Ignored => MapResult::NotHandled,
        }
    }
}

/// What the law of a whole dispatch says of the handlers it calls from
/// (`m`, `h`) on: only handlers offered the event, each once, in dispatch
/// order; all but the last passed it on; every handler offered the event
/// is called, unless it comes after one that processed it or failed; and
/// the dispatch ends as the last call says.
pub open spec fn calls_law(
    modules: Seq<Module>,
    e: EventKind,
    o: spec_fn(int, int) -> HandlerOutcome,
    m: int,
    h: int,
    calls: Seq<(int, int)>,
) -> bool {
    &&& forall|i: int|
        0 <= i < calls.len() ==> matches_at(modules, e, #[trigger] calls[i].0, calls[i].1)
            && pos_le(m, h, calls[i].0, calls[i].1)
    &&& forall|i: int, j: int|
        0 <= i < j < calls.len() ==> pos_lt(#[trigger] calls[i].0, calls[i].1, #[trigger] calls[j].0, calls[j].1)
    &&& forall|i: int|
        0 <= i < calls.len() - 1 ==> o(#[trigger] calls[i].0, calls[i].1) == HandlerOutcome::Ignored
    &&& forall|qm: int, qh: int|
        #![trigger matches_at(modules, e, qm, qh)]
        matches_at(modules, e, qm, qh) && pos_le(m, h, qm, qh) ==> calls.contains((qm, qh)) || (
        calls.len() > 0 && pos_lt(calls.last().0, calls.last().1, qm, qh) && o(
            calls.last().0,
            calls.last().1,
        ) != HandlerOutcome::Ignored)
    &&& dispatch_scan(modules, e, o, m, h) == calls_result(calls, o)
}

proof fn lemma_scan_calls(
    modules: Seq<Module>,
    e: EventKind,
    o: spec_fn(int, int) -> HandlerOutcome,
    m: int,
    h: int,
)
    requires
        sizes_fit(modules),
        m >= 0,
        h >= 0,
    ensures
        calls_law(modules, e, o, m, h, scan_calls(modules, e, o, m, h)),
    decreases modules.len() - m, modules[m].handles@.len() - h,
{
    let calls = scan_calls(modules, e, o, m, h);
    if m >= modules.len() {
    } else if h >= modules[m].handles@.len() {
        lemma_scan_calls(modules, e, o, m + 1, 0);
        assert forall|qm: int, qh: int| matches_at(modules, e, qm, qh) && pos_le(m, h, qm, qh)
            implies pos_le(m + 1, 0, qm, qh) by {}
    } else if !offered_spec(e, modules[m].handles@[h].process) {
        lemma_scan_calls(modules, e, o, m, h + 1);
        assert forall|qm: int, qh: int| matches_at(modules, e, qm, qh) && pos_le(m, h, qm, qh)
            implies pos_le(m, h + 1, qm, qh) by {}
    } else {
        assert(matches_at(modules, e, m, h));
        if o(m, h) == HandlerOutcome::Ignored {
            lemma_scan_calls(modules, e, o, m, h + 1);
            let rest = scan_calls(modules, e, o, m, h + 1);
            assert(calls =~= seq![(m, h)] + rest);
            assert forall|i: int| 0 < i < calls.len() implies calls[i] == rest[i - 1] by {}
            assert forall|i: int|
                0 <= i < calls.len() implies matches_at(modules, e, #[trigger] calls[i].0, calls[i].1)
                && pos_le(m, h, calls[i].0, calls[i].1) by {
                if i > 0 {
                    assert(calls[i] == rest[i - 1]);
                }
            }
            assert forall|i: int, j: int| 0 <= i < j < calls.len() implies pos_lt(
                #[trigger] calls[i].0,
                calls[i].1,
                #[trigger] calls[j].0,
                calls[j].1,
            ) by {
                assert(calls[j] == rest[j - 1]);
                if i > 0 {
                    assert(calls[i] == rest[i - 1]);
                }
            }
            assert forall|i: int| 0 <= i < calls.len() - 1 implies o(
                #[trigger] calls[i].0,
                calls[i].1,
            ) == HandlerOutcome::Ignored by {
                if i > 0 {
                    assert(calls[i] == rest[i - 1]);
                }
            }
            assert forall|qm: int, qh: int|
                matches_at(modules, e, qm, qh) && pos_le(m, h, qm, qh) implies calls.contains(
                (qm, qh),
            ) || (calls.len() > 0 && pos_lt(calls.last().0, calls.last().1, qm, qh) && o(
                calls.last().0,
                calls.last().1,
            ) != HandlerOutcome::Ignored) by {
                if qm == m && qh == h {
                    assert(calls[0] == (qm, qh));
                } else {
                    assert(pos_le(m, h + 1, qm, qh));
                    if rest.contains((qm, qh)) {
                        let j = choose|j: int| 0 <= j < rest.len() && rest[j] == (qm, qh);
                        assert(calls[j + 1] == (qm, qh));
                    } else {
                        assert(calls.last() == rest.last());
                    }
                }
            }
            if rest.len() > 0 {
                assert(calls.last() == rest.last());
            }
        } else {
            assert(calls =~= seq![(m, h)]);
            assert forall|qm: int, qh: int|
                matches_at(modules, e, qm, qh) && pos_le(m, h, qm, qh) implies calls.contains(
                (qm, qh),
            ) || (calls.len() > 0 && pos_lt(calls.last().0, calls.last().1, qm, qh) && o(
                calls.last().0,
                calls.last().1,
            ) != HandlerOutcome::Ignored) by {
                if qm == m && qh == h {
                    assert(calls[0] == (qm, qh));
                }
            }
        }
    }
}

/// The law of a whole dispatch: the handlers it calls, `scan_calls` from the
/// first position, are only handlers offered the event, each called once,
/// in module order and then handler order; every one but the last passed
/// the event on; no handler offered the event is left out, unless it comes
/// after the last call and that call processed the event or failed; and the
/// dispatch ends with the last call's result (`law_start_calls` and
/// `law_step_calls` show that the dispatcher makes exactly these calls).
pub proof fn law_dispatch_calls(
    modules: Seq<Module>,
    e: EventKind,
    o: spec_fn(int, int) -> HandlerOutcome,
)
    requires
        sizes_fit(modules),
    ensures
        calls_law(modules, e, o, 0, 0, scan_calls(modules, e, o, 0, 0)),
{
    lemma_scan_calls(modules, e, o, 0, 0);
}

proof fn lemma_calls_skip(
    modules: Seq<Module>,
    e: EventKind,
    o: spec_fn(int, int) -> HandlerOutcome,
    m: int,
    h: int,
)
    requires
        sizes_fit(modules),
        m >= 0,
        h >= 0,
    ensures
        scan_calls(modules, e, o, m, h) == (match next_match_spec(modules, e, m, h) {
            None => Seq::empty(),
            Some(q) => scan_calls(modules, e, o, q.0 as int, q.1 as int),
        }),
    decreases modules.len() - m, modules[m].handles@.len() - h,
{
    if m >= modules.len() {
    } else if h >= modules[m].handles@.len() {
        lemma_calls_skip(modules, e, o, m + 1, 0);
    } else if offered_spec(e, modules[m].handles@[h].process) {
    } else {
        lemma_calls_skip(modules, e, o, m, h + 1);
    }
}

/// The dispatcher's first call is the first call of the whole dispatch: it
/// starts by calling the first handler of `scan_calls`, or finishes at once
/// when that holds none.
pub proof fn law_start_calls(modules: Seq<Module>, e: EventKind, o: spec_fn(int, int) -> HandlerOutcome)
    requires
        sizes_fit(modules),
    ensures
        match offer_from(modules, e, 0, 0).1 {
            DispatchAction::CallHandler(qm, qh) => scan_calls(modules, e, o, 0, 0).len() > 0
                && scan_calls(modules, e, o, 0, 0)[0] == (qm as int, qh as int),
            _ => scan_calls(modules, e, o, 0, 0).len() == 0,
        },
{
    lemma_calls_skip(modules, e, o, 0, 0);
    lemma_next_match(modules, e, 0, 0);
}

/// Each step of the dispatcher makes the next call of the whole dispatch:
/// once the handler at (`m`, `h`), the first call of `scan_calls` from there,
/// has answered as `o` says, the dispatcher calls the second handler of
/// that list, from which the rest of the list goes on; or, where the list
/// holds that one call only, it calls no other handler.
pub proof fn law_step_calls(
    modules: Seq<Module>,
    rhs: Seq<EventResultHandler>,
    e: EventKind,
    o: spec_fn(int, int) -> HandlerOutcome,
    m: int,
    h: int,
)
    requires
        sizes_fit(modules),
        matches_at(modules, e, m, h),
    ensures
        scan_calls(modules, e, o, m, h)[0] == (m, h),
        match handler_transition(modules, rhs, e, m, h, o(m, h)).1 {
            DispatchAction::CallHandler(qm, qh) => {
                &&& scan_calls(modules, e, o, m, h).len() > 1
                &&& scan_calls(modules, e, o, m, h)[1] == (qm as int, qh as int)
                &&& scan_calls(modules, e, o, qm as int, qh as int) == scan_calls(
                    modules,
                    e,
                    o,
                    m,
                    h,
                ).drop_first()
            },
            _ => scan_calls(modules, e, o, m, h).len() == 1,
        },
{
    let calls = scan_calls(modules, e, o, m, h);
    if o(m, h) == HandlerOutcome::Ignored {
        lemma_calls_skip(modules, e, o, m, h + 1);
        lemma_next_match(modules, e, m, h + 1);
        let rest = scan_calls(modules, e, o, m, h + 1);
        assert(calls =~= seq![(m, h)] + rest);
        assert(calls.drop_first() =~= rest);
        if let Some(q) = next_match_spec(modules, e, m, h + 1) {
            assert(rest[0] == (q.0 as int, q.1 as int));
        }
    } else {
        assert(calls =~= seq![(m, h)]);
    }
}

/// What sending a connection event reports once it was dispatched: an
/// error when a handler failed, else success.
pub fn send_status(r: MapResult) -> (s: Result<(), String>)
    ensures
        r is Exception ==> (s matches Err(m) && m@ == "err"@),
        !(r is Exception) ==> s is Ok,
{
    match r {
        MapResult::Exception(_, _) => Err("err".to_owned()),
        _ => Ok(()),
    }
}
/// Whether position (`m`, `h`) names a handler of the modules.
pub open spec fn valid_position(modules: Seq<Module>, m: int, h: int) -> bool {
    0 <= m < modules.len() && 0 <= h < modules[m].handles@.len()
}

/// Whether a module and handler are the ones at position (`m`, `h`).
pub open spec fn info_at(modules: Seq<Module>, m: int, h: int, info: ModuleInfo) -> bool {
    &&& info.module_id == modules[m].id
    &&& info.module_name == modules[m].name
    &&& info.handle_name == modules[m].handles@[h].name
}

fn info_of(modules: &Vec<Module>, m: usize, h: usize) -> (r: ModuleInfo)
    requires
        valid_position(modules@, m as int, h as int),
    ensures
        info_at(modules@, m as int, h as int, r),
{
    ModuleInfo {
        module_id: modules[m].id.clone(),
        module_name: modules[m].name.clone(),
        handle_name: modules[m].handles[h].name.clone(),
    }
}

/// What the result handlers are told of a dispatch that ended with `r`:
/// the module and handler that processed the event, or the one that failed
/// with the error's text; nothing when no handler took it.
pub fn event_result(modules: &Vec<Module>, r: MapResult, error: String) -> (e: Option<EventResult>)
    requires
        r matches MapResult::Process(m, h) ==> valid_position(modules@, m as int, h as int),
        r matches MapResult::Exception(m, h) ==> valid_position(modules@, m as int, h as int),
    ensures
        match r {
            MapResult::NotHandled => e is None,
            MapResult::Process(m, h) => e matches Some(EventResult::Process(info)) && info_at(
                modules@,
                m as int,
                h as int,
                info,
            ),
            MapResult::Exception(m, h) => e matches Some(EventResult::Exception(info, x))
                && info_at(modules@, m as int, h as int, info) && x == error,
        },
{
    match r {
        MapResult::NotHandled => None,
        MapResult::Process(m, h) => Some(EventResult::Process(info_of(modules, m, h))),
        MapResult::Exception(m, h) => Some(EventResult::Exception(info_of(modules, m, h), error)),
    }
}

} // verus!
