//! Capability plugins and the lifecycle event traces the bridge produces
//! while initializing and tearing them down.

use vstd::prelude::*;

verus! {

/// A capability plugin handed to startup: its identifier and the outcomes of
/// its initialization and teardown routines. The bridge's sequencing is
/// verified for every combination of outcomes, so it holds whatever the
/// routines do when the host runs them.
#[derive(Clone, Debug)]
pub struct Plugin {
    pub id: String,
    pub init_ok: bool,
    pub teardown_ok: bool,
}

/// Mathematical model of a `Plugin`.
pub struct PluginV {
    pub id: Seq<char>,
    pub init_ok: bool,
    pub teardown_ok: bool,
}

impl View for Plugin {
    type V = PluginV;

    open spec fn view(&self) -> PluginV {
        PluginV { id: self.id@, init_ok: self.init_ok, teardown_ok: self.teardown_ok }
    }
}

/// Model of a plugin list.
pub open spec fn plugins_view(ps: Seq<Plugin>) -> Seq<PluginV> {
    ps.map_values(|p: Plugin| p@)
}

/// One observable lifecycle event, carrying the plugin's identifier.
#[derive(Clone, Debug, PartialEq, Eq)]
pub enum Event {
    InitOk(String),
    InitFailed(String),
    TeardownOk(String),
    TeardownFailed(String),
}

/// Mathematical model of an `Event`.
pub enum EventV {
    InitOk(Seq<char>),
    InitFailed(Seq<char>),
    TeardownOk(Seq<char>),
    TeardownFailed(Seq<char>),
}

impl View for Event {
    type V = EventV;

    open spec fn view(&self) -> EventV {
        match self {
            Event::InitOk(id) => EventV::InitOk(id@),
            Event::InitFailed(id) => EventV::InitFailed(id@),
            Event::TeardownOk(id) => EventV::TeardownOk(id@),
            Event::TeardownFailed(id) => EventV::TeardownFailed(id@),
        }
    }
}

/// Model of an event list.
pub open spec fn events_view(es: Seq<Event>) -> Seq<EventV> {
    es.map_values(|e: Event| e@)
}

/// How many plugins initialize successfully before the first failure: the
/// index of the first plugin whose initialization fails, or the list's
/// length when every initialization succeeds.
pub open spec fn init_prefix_len(ps: Seq<PluginV>) -> int
    decreases ps.len(),
{
    if ps.len() == 0 {
        0
    } else if !ps[0].init_ok {
        0
    } else {
        1 + init_prefix_len(ps.drop_first())
    }
}

pub proof fn lemma_init_prefix_len_characterized(ps: Seq<PluginV>)
    ensures
        0 <= init_prefix_len(ps) <= ps.len(),
        forall|i: int| 0 <= i < init_prefix_len(ps) ==> ps[i].init_ok,
        init_prefix_len(ps) < ps.len() ==> !ps[init_prefix_len(ps)].init_ok,
    decreases ps.len(),
{
    if ps.len() > 0 && ps[0].init_ok {
        lemma_init_prefix_len_characterized(ps.drop_first());
        assert forall|i: int| 0 <= i < init_prefix_len(ps) implies ps[i].init_ok by {
            if i > 0 {
                assert(ps.drop_first()[i - 1] == ps[i]);
            }
        }
        if init_prefix_len(ps) < ps.len() {
            assert(ps.drop_first()[init_prefix_len(ps) - 1] == ps[init_prefix_len(ps)]);
        }
    }
}

pub proof fn lemma_init_prefix_len_from_scan(ps: Seq<PluginV>, k: int)
    requires
        0 <= k <= ps.len(),
        forall|i: int| 0 <= i < k ==> ps[i].init_ok,
        k < ps.len() ==> !ps[k].init_ok,
    ensures
        init_prefix_len(ps) == k,
    decreases ps.len(),
{
    if ps.len() > 0 && ps[0].init_ok {
        assert forall|i: int| 0 <= i < k - 1 implies ps.drop_first()[i].init_ok by {
            assert(ps.drop_first()[i] == ps[i + 1]);
        }
        if k - 1 < ps.drop_first().len() {
            assert(ps.drop_first()[k - 1] == ps[k]);
        }
        lemma_init_prefix_len_from_scan(ps.drop_first(), k - 1);
    }
}

/// The teardown event a plugin produces: teardown failures are non-fatal and
/// only recorded.
pub open spec fn teardown_event(p: PluginV) -> EventV {
    if p.teardown_ok {
        EventV::TeardownOk(p.id)
    } else {
        EventV::TeardownFailed(p.id)
    }
}

/// The events of initializing the first `k` plugins, in declared order.
pub open spec fn init_trace(ps: Seq<PluginV>, k: int) -> Seq<EventV> {
    Seq::new(k as nat, |i: int| EventV::InitOk(ps[i].id))
}

/// The events of tearing down the first `k` plugins, in reverse of their
/// initialization order.
pub open spec fn teardown_trace(ps: Seq<PluginV>, k: int) -> Seq<EventV> {
    Seq::new(k as nat, |i: int| teardown_event(ps[k - 1 - i]))
}

/// The whole event trace startup produces: when every plugin initializes,
/// the initializations in declared order; otherwise the successful
/// initializations, the failed one, and the teardown of the initialized
/// plugins in reverse order.
pub open spec fn startup_trace(ps: Seq<PluginV>) -> Seq<EventV> {
    let k = init_prefix_len(ps);
    if k == ps.len() {
        init_trace(ps, k)
    } else {
        init_trace(ps, k).push(EventV::InitFailed(ps[k].id)) + teardown_trace(ps, k)
    }
}

} // verus!
