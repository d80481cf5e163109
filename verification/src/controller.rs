//! The controller that owns the domain state and serializes every mutation:
//! it drains the action bus once per cycle, updates its own flags or merges
//! into the store, forwards each action to every component, and collects the
//! derived actions for the next cycle — never draining them in the same
//! cycle, so one cycle's work is bounded.

use vstd::prelude::*;

verus! {

use crate::action::Action;
use crate::component::{Component, DiagnosticView, ListView, MapView, Size, component_step};
use crate::geoindex::AlertsInUaGeoClient;
use crate::region::{
    RegionStore,
    StoreModel,
    apply_status_spec,
    list_items_spec,
    spec_select_next,
    spec_select_previous,
};

/// Display language of the dashboard.
#[derive(Clone, Copy, PartialEq, Eq, Structural, Debug)]
pub enum Locale {
    Uk,
    En,
}

/// The other display language.
pub open spec fn toggled_locale(l: Locale) -> Locale {
    match l {
        Locale::Uk => Locale::En,
        Locale::En => Locale::Uk,
    }
}

/// The controller's coarse state.
#[derive(Clone, Copy, PartialEq, Eq, Structural, Debug)]
pub enum Mode {
    Running,
    Suspended,
    Quitting,
}

/// What the embedding shell must do after one action is handled: nothing,
/// feed a derived action into the next cycle, start a background fetch, or
/// redraw every component.
pub enum Effect {
    Nothing,
    Emit(Action),
    StartFetch,
    Draw,
}

/// What the embedding shell must do after one full drain cycle.
pub struct CycleOutcome {
    /// Derived actions, for the next cycle's drain — never this one's.
    pub derived: Vec<Action>,
    /// Whether a render or resize was processed, so every component must be
    /// drawn against its viewport.
    pub draw: bool,
    /// Whether a background fetch must be started.
    pub fetch: bool,
}

/// Ghost snapshot of everything the dispatch loop may change.
#[verifier::ext_equal]
pub struct ControllerModel {
    pub store: StoreModel,
    pub components: Seq<Component>,
    pub should_quit: bool,
    pub should_suspend: bool,
    pub locale: Locale,
}

/// The store's next state on one action: a completed fetch merges its
/// status string, a selection action moves the selection, a failed fetch
/// changes nothing — stale status is better than a blank map — and every
/// other action leaves the store alone.
pub open spec fn store_step(m: StoreModel, a: Action) -> StoreModel {
    match a {
        Action::FetchCompleted(s) => StoreModel {
            regions: apply_status_spec(m.regions, s@),
            items: list_items_spec(apply_status_spec(m.regions, s@)),
            selection: m.selection,
            scroll: m.scroll,
            last_selection: m.last_selection,
        },
        Action::Select(d) => if d > 0 {
            StoreModel {
                regions: m.regions,
                items: m.items,
                selection: Some(spec_select_next(m.selection, m.last_selection)),
                scroll: m.scroll,
                last_selection: m.last_selection,
            }
        } else if d < 0 {
            StoreModel {
                regions: m.regions,
                items: m.items,
                selection: Some(spec_select_previous(m.selection, m.last_selection)),
                scroll: m.scroll,
                last_selection: m.last_selection,
            }
        } else {
            m
        },
        _ => m,
    }
}

/// The whole controller's next state on one action: the store steps, the
/// quit flag latches on `Quit`, the suspend flag follows `Suspend` and
/// `Resume`, the locale toggles on `Locale`, and every component steps.
pub open spec fn controller_step(m: ControllerModel, a: Action) -> ControllerModel {
    ControllerModel {
        store: store_step(m.store, a),
        components: Seq::new(m.components.len(), |i: int| component_step(m.components[i], a)),
        should_quit: m.should_quit || a is Quit,
        should_suspend: if a is Suspend {
            true
        } else if a is Resume {
            false
        } else {
            m.should_suspend
        },
        locale: if a is Locale {
            toggled_locale(m.locale)
        } else {
            m.locale
        },
    }
}

/// The derived action one action feeds back for the next cycle: a locale
/// switch and a completed fetch both ask for a refresh.
pub open spec fn emitted_action(a: Action) -> Option<Action> {
    match a {
        Action::Locale => Some(Action::Refresh),
        Action::FetchCompleted(_) => Some(Action::Refresh),
        _ => None,
    }
}

/// Whether one action asks for a redraw.
pub open spec fn action_draws(a: Action) -> bool {
    a is Render || a is Resize
}

/// Whether one action asks for a background fetch.
pub open spec fn action_fetches(a: Action) -> bool {
    a is Fetch
}

/// The effect one action leaves for the embedding shell.
pub open spec fn effect_of(a: Action) -> Effect {
    if action_draws(a) {
        Effect::Draw
    } else if action_fetches(a) {
        Effect::StartFetch
    } else {
        match emitted_action(a) {
            Some(x) => Effect::Emit(x),
            None => Effect::Nothing,
        }
    }
}

/// The controller state after one cycle's actions, oldest first.
pub open spec fn run_cycle_model(m: ControllerModel, actions: Seq<Action>) -> ControllerModel
    decreases actions.len(),
{
    if actions.len() == 0 {
        m
    } else {
        controller_step(run_cycle_model(m, actions.drop_last()), actions.last())
    }
}

/// The derived actions one cycle collects, in the order their sources were
/// drained.
pub open spec fn cycle_derived(actions: Seq<Action>) -> Seq<Action>
    decreases actions.len(),
{
    if actions.len() == 0 {
        Seq::empty()
    } else {
        cycle_derived(actions.drop_last()) + match emitted_action(actions.last()) {
            Some(x) => seq![x],
            None => Seq::empty(),
        }
    }
}

/// Whether one cycle's actions ask for a redraw.
pub open spec fn cycle_draws(actions: Seq<Action>) -> bool
    decreases actions.len(),
{
    if actions.len() == 0 {
        false
    } else {
        cycle_draws(actions.drop_last()) || action_draws(actions.last())
    }
}

/// Whether one cycle's actions ask for a background fetch.
pub open spec fn cycle_fetches(actions: Seq<Action>) -> bool
    decreases actions.len(),
{
    if actions.len() == 0 {
        false
    } else {
        cycle_fetches(actions.drop_last()) || action_fetches(actions.last())
    }
}

/// The mode the flags stand for.
pub open spec fn mode_of(m: ControllerModel) -> Mode {
    if m.should_quit {
        Mode::Quitting
    } else if m.should_suspend {
        Mode::Suspended
    } else {
        Mode::Running
    }
}

/// Owner of the domain state and driver of the dispatch loop.
pub struct AppController {
    /// The canonical domain state; mutated only here, one action at a time.
    pub store: RegionStore,
    /// The immutable geographic registry.
    pub geo: AlertsInUaGeoClient,
    /// The render/update units, in dispatch order.
    pub components: Vec<Component>,
    /// Latched by `Quit`; the loop exits at the end of the cycle.
    pub should_quit: bool,
    /// Set by `Suspend`, cleared by `Resume`.
    pub should_suspend: bool,
    /// Current display language.
    pub locale: Locale,
    /// Tick period, in milliseconds.
    pub tick_rate_ms: u64,
    /// Frame period, in milliseconds.
    pub frame_rate_ms: u64,
}

impl AppController {
    /// Ghost snapshot of everything the dispatch loop may change.
    pub open spec fn model(&self) -> ControllerModel {
        ControllerModel {
            store: self.store.model(),
            components: self.components@,
            should_quit: self.should_quit,
            should_suspend: self.should_suspend,
            locale: self.locale,
        }
    }

    /// Build the controller over a hydrated store and registry: the map,
    /// list and diagnostic views in dispatch order, flags down, local
    /// display language.
    pub fn new(store: RegionStore, geo: AlertsInUaGeoClient, tick_rate_ms: u64, frame_rate_ms: u64)
        -> (c: Self)
        ensures
            c.store == store,
            c.geo == geo,
            c.components@ == seq![
                Component::MapView(MapView { size: Size { width: 0, height: 0 } }),
                Component::ListView(ListView { size: Size { width: 0, height: 0 } }),
                Component::DiagnosticView(DiagnosticView { app_ticks: 0, render_ticks: 0 }),
            ],
            !c.should_quit,
            !c.should_suspend,
            c.locale == Locale::Uk,
            c.tick_rate_ms == tick_rate_ms,
            c.frame_rate_ms == frame_rate_ms,
    {
        let mut components: Vec<Component> = Vec::new();
        components.push(Component::new_map());
        components.push(Component::new_list());
        components.push(Component::new_diagnostic());
        assert(components@ =~= seq![
            Component::MapView(MapView { size: Size { width: 0, height: 0 } }),
            Component::ListView(ListView { size: Size { width: 0, height: 0 } }),
            Component::DiagnosticView(DiagnosticView { app_ticks: 0, render_ticks: 0 }),
        ]);
        AppController {
            store,
            geo,
            components,
            should_quit: false,
            should_suspend: false,
            locale: Locale::Uk,
            tick_rate_ms,
            frame_rate_ms,
        }
    }

    /// The controller's coarse state: quitting once `Quit` was processed,
    /// else suspended while the suspend flag is up, else running.
    pub fn mode(&self) -> (m: Mode)
        ensures
            m == mode_of(self.model()),
    {
        if self.should_quit {
            Mode::Quitting
        } else if self.should_suspend {
            Mode::Suspended
        } else {
            Mode::Running
        }
    }

    /// Handle one action's own meaning: update the flags, toggle the
    /// locale, merge a completed fetch into the store, move the selection,
    /// and leave the store untouched on a failed fetch. The returned
    /// effect tells the embedding shell what else the action asks for.
    pub fn handle_action(&mut self, a: &Action) -> (eff: Effect)
        requires
            old(self).store.wf(),
        ensures
            final(self).store.wf(),
            final(self).model().store == store_step(old(self).model().store, *a),
            final(self).model().components == old(self).model().components,
            final(self).should_quit == (old(self).should_quit || *a is Quit),
            final(self).should_suspend == (if *a is Suspend {
                true
            } else if *a is Resume {
                false
            } else {
                old(self).should_suspend
            }),
            final(self).locale == (if *a is Locale {
                toggled_locale(old(self).locale)
            } else {
                old(self).locale
            }),
            final(self).geo == old(self).geo,
            final(self).tick_rate_ms == old(self).tick_rate_ms,
            final(self).frame_rate_ms == old(self).frame_rate_ms,
            eff == effect_of(*a),
    {
        match a {
            Action::Quit => {
                self.should_quit = true;
                Effect::Nothing
            },
            Action::Suspend => {
                self.should_suspend = true;
                Effect::Nothing
            },
            Action::Resume => {
                self.should_suspend = false;
                Effect::Nothing
            },
            Action::Locale => {
                self.locale = match self.locale {
                    Locale::Uk => Locale::En,
                    Locale::En => Locale::Uk,
                };
                Effect::Emit(Action::Refresh)
            },
            Action::Render => Effect::Draw,
            Action::Resize(_, _) => Effect::Draw,
            Action::Fetch => Effect::StartFetch,
            Action::FetchCompleted(s) => {
                proof {
                    use_type_invariant(s);
                }
                self.store.apply_status(s);
                Effect::Emit(Action::Refresh)
            },
            Action::FetchFailed(_) => Effect::Nothing,
            Action::Select(d) => {
                if *d > 0 {
                    self.store.select_next();
                } else if *d < 0 {
                    self.store.select_previous();
                }
                Effect::Nothing
            },
            Action::Tick => Effect::Nothing,
            Action::Refresh => Effect::Nothing,
            Action::KeyInput(_, _) => Effect::Nothing,
            Action::Error(_) => Effect::Nothing,
        }
    }

    /// Drain one cycle's actions in first-in first-out order: handle each
    /// action, forward it to every component, and collect what the cycle
    /// asks of the embedding shell. Derived actions are returned for the
    /// next cycle, never processed within this one.
    pub fn dispatch_cycle(&mut self, actions: Vec<Action>) -> (out: CycleOutcome)
        requires
            old(self).store.wf(),
        ensures
            final(self).store.wf(),
            final(self).model() == run_cycle_model(old(self).model(), actions@),
            final(self).geo == old(self).geo,
            final(self).tick_rate_ms == old(self).tick_rate_ms,
            final(self).frame_rate_ms == old(self).frame_rate_ms,
            out.derived@ == cycle_derived(actions@),
            out.draw == cycle_draws(actions@),
            out.fetch == cycle_fetches(actions@),
    {
        let ghost m0 = self.model();
        let mut derived: Vec<Action> = Vec::new();
        let mut draw = false;
        let mut fetch = false;
        let n = actions.len();
        let mut j: usize = 0;
        while j < n
            invariant
                self.store.wf(),
                n == actions@.len(),
                j <= n,
                m0 == old(self).model(),
                self.model() == run_cycle_model(m0, actions@.take(j as int)),
                self.geo == old(self).geo,
                self.tick_rate_ms == old(self).tick_rate_ms,
                self.frame_rate_ms == old(self).frame_rate_ms,
                derived@ == cycle_derived(actions@.take(j as int)),
                draw == cycle_draws(actions@.take(j as int)),
                fetch == cycle_fetches(actions@.take(j as int)),
            decreases n - j,
        {
            let ghost m_before = self.model();
            let a = &actions[j];
            let eff = self.handle_action(a);
            let ghost mid = self.model();
            let ncomp = self.components.len();
            let mut k: usize = 0;
            while k < ncomp
                invariant
                    ncomp == self.components@.len(),
                    ncomp == mid.components.len(),
                    k <= ncomp,
                    self.store.wf(),
                    self.model().store == mid.store,
                    self.should_quit == mid.should_quit,
                    self.should_suspend == mid.should_suspend,
                    self.locale == mid.locale,
                    self.geo == old(self).geo,
                    self.tick_rate_ms == old(self).tick_rate_ms,
                    self.frame_rate_ms == old(self).frame_rate_ms,
                    forall|idx: int| 0 <= idx < k ==> self.components@[idx] == component_step(
                        mid.components[idx],
                        *a,
                    ),
                    forall|idx: int| k <= idx < ncomp ==> self.components@[idx]
                        == mid.components[idx],
                decreases ncomp - k,
            {
                let mut c = self.components[k];
                let _ = c.update(a);
                self.components.set(k, c);
                k += 1;
            }
            proof {
                assert(self.model().components =~= Seq::new(
                    mid.components.len(),
                    |i: int| component_step(mid.components[i], *a),
                ));
                assert(mid.components == m_before.components);
                assert(self.model() =~= controller_step(m_before, *a));
                assert(actions@.take(j as int + 1).drop_last() =~= actions@.take(j as int));
                assert(actions@.take(j as int + 1).last() == actions@[j as int]);
            }
            match eff {
                Effect::Nothing => {},
                Effect::Emit(x) => {
                    proof {
                        assert(emitted_action(*a) == Some(x));
                    }
                    derived.push(x);
                },
                Effect::Draw => {
                    draw = true;
                },
                Effect::StartFetch => {
                    fetch = true;
                },
            }
            proof {
                assert(derived@ =~= cycle_derived(actions@.take(j as int + 1)));
            }
            j += 1;
        }
        proof {
            assert(actions@.take(n as int) =~= actions@);
        }
        CycleOutcome { derived, draw, fetch }
    }
}

} // verus!
