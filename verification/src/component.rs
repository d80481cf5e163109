//! The closed set of render/update units that share the domain state: the
//! map view, the selectable region list, and the diagnostic view. The
//! controller holds them as an ordered sequence and drives each uniformly;
//! none depends on another's internal state, and none writes the shared
//! store.

use vstd::prelude::*;

verus! {

use crate::action::{Action, Event};

/// Terminal-cell dimensions of a viewport.
#[derive(Clone, Copy, PartialEq, Eq, Structural, Debug)]
pub struct Size {
    pub width: u16,
    pub height: u16,
}

/// The map view: paints the boundary polygon and per-region status markers;
/// here it tracks only the viewport it was last given.
#[derive(Clone, Copy, PartialEq, Eq, Structural, Debug)]
pub struct MapView {
    pub size: Size,
}

/// The region list view: renders the 27 derived list lines; its selection
/// state lives in the shared store, so it carries none of its own.
#[derive(Clone, Copy, PartialEq, Eq, Structural, Debug)]
pub struct ListView {
    pub size: Size,
}

/// The diagnostic view: counts ticks and render passes for the frame-rate
/// readout; independent of the domain state.
#[derive(Clone, Copy, PartialEq, Eq, Structural, Debug)]
pub struct DiagnosticView {
    pub app_ticks: u64,
    pub render_ticks: u64,
}

/// One render/update unit of the dashboard.
#[derive(Clone, Copy, PartialEq, Eq, Structural, Debug)]
pub enum Component {
    MapView(MapView),
    ListView(ListView),
    DiagnosticView(DiagnosticView),
}

/// The state a component moves to on one action: the views follow resizes,
/// and the diagnostic view counts ticks and render passes, saturating
/// rather than wrapping.
pub open spec fn component_step(c: Component, a: Action) -> Component {
    match a {
        Action::Resize(w, h) => match c {
            Component::MapView(_) => Component::MapView(MapView { size: Size { width: w, height: h } }),
            Component::ListView(_) => Component::ListView(ListView { size: Size { width: w, height: h } }),
            Component::DiagnosticView(d) => Component::DiagnosticView(d),
        },
        Action::Tick => match c {
            Component::DiagnosticView(d) => Component::DiagnosticView(
                DiagnosticView {
                    app_ticks: if d.app_ticks < u64::MAX {
                        (d.app_ticks + 1) as u64
                    } else {
                        u64::MAX
                    },
                    render_ticks: d.render_ticks,
                },
            ),
            _ => c,
        },
        Action::Render => match c {
            Component::DiagnosticView(d) => Component::DiagnosticView(
                DiagnosticView {
                    app_ticks: d.app_ticks,
                    render_ticks: if d.render_ticks < u64::MAX {
                        (d.render_ticks + 1) as u64
                    } else {
                        u64::MAX
                    },
                },
            ),
            _ => c,
        },
        _ => c,
    }
}

impl Component {
    /// A map view before its first resize.
    pub fn new_map() -> (c: Self)
        ensures
            c == Component::MapView(MapView { size: Size { width: 0, height: 0 } }),
    {
        Component::MapView(MapView { size: Size { width: 0, height: 0 } })
    }

    /// A list view before its first resize.
    pub fn new_list() -> (c: Self)
        ensures
            c == Component::ListView(ListView { size: Size { width: 0, height: 0 } }),
    {
        Component::ListView(ListView { size: Size { width: 0, height: 0 } })
    }

    /// A diagnostic view with all counters at zero.
    pub fn new_diagnostic() -> (c: Self)
        ensures
            c == Component::DiagnosticView(DiagnosticView { app_ticks: 0, render_ticks: 0 }),
    {
        Component::DiagnosticView(DiagnosticView { app_ticks: 0, render_ticks: 0 })
    }

    /// One-time setup: take the initial terminal dimensions.
    pub fn init(&mut self, width: u16, height: u16)
        ensures
            *final(self) == component_step(*old(self), Action::Resize(width, height)),
    {
        match self {
            Component::MapView(m) => {
                m.size = Size { width, height };
            },
            Component::ListView(l) => {
                l.size = Size { width, height };
            },
            Component::DiagnosticView(_) => {},
        }
    }

    /// Pure translation of a raw input event into a derived action. No
    /// variant derives actions of its own: all input translation happens
    /// in the shared event-to-action mapping, so this yields nothing.
    pub fn handle_input(&self, e: &Event) -> (r: Option<Action>)
        ensures
            r is None,
    {
        let _ = e;
        None
    }

    /// React to one action the controller approved: follow resizes and
    /// count ticks and render passes. Components never mutate the shared
    /// store, and none derives a follow-up action from an update.
    pub fn update(&mut self, a: &Action) -> (r: Option<Action>)
        ensures
            *final(self) == component_step(*old(self), *a),
            r is None,
    {
        match a {
            Action::Resize(w, h) => {
                match self {
                    Component::MapView(m) => {
                        m.size = Size { width: *w, height: *h };
                    },
                    Component::ListView(l) => {
                        l.size = Size { width: *w, height: *h };
                    },
                    Component::DiagnosticView(_) => {},
                }
            },
            Action::Tick => {
                match self {
                    Component::DiagnosticView(d) => {
                        if d.app_ticks < u64::MAX {
                            d.app_ticks = d.app_ticks + 1;
                        }
                    },
                    _ => {},
                }
            },
            Action::Render => {
                match self {
                    Component::DiagnosticView(d) => {
                        if d.render_ticks < u64::MAX {
                            d.render_ticks = d.render_ticks + 1;
                        }
                    },
                    _ => {},
                }
            },
            _ => {},
        }
        None
    }
}

} // verus!
