//! Errors of the idle inhibitor and the check that the compositor offers
//! what it needs.

use vstd::prelude::*;
use crate::text::concat2;

verus! {

/// A Wayland global that idle inhibition needs.
#[derive(Debug, Clone, Copy, PartialEq, Eq, Structural)]
pub enum MissingGlobal {
    /// The `wl_compositor` interface.
    Compositor,
    /// The surface derived from `wl_compositor`.
    Surface,
    /// The `zwp_idle_inhibit_manager_v1` interface.
    IdleInhibitManager,
}

/// The interface name of a global.
pub open spec fn global_name(g: MissingGlobal) -> Seq<char> {
    match g {
        MissingGlobal::Compositor => "wl_compositor"@,
        MissingGlobal::Surface => "wl_surface"@,
        MissingGlobal::IdleInhibitManager => "zwp_idle_inhibit_manager_v1"@,
    }
}

impl MissingGlobal {
    /// The interface name of the global.
    pub fn to_string(&self) -> (s: String)
        ensures
            s@ == global_name(*self),
    {
        match self {
            MissingGlobal::Compositor => "wl_compositor".to_owned(),
            MissingGlobal::Surface => "wl_surface".to_owned(),
            MissingGlobal::IdleInhibitManager => "zwp_idle_inhibit_manager_v1".to_owned(),
        }
    }
}

/// Error of the idle inhibitor.
#[derive(Debug, Clone, PartialEq, Eq)]
pub enum IdleInhibitorError {
    /// Connecting to the Wayland compositor failed.
    Connection { context: String },
    /// A required global was not advertised by the compositor.
    MissingGlobal { global: MissingGlobal },
    /// Dispatching Wayland events failed during a roundtrip.
    Dispatch { context: String },
}

/// The description of an idle inhibitor error.
pub open spec fn idle_error_text(e: IdleInhibitorError) -> Seq<char> {
    match e {
        IdleInhibitorError::Connection { context } => "failed to connect to wayland compositor: "@
            + context@,
        IdleInhibitorError::MissingGlobal { global } => "missing wayland global: "@ + global_name(
            global,
        ),
        IdleInhibitorError::Dispatch { context } => "failed to dispatch wayland events: "@
            + context@,
    }
}

impl IdleInhibitorError {
    /// A connection error.
    pub fn connection(context: String) -> (e: Self)
        ensures
            e == (IdleInhibitorError::Connection { context }),
    {
        IdleInhibitorError::Connection { context }
    }

    /// A dispatch error.
    pub fn dispatch(context: String) -> (e: Self)
        ensures
            e == (IdleInhibitorError::Dispatch { context }),
    {
        IdleInhibitorError::Dispatch { context }
    }

    /// The compositor does not offer `wl_compositor`.
    pub fn missing_compositor() -> (e: Self)
        ensures
            e == (IdleInhibitorError::MissingGlobal { global: MissingGlobal::Compositor }),
    {
        IdleInhibitorError::MissingGlobal { global: MissingGlobal::Compositor }
    }

    /// The compositor does not offer the idle inhibit manager.
    pub fn missing_idle_inhibit_manager() -> (e: Self)
        ensures
            e == (IdleInhibitorError::MissingGlobal { global: MissingGlobal::IdleInhibitManager }),
    {
        IdleInhibitorError::MissingGlobal { global: MissingGlobal::IdleInhibitManager }
    }

    /// No surface could be created.
    pub fn missing_surface() -> (e: Self)
        ensures
            e == (IdleInhibitorError::MissingGlobal { global: MissingGlobal::Surface }),
    {
        IdleInhibitorError::MissingGlobal { global: MissingGlobal::Surface }
    }

    /// The human readable description of the error.
    pub fn to_string(&self) -> (s: String)
        ensures
            s@ == idle_error_text(*self),
    {
        match self {
            IdleInhibitorError::Connection { context } => concat2(
                "failed to connect to wayland compositor: ",
                context.as_str(),
            ),
            IdleInhibitorError::MissingGlobal { global } => {
                let name = global.to_string();
                concat2("missing wayland global: ", name.as_str())
            },
            IdleInhibitorError::Dispatch { context } => concat2(
                "failed to dispatch wayland events: ",
                context.as_str(),
            ),
        }
    }
}

/// Which globals the compositor announced.
#[derive(Debug, Clone, Copy, PartialEq, Eq, Structural)]
pub struct IdleInhibitorInitState {
    pub has_compositor: bool,
    pub has_surface: bool,
    pub has_idle_manager: bool,
}

/// Checks that every needed global is present, reporting the first missing
/// one: the compositor, then the surface, then the idle inhibit manager.
pub fn validate_init_state(state: IdleInhibitorInitState) -> (r: Result<(), IdleInhibitorError>)
    ensures
        r == if !state.has_compositor {
            Err(IdleInhibitorError::MissingGlobal { global: MissingGlobal::Compositor })
        } else if !state.has_surface {
            Err(IdleInhibitorError::MissingGlobal { global: MissingGlobal::Surface })
        } else if !state.has_idle_manager {
            Err(IdleInhibitorError::MissingGlobal { global: MissingGlobal::IdleInhibitManager })
        } else {
            Ok(())
        },
{
    if !state.has_compositor {
        return Err(IdleInhibitorError::missing_compositor());
    }
    if !state.has_surface {
        return Err(IdleInhibitorError::missing_surface());
    }
    if !state.has_idle_manager {
        return Err(IdleInhibitorError::missing_idle_inhibit_manager());
    }
    Ok(())
}

/// What toggling the idle inhibitor asks for: disable it when it is on,
/// enable it otherwise.
pub fn toggle_target(is_inhibited: bool) -> (inhibit: bool)
    ensures
        inhibit == !is_inhibited,
{
    if is_inhibited {
        false
    } else {
        true
    }
}

/// The kind of a global the compositor announces.
#[derive(Debug, Clone, Copy, PartialEq, Eq, Structural)]
pub enum GlobalKind {
    Compositor,
    IdleInhibitManager,
    Other,
}

/// What to do with an announced global.
#[derive(Debug, Clone, Copy, PartialEq, Eq, Structural)]
pub enum RegistryAction {
    /// Bind the compositor and create a surface on it.
    BindCompositor,
    /// Bind the idle inhibit manager.
    BindIdleManager,
    /// Nothing to do.
    Ignore,
}

/// The globals bound so far, by their registry names, and whether an
/// inhibitor exists.
#[derive(Debug, Clone, Copy, PartialEq, Eq, Structural)]
pub struct RegistryGlobals {
    pub compositor: Option<u32>,
    pub has_surface: bool,
    pub idle_manager: Option<u32>,
    pub inhibited: bool,
}

/// What setting the inhibitor asks of the compositor.
#[derive(Debug, Clone, Copy, PartialEq, Eq, Structural)]
pub enum InhibitAction {
    /// Create an inhibitor on the surface.
    Create,
    /// Destroy the inhibitor.
    Destroy,
    /// Nothing to do.
    Keep,
}

/// Setting the inhibitor on or off: the globals afterwards and the answer.
/// It fails without an idle inhibit manager and, to turn it on, without a
/// surface; it creates or destroys an inhibitor only when the state
/// changes, and otherwise keeps everything as it is.
pub open spec fn inhibit_outcome(g: RegistryGlobals, inhibit: bool) -> (RegistryGlobals, Result<
    InhibitAction,
    IdleInhibitorError,
>) {
    if g.idle_manager is None {
        (g, Err(IdleInhibitorError::MissingGlobal { global: MissingGlobal::IdleInhibitManager }))
    } else if inhibit == g.inhibited {
        (g, Ok(InhibitAction::Keep))
    } else if inhibit {
        if g.has_surface {
            (RegistryGlobals { inhibited: true, ..g }, Ok(InhibitAction::Create))
        } else {
            (g, Err(IdleInhibitorError::MissingGlobal { global: MissingGlobal::Surface }))
        }
    } else {
        (RegistryGlobals { inhibited: false, ..g }, Ok(InhibitAction::Destroy))
    }
}

/// Toggling the inhibitor twice, with a manager and a surface present,
/// succeeds both times and leaves the globals as they were.
pub proof fn lemma_toggle_twice_restores(g: RegistryGlobals)
    requires
        g.idle_manager is Some,
        g.has_surface,
    ensures
        ({
            let (g1, r1) = inhibit_outcome(g, !g.inhibited);
            let (g2, r2) = inhibit_outcome(g1, !g1.inhibited);
            &&& r1 is Ok
            &&& r2 is Ok
            &&& g2 == g
        }),
{
}

impl RegistryGlobals {
    /// Nothing bound yet.
    pub fn new() -> (g: Self)
        ensures
            g == (RegistryGlobals {
                compositor: None,
                has_surface: false,
                idle_manager: None,
                inhibited: false,
            }),
    {
        RegistryGlobals { compositor: None, has_surface: false, idle_manager: None, inhibited: false }
    }

    /// Which globals are present, for [`validate_init_state`].
    pub fn init_state(&self) -> (s: IdleInhibitorInitState)
        ensures
            s == (IdleInhibitorInitState {
                has_compositor: self.compositor is Some,
                has_surface: self.has_surface,
                has_idle_manager: self.idle_manager is Some,
            }),
    {
        IdleInhibitorInitState {
            has_compositor: self.compositor.is_some(),
            has_surface: self.has_surface,
            has_idle_manager: self.idle_manager.is_some(),
        }
    }

    /// A global was announced: the first compositor and the first idle
    /// inhibit manager are bound (the compositor with a surface); anything
    /// else is ignored.
    pub fn on_global(&mut self, kind: GlobalKind, name: u32) -> (a: RegistryAction)
        ensures
            kind == GlobalKind::Compositor && old(self).compositor is None ==> a
                == RegistryAction::BindCompositor && *final(self) == (RegistryGlobals {
                compositor: Some(name),
                has_surface: true,
                ..*old(self)
            }),
            kind == GlobalKind::IdleInhibitManager && old(self).idle_manager is None ==> a
                == RegistryAction::BindIdleManager && *final(self) == (RegistryGlobals {
                idle_manager: Some(name),
                ..*old(self)
            }),
            !(kind == GlobalKind::Compositor && old(self).compositor is None) && !(kind
                == GlobalKind::IdleInhibitManager && old(self).idle_manager is None) ==> a
                == RegistryAction::Ignore && *final(self) == *old(self),
    {
        match kind {
            GlobalKind::Compositor => {
                if self.compositor.is_none() {
                    self.compositor = Some(name);
                    self.has_surface = true;
                    return RegistryAction::BindCompositor;
                }
                RegistryAction::Ignore
            },
            GlobalKind::IdleInhibitManager => {
                if self.idle_manager.is_none() {
                    self.idle_manager = Some(name);
                    return RegistryAction::BindIdleManager;
                }
                RegistryAction::Ignore
            },
            GlobalKind::Other => RegistryAction::Ignore,
        }
    }

    /// A global was withdrawn. While a compositor is bound, only the
    /// compositor's own removal is heeded (dropping it and its surface);
    /// without one, the idle inhibit manager's removal drops the manager.
    pub fn on_global_remove(&mut self, name: u32)
        ensures
            old(self).compositor matches Some(c) ==> *final(self) == if c == name {
                RegistryGlobals { compositor: None, has_surface: false, ..*old(self) }
            } else {
                *old(self)
            },
            old(self).compositor is None ==> *final(self) == if old(self).idle_manager == Some(
                name,
            ) {
                RegistryGlobals { idle_manager: None, ..*old(self) }
            } else {
                *old(self)
            },
    {
        match self.compositor {
            Some(c) => {
                if c == name {
                    self.compositor = None;
                    self.has_surface = false;
                }
            },
            None => {
                match self.idle_manager {
                    Some(m) => {
                        if m == name {
                            self.idle_manager = None;
                        }
                    },
                    None => {},
                }
            },
        }
    }

    /// Sets the inhibitor on or off (see [`inhibit_outcome`]).
    pub fn set_inhibit(&mut self, inhibit: bool) -> (r: Result<InhibitAction, IdleInhibitorError>)
        ensures
            (*final(self), r) == inhibit_outcome(*old(self), inhibit),
    {
        if self.idle_manager.is_none() {
            return Err(IdleInhibitorError::missing_idle_inhibit_manager());
        }
        if inhibit {
            if !self.inhibited {
                if !self.has_surface {
                    return Err(IdleInhibitorError::missing_surface());
                }
                self.inhibited = true;
                return Ok(InhibitAction::Create);
            }
            Ok(InhibitAction::Keep)
        } else {
            if self.inhibited {
                self.inhibited = false;
                return Ok(InhibitAction::Destroy);
            }
            Ok(InhibitAction::Keep)
        }
    }
}

} // verus!
