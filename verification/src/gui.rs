//! The GUI window lifecycle controller: a state machine binding a
//! host-supplied native window handle to an open rendering surface, with
//! idempotent open and close under out-of-order host calls.
//!
//! Three states: `NoParent` (no handle recorded), `Closed` (handle
//! recorded, no surface) and `Open` (handle recorded, surface live). The
//! controller decides; the window glue that owns the real surface
//! creates or releases it exactly when a transition here says so.
use vstd::prelude::*;

verus! {

/// The kind of native window handle the host supplied, as far as the
/// lifecycle logic reads it: which windowing protocol it belongs to and
/// whether an embedded child surface can be created under it.
#[derive(Clone, Copy, PartialEq, Eq, Structural, Debug)]
pub enum ParentHandleKind {
    /// An X11 window handle from the Xlib API; embedding works.
    Xlib,
    /// An X11 window handle from the XCB API; embedding works.
    Xcb,
    /// A Wayland compositor handle: the embedding API is known
    /// unsupported, so opening must fail explicitly rather than report a
    /// surface that does not exist.
    Wayland,
    /// Any other handle type this build cannot embed into.
    Other,
}

/// Failures reported to the host by the lifecycle calls; never thrown
/// across a thread boundary, and never fatal to audio rendering.
#[derive(Clone, Copy, PartialEq, Eq, Structural, Debug)]
pub enum GuiError {
    /// An open was asked for before any parent handle was recorded: a
    /// protocol-sequence error on the host's side.
    ConfigurationError,
    /// The recorded parent handle's display protocol cannot host an
    /// embedded surface.
    UnsupportedHandleError,
    /// An opaque failure surfaced by the windowing layer. The controller
    /// itself never produces it; the window glue maps its own failures to
    /// this variant when reporting to the host.
    PlatformFailure,
}

/// A windowing API the host may offer for the editor, as far as the
/// support rule reads it: only whether it is the platform's preferred
/// one.
#[derive(Clone, Copy, PartialEq, Eq, Structural, Debug)]
pub enum WindowApi {
    X11,
    Wayland,
    Win32,
    Cocoa,
    OtherApi,
}

/// The support rule for a host-proposed editor configuration: exactly the
/// platform's preferred API is accepted, and a floating (host-unmanaged)
/// window never is.
pub fn api_supported(preferred: WindowApi, requested: WindowApi, is_floating: bool) -> (r: bool)
    ensures
        r == (requested == preferred && !is_floating),
{
    requested == preferred && !is_floating
}

/// Whether an embedded child surface can be created under a handle of
/// this kind.
pub open spec fn embeddable(k: ParentHandleKind) -> bool {
    k == ParentHandleKind::Xlib || k == ParentHandleKind::Xcb
}

/// The window binding: the recorded parent handle, if any, and whether a
/// rendering surface is currently live. `NoParent` is `parent == None`;
/// `Closed` is a recorded parent with no surface; `Open` has the surface
/// live.
#[derive(Clone, Copy, PartialEq, Eq, Structural, Debug)]
pub struct CaveGui {
    /// Kind of the parent handle the host last supplied, absent until the
    /// first set-parent call.
    pub parent: Option<ParentHandleKind>,
    /// Whether the rendering surface is live.
    pub surface_open: bool,
}

impl CaveGui {
    /// Invariant: a surface may be open only if a parent handle has been
    /// recorded.
    pub open spec fn wf(self) -> bool {
        self.surface_open ==> self.parent is Some
    }

    /// The state after a close: the surface is gone, whatever held
    /// before; the recorded parent stays.
    pub open spec fn spec_close(self) -> CaveGui {
        CaveGui { surface_open: false, ..self }
    }

    /// The state and result of an open: a no-op while already `Open`; a
    /// `ConfigurationError` with the state unchanged while `NoParent`; an
    /// `UnsupportedHandleError` with the state unchanged when the
    /// recorded handle cannot host an embedded surface; otherwise the
    /// surface comes live and the result tells the window glue to create
    /// it now.
    pub open spec fn spec_open(self) -> (CaveGui, Result<bool, GuiError>) {
        if self.surface_open {
            (self, Ok(false))
        } else {
            match self.parent {
                None => (self, Err(GuiError::ConfigurationError)),
                Some(k) => {
                    if embeddable(k) {
                        ((CaveGui { surface_open: true, ..self }), Ok(true))
                    } else {
                        (self, Err(GuiError::UnsupportedHandleError))
                    }
                },
            }
        }
    }

    /// The state and result of a set-parent: the handle is recorded,
    /// overwriting any previous one; while already `Open` nothing else
    /// happens, otherwise the controller advances toward `Open` as an
    /// open would.
    pub open spec fn spec_set_parent(self, k: ParentHandleKind) -> (CaveGui, Result<
        bool,
        GuiError,
    >) {
        (CaveGui { parent: Some(k), ..self }).spec_open()
    }

    /// A fresh controller in the `NoParent` state.
    pub fn new() -> (r: CaveGui)
        ensures
            r == (CaveGui { parent: None, surface_open: false }),
    {
        CaveGui { parent: None, surface_open: false }
    }

    /// Whether the rendering surface is live.
    pub fn is_open(&self) -> (r: bool)
        ensures
            r == self.surface_open,
    {
        self.surface_open
    }

    /// Open the editor surface. Requires a recorded, embeddable parent
    /// handle; a no-op while already open, so a second surface is never
    /// created. `Ok(true)` tells the window glue to create the surface
    /// now; on an error the state is exactly what it was.
    pub fn open(&mut self) -> (r: Result<bool, GuiError>)
        requires
            old(self).wf(),
        ensures
            final(self).wf(),
            (*final(self), r) == old(self).spec_open(),
    {
        if self.surface_open {
            return Ok(false);
        }
        match self.parent {
            None => Err(GuiError::ConfigurationError),
            Some(k) => {
                match k {
                    ParentHandleKind::Xlib | ParentHandleKind::Xcb => {
                        self.surface_open = true;
                        Ok(true)
                    },
                    _ => Err(GuiError::UnsupportedHandleError),
                }
            },
        }
    }

    /// Close the editor surface: unconditionally leaves `Closed` (or
    /// `NoParent` if no handle was ever recorded). Never fails, from any
    /// state, with or without a prior open; the window glue releases the
    /// real surface whenever it still holds one.
    pub fn close(&mut self)
        ensures
            *final(self) == old(self).spec_close(),
    {
        self.surface_open = false;
    }

    /// Record the parent handle the host supplied, overwriting any
    /// previous one; if the editor is not already open, advance toward
    /// `Open` as `open` does. While `Open` this is a no-op beyond the
    /// recording: repeated host calls never create a second surface.
    pub fn set_parent(&mut self, k: ParentHandleKind) -> (r: Result<bool, GuiError>)
        requires
            old(self).wf(),
        ensures
            final(self).wf(),
            final(self).parent == Some(k),
            (*final(self), r) == old(self).spec_set_parent(k),
    {
        self.parent = Some(k);
        self.open()
    }

    /// Show the editor: behaves as `open` when no surface is live, and is
    /// a no-op while already `Open`.
    pub fn show(&mut self) -> (r: Result<bool, GuiError>)
        requires
            old(self).wf(),
        ensures
            final(self).wf(),
            (*final(self), r) == old(self).spec_open(),
    {
        self.open()
    }

    /// Tear the controller down: a close. The owning instance releases
    /// the parent-handle association itself when it drops the controller;
    /// the surface is cleared here first, so no frame callback can
    /// outlive it.
    pub fn destroy(&mut self)
        ensures
            *final(self) == old(self).spec_close(),
    {
        self.close();
    }
}

impl Default for CaveGui {
    /// A fresh controller in the `NoParent` state.
    fn default() -> (r: CaveGui)
        ensures
            r == (CaveGui { parent: None, surface_open: false }),
    {
        CaveGui::new()
    }
}

/// Law: closing is idempotent and total. From any state, with or without
/// a prior open, a close never fails, releases the surface, and keeps the
/// recorded parent, so it lands in `Closed` (or stays `NoParent`); a
/// second close changes nothing.
pub proof fn lemma_close_idempotent(g: CaveGui)
    ensures
        !g.spec_close().surface_open,
        g.spec_close().parent == g.parent,
        g.spec_close().spec_close() == g.spec_close(),
{
}

/// Law: opening while already `Open` is a no-op: the state is unchanged
/// and the result directs the window glue to create no second surface.
pub proof fn lemma_open_idempotent(g: CaveGui)
    requires
        g.surface_open,
    ensures
        g.spec_open() == (g, Ok::<bool, GuiError>(false)),
{
}

/// Law: an open before any set-parent call fails with
/// `ConfigurationError` and leaves the state exactly as it was, still
/// `NoParent`.
pub proof fn lemma_open_without_parent(g: CaveGui)
    requires
        g.parent is None,
        !g.surface_open,
    ensures
        g.spec_open() == (g, Err::<bool, GuiError>(GuiError::ConfigurationError)),
{
}

} // verus!
