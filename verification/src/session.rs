//! The terminal session: the state of the one widget instance for the
//! lifetime of the process.
//!
//! Construction returns an owned handle together with a plan of the
//! host-side wiring to perform, instead of mutating hidden global slots;
//! "already initialized" is then impossible by construction. The widget
//! itself lives on the host side: queries take the values it reports as
//! plain numbers and compute the library's answer from them.

use vstd::prelude::*;
use crate::bridge::EventBridge;
use crate::TermError;

verus! {

/// Configuration supplied once, at initialization.
pub struct TerminalConfig {
    /// Whether to enable the auto-fit capability.
    pub use_fit: bool,
    /// Whether to enable the GPU-accelerated rendering capability.
    pub use_webgl: bool,
}

impl Default for TerminalConfig {
    /// Both optional capabilities default to enabled.
    fn default() -> (c: Self)
        ensures
            c.use_fit,
            c.use_webgl,
    {
        TerminalConfig { use_fit: true, use_webgl: true }
    }
}

/// The host-side wiring that initialization asks for: which optional
/// capabilities to attach to the widget, whether to perform one immediate
/// fit, and whether to register a window resize listener that re-fits.
/// Attaching the GPU capability is best-effort: a failure to attach is
/// absorbed, never surfaced.
pub struct InitPlan {
    /// Attach the auto-fit capability to the widget.
    pub attach_fit: bool,
    /// Attach the GPU-rendering capability to the widget (best-effort).
    pub attach_webgl: bool,
    /// Perform one immediate fit right after the widget is attached.
    pub initial_fit: bool,
    /// Register a window resize listener that triggers a re-fit on every
    /// subsequent resize event.
    pub register_resize_listener: bool,
}

/// Geometry as the widget reports it: its row and column counts, and the
/// pixel dimensions of the element that hosts it.
pub struct WidgetDims {
    /// Rows of the widget's character grid.
    pub rows: u32,
    /// Columns of the widget's character grid.
    pub cols: u32,
    /// Pixel width of the hosting element.
    pub pixel_width: u32,
    /// Pixel height of the hosting element.
    pub pixel_height: u32,
}

/// A size record: the widget's row and column counts and the hosting
/// element's pixel dimensions, each reduced to the terminal convention of
/// sixteen-bit fields.
pub struct SizeRecord {
    /// Rows of the character grid.
    pub rows: u16,
    /// Columns of the character grid.
    pub columns: u16,
    /// Pixel width of the hosting element.
    pub width: u16,
    /// Pixel height of the hosting element.
    pub height: u16,
}

/// The one live terminal session: which optional capability was enabled at
/// initialization, and the fragments handed to the widget for display so
/// far, oldest first.
pub struct Session {
    fit_enabled: bool,
    displayed: Vec<String>,
}

impl Session {
    /// Whether the auto-fit capability was enabled at initialization.
    pub closed spec fn fit_enabled(&self) -> bool {
        self.fit_enabled
    }

    /// Every fragment handed to the widget for display, oldest first.
    pub closed spec fn displayed_log(&self) -> Seq<Seq<char>> {
        self.displayed.deep_view()
    }

    /// Hand one decoded text fragment to the widget for display. The
    /// session records it; the host side forwards the same fragment to the
    /// widget's write entry.
    pub fn display(&mut self, text: &str)
        ensures
            final(self).fit_enabled() == old(self).fit_enabled(),
            final(self).displayed_log() == old(self).displayed_log().push(text@),
    {
        self.displayed.push(text.to_owned());
        proof {
            assert(self.displayed_log() =~= old(self).displayed_log().push(text@));
        }
    }

    /// How many fragments have been displayed so far.
    pub fn displayed_count(&self) -> (n: usize)
        ensures
            n == self.displayed_log().len(),
    {
        self.displayed.len()
    }

    /// The fragment displayed `i`-th, oldest first.
    pub fn displayed_at(&self, i: usize) -> (s: &String)
        requires
            i < self.displayed_log().len(),
        ensures
            s@ == self.displayed_log()[i as int],
    {
        &self.displayed[i]
    }
}

/// Initialize the terminal layer: the one session handle, the event queue
/// its input callbacks feed, and the plan of host-side wiring to perform.
/// Each optional capability is attached exactly when its configuration flag
/// asks for it, and the immediate fit and the resize listener come with the
/// auto-fit capability and with it alone.
pub fn init_terminal(config: &TerminalConfig) -> (r: (Session, EventBridge, InitPlan))
    ensures
        r.0.fit_enabled() == config.use_fit,
        r.0.displayed_log() == Seq::<Seq<char>>::empty(),
        r.1.inv(),
        r.1.fragments() == Seq::<Seq<char>>::empty(),
        !r.1.is_closed(),
        r.2.attach_fit == config.use_fit,
        r.2.attach_webgl == config.use_webgl,
        r.2.initial_fit == config.use_fit,
        r.2.register_resize_listener == config.use_fit,
{
    let session = Session { fit_enabled: config.use_fit, displayed: Vec::new() };
    let bridge = EventBridge::new();
    let plan = InitPlan {
        attach_fit: config.use_fit,
        attach_webgl: config.use_webgl,
        initial_fit: config.use_fit,
        register_resize_listener: config.use_fit,
    };
    proof {
        assert(session.displayed_log() =~= Seq::<Seq<char>>::empty());
    }
    (session, bridge, plan)
}

/// The size record for the geometry the widget reports right now: each
/// field is the reported value reduced modulo two to the sixteenth, as the
/// sixteen-bit terminal convention demands.
pub fn window_size(dims: &WidgetDims) -> (s: SizeRecord)
    ensures
        s.rows == dims.rows % 0x10000,
        s.columns == dims.cols % 0x10000,
        s.width == dims.pixel_width % 0x10000,
        s.height == dims.pixel_height % 0x10000,
{
    SizeRecord {
        rows: (dims.rows % 0x10000) as u16,
        columns: (dims.cols % 0x10000) as u16,
        width: (dims.pixel_width % 0x10000) as u16,
        height: (dims.pixel_height % 0x10000) as u16,
    }
}

/// The (columns, rows) pair of the geometry the widget reports right now.
pub fn size(dims: &WidgetDims) -> (r: (u16, u16))
    ensures
        r.0 == dims.cols % 0x10000,
        r.1 == dims.rows % 0x10000,
{
    let s = window_size(dims);
    (s.columns, s.rows)
}

/// The zero-based (column, row) position of the active buffer's cursor,
/// from the coordinates the widget reports.
pub fn cursor_position(cursor_x: u32, cursor_y: u32) -> (r: (u16, u16))
    ensures
        r.0 == cursor_x % 0x10000,
        r.1 == cursor_y % 0x10000,
{
    ((cursor_x % 0x10000) as u16, (cursor_y % 0x10000) as u16)
}

/// Request an immediate re-fit of the widget to its hosting element.
/// Succeeds exactly when the auto-fit capability was enabled at
/// initialization — on success the host side triggers the actual re-fit —
/// and reports the unsupported-operation error otherwise, distinguishing
/// "fit was never requested" from "fit failed".
pub fn perform_fit(session: &Session) -> (r: Result<(), TermError>)
    ensures
        r is Ok <==> session.fit_enabled(),
        !session.fit_enabled() ==> r == Err::<(), TermError>(TermError::Unsupported),
{
    if session.fit_enabled {
        Ok(())
    } else {
        Err(TermError::Unsupported)
    }
}

/// The decision taken inside the window resize listener: a resize event
/// triggers a re-fit exactly when the auto-fit capability is enabled.
pub fn fit_on_resize(session: &Session) -> (b: bool)
    ensures
        b == session.fit_enabled(),
{
    session.fit_enabled
}

} // verus!
