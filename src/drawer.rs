//! The circle drawer's application state around the canvas: the radius
//! slider, the commands of the context menu, and the count of open windows
//! that decides whether the resize popup may open and whether the canvas
//! takes input.
use vstd::prelude::*;
use crate::action_log::{ActionLog, ActionLogView, DEFAULT_MAX_ACTIONS};
use crate::circles::{CanvasData, CanvasEvent, CanvasView, MAX_RADIUS, MIN_RADIUS};

verus! {

/// Slider position when the drawer starts: the middle of the radius range.
pub const INITIAL_RADIUS: u32 = (MAX_RADIUS + MIN_RADIUS) / 2;

/// A command that reaches the drawer's delegate.
#[derive(Clone, Copy, PartialEq, Eq, Debug)]
pub enum AppCommand {
    /// "Deselect" from the context menu.
    Deselect,
    /// "Resize" from the context menu.
    Resize,
    Undo,
    Redo,
    /// Any command the drawer does not handle.
    Other,
}

/// What the delegate decided about a command.
#[derive(Clone, Copy, PartialEq, Eq, Debug)]
pub struct CommandOutcome {
    /// The command was not handled and goes on to the rest of the application.
    pub propagate: bool,
    /// The resize popup is to be opened.
    pub open_resize_popup: bool,
}

/// What the drawer holds, as mathematical values.
pub ghost struct AppView {
    pub canvas: CanvasView,
    pub radius: u32,
    pub undo_valid: bool,
    pub redo_valid: bool,
    pub window_count: u32,
    pub action_log: ActionLogView,
}

impl AppView {
    /// The canvas is well formed and takes input exactly while at most one
    /// window is open.
    pub open spec fn wf(self) -> bool {
        &&& self.canvas.wf()
        &&& self.canvas.enabled == (self.window_count <= 1)
    }

    /// The decision about `cmd`.
    pub open spec fn outcome(self, cmd: AppCommand) -> CommandOutcome {
        let open = cmd == AppCommand::Resize && self.canvas.selected is Some && self.window_count
            == 1;
        CommandOutcome {
            propagate: cmd == AppCommand::Other || (cmd == AppCommand::Resize && !open),
            open_resize_popup: open,
        }
    }

    /// The state after `cmd`: only "Deselect" changes anything.
    pub open spec fn after_command(self, cmd: AppCommand) -> AppView {
        if cmd == AppCommand::Deselect {
            AppView { canvas: CanvasView { selected: None, ..self.canvas }, ..self }
        } else {
            self
        }
    }

    /// The state after a window opened: the canvas stops taking input once
    /// more than one window is open.
    pub open spec fn with_window_added(self) -> AppView {
        let n = (self.window_count + 1) as u32;
        AppView {
            window_count: n,
            canvas: if n > 1 {
                CanvasView { enabled: false, ..self.canvas }
            } else {
                self.canvas
            },
            ..self
        }
    }

    /// The state after a window closed: the canvas takes input again once
    /// only one window is left.
    pub open spec fn with_window_removed(self) -> AppView {
        let n = (self.window_count - 1) as u32;
        AppView {
            window_count: n,
            canvas: if n == 1 {
                CanvasView { enabled: true, ..self.canvas }
            } else {
                self.canvas
            },
            ..self
        }
    }

    /// The state after the slider moved to `r`: the slider keeps `r` and the
    /// selected circle takes it, clamped.
    pub open spec fn with_slider(self, r: u32) -> AppView {
        AppView { radius: r, canvas: self.canvas.set_selected_radius(r as int), ..self }
    }
}

/// The drawer's state.
#[derive(Clone, PartialEq, Debug)]
pub struct AppData {
    pub canvas: CanvasData,
    pub radius: u32,
    pub undo_valid: bool,
    pub redo_valid: bool,
    pub window_count: u32,
    pub action_log: ActionLog,
}

impl View for AppData {
    type V = AppView;

    open spec fn view(&self) -> AppView {
        AppView {
            canvas: self.canvas@,
            radius: self.radius,
            undo_valid: self.undo_valid,
            redo_valid: self.redo_valid,
            window_count: self.window_count,
            action_log: self.action_log@,
        }
    }
}

impl AppData {
    /// An empty canvas, the slider in the middle of the radius range, no
    /// window open yet, and an empty history.
    pub fn new() -> (r: AppData)
        ensures
            r@.canvas == CanvasView::empty(),
            r@.radius == INITIAL_RADIUS,
            !r@.undo_valid,
            !r@.redo_valid,
            r@.window_count == 0,
            r@.action_log == (ActionLogView {
                position: 0,
                max_actions: DEFAULT_MAX_ACTIONS as nat,
                actions: Seq::empty(),
            }),
            r@.wf(),
    {
        AppData {
            canvas: CanvasData::new(),
            radius: INITIAL_RADIUS,
            undo_valid: false,
            redo_valid: false,
            window_count: 0,
            action_log: ActionLog::default(),
        }
    }

    /// Handles a command: "Deselect" clears the selection; "Resize" asks for
    /// the popup when a circle is selected and only the main window is open;
    /// "Undo" and "Redo" are taken and change nothing; any other command,
    /// and a "Resize" that cannot be served, goes on.
    pub fn command(&mut self, cmd: AppCommand) -> (r: CommandOutcome)
        ensures
            r == old(self)@.outcome(cmd),
            final(self)@ == old(self)@.after_command(cmd),
    {
        match cmd {
            AppCommand::Deselect => {
                self.canvas.deselect();
                CommandOutcome { propagate: false, open_resize_popup: false }
            },
            AppCommand::Resize => {
                if self.canvas.selected.is_some() && self.window_count == 1 {
                    CommandOutcome { propagate: false, open_resize_popup: true }
                } else {
                    CommandOutcome { propagate: true, open_resize_popup: false }
                }
            },
            AppCommand::Undo | AppCommand::Redo => CommandOutcome {
                propagate: false,
                open_resize_popup: false,
            },
            AppCommand::Other => CommandOutcome { propagate: true, open_resize_popup: false },
        }
    }

    /// Counts a newly opened window; with more than one open the canvas
    /// stops taking input.
    pub fn window_added(&mut self)
        requires
            old(self).window_count < u32::MAX,
        ensures
            final(self)@ == old(self)@.with_window_added(),
    {
        self.window_count = self.window_count + 1;
        if self.window_count > 1 {
            self.canvas.enabled = false;
        }
    }

    /// Counts a closed window; when only one is left the canvas takes input
    /// again.
    pub fn window_removed(&mut self)
        requires
            old(self).window_count > 0,
        ensures
            final(self)@ == old(self)@.with_window_removed(),
    {
        self.window_count = self.window_count - 1;
        if self.window_count == 1 {
            self.canvas.enabled = true;
        }
    }

    /// The radius slider moved to `radius`: the selected circle, if any,
    /// takes it, clamped to the radius range.
    pub fn slider_moved(&mut self, radius: u32)
        requires
            old(self)@.wf(),
        ensures
            final(self)@ == old(self)@.with_slider(radius),
            final(self)@.wf(),
    {
        self.radius = radius;
        self.canvas.update_radius(radius);
    }
}

/// The resize popup opens only for a "Resize" command while a circle is
/// selected and only the main window is open. Once it has opened, the
/// canvas ignores every event, left clicks included, and in general the
/// canvas ignores every event while more than one window is open.
pub proof fn law_resize_popup_gate(a: AppView, cmd: AppCommand, event: CanvasEvent)
    requires
        a.wf(),
    ensures
        a.outcome(cmd).open_resize_popup ==> cmd == AppCommand::Resize && a.canvas.selected is Some
            && a.window_count == 1,
        a.outcome(cmd).open_resize_popup ==> ({
            let b = a.after_command(cmd).with_window_added();
            &&& b.wf()
            &&& b.window_count == 2
            &&& b.canvas.after(event) == b.canvas
        }),
        a.window_count > 1 ==> a.canvas.after(event) == a.canvas,
{
}

/// Opening and closing windows keeps the canvas taking input exactly while
/// at most one window is open.
pub proof fn law_window_count_gates_canvas(a: AppView)
    requires
        a.wf(),
    ensures
        a.window_count < u32::MAX ==> a.with_window_added().wf(),
        a.window_count > 0 ==> a.with_window_removed().wf(),
{
}

} // verus!
