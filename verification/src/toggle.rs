//! The visibility toggle: what a press of the hotkey does to the overlay.
//!
//! The coordinator decides; the program around this library acts. Before it
//! hands a press to the coordinator it gathers a `PressContext`, and thereby
//! asks for the active window while the overlay is still hidden. Afterwards it
//! carries out the actions in the order in which they are listed.
use crate::geometry::{
    containing_monitor, find_containing_monitor, monitor_bounds, placement,
    position_window_bottom_right, try_compute_position, AnchorCorner, MonitorDescriptor,
    PlacementOffsets, Point, Size,
};
use crate::registry::{display_name, display_name_model, models};
use crate::storage::{Application, ApplicationModel};
use crate::window_detection::ActiveWindowSnapshot;
use vstd::prelude::*;

verus! {

/// Whether the overlay is shown.
#[derive(Clone, Copy, Debug, PartialEq, Eq, Structural)]
pub enum ToggleState {
    Hidden,
    Visible,
}

/// One step for the program to carry out.
#[derive(Debug, Clone, PartialEq, Eq)]
pub enum Action {
    /// Hide the settings window.
    HideSettings,
    /// Tell the user interface that the overlay is hidden.
    NotifyHidden,
    /// Hide the overlay.
    HideOverlay,
    /// Tell the user interface which application was active.
    NotifyActiveApplication(String),
    /// Move the overlay to the position.
    MoveOverlay(Point),
    /// Show the overlay.
    ShowOverlay,
    /// Give the overlay the input focus.
    FocusOverlay,
}

/// An `Action` with its text as plain text.
pub enum ActionModel {
    HideSettings,
    NotifyHidden,
    HideOverlay,
    NotifyActiveApplication(Seq<char>),
    MoveOverlay(Point),
    ShowOverlay,
    FocusOverlay,
}

impl View for Action {
    type V = ActionModel;

    open spec fn view(&self) -> ActionModel {
        match self {
            Action::HideSettings => ActionModel::HideSettings,
            Action::NotifyHidden => ActionModel::NotifyHidden,
            Action::HideOverlay => ActionModel::HideOverlay,
            Action::NotifyActiveApplication(name) => ActionModel::NotifyActiveApplication(name@),
            Action::MoveOverlay(p) => ActionModel::MoveOverlay(*p),
            Action::ShowOverlay => ActionModel::ShowOverlay,
            Action::FocusOverlay => ActionModel::FocusOverlay,
        }
    }
}

/// The models of a sequence of actions.
pub open spec fn action_models(actions: Seq<Action>) -> Seq<ActionModel> {
    Seq::new(actions.len(), |i: int| actions[i]@)
}

/// What the platform answered when the hotkey was pressed. Each query that
/// failed is left out.
#[derive(Debug, Clone, PartialEq, Eq)]
pub struct PressContext {
    /// The window that had the focus.
    pub active_window: Option<ActiveWindowSnapshot>,
    /// The displays, in the platform's order.
    pub monitors: Option<Vec<MonitorDescriptor>>,
    /// The display that the overlay itself is on.
    pub overlay_monitor: Option<MonitorDescriptor>,
    /// The overlay's size.
    pub overlay_size: Option<Size>,
    /// The corner that the user chose.
    pub anchor: AnchorCorner,
    /// The allowances for platform chrome.
    pub offsets: PlacementOffsets,
}

/// The display that holds the active window, where the window and the
/// displays are known and one of them holds it.
pub open spec fn active_monitor(ctx: PressContext) -> Option<MonitorDescriptor> {
    match (ctx.active_window, ctx.monitors) {
        (Some(window), Some(monitors)) => containing_monitor(window.bounds, monitors@),
        _ => None,
    }
}

/// The display to put the overlay on: that of the active window, or else the
/// one that the overlay is on already.
pub open spec fn target_monitor(ctx: PressContext) -> Option<MonitorDescriptor> {
    match active_monitor(ctx) {
        Some(m) => Some(m),
        None => ctx.overlay_monitor,
    }
}

/// The position to move the overlay to. There is none where no display or no
/// size is known, or where the position is out of a `Point`'s range: the
/// overlay then stays where it was.
pub open spec fn target_position(ctx: PressContext) -> Option<Point> {
    match (target_monitor(ctx), ctx.overlay_size) {
        (Some(m), Some(size)) => placement(monitor_bounds(m), size, ctx.anchor, ctx.offsets),
        _ => None,
    }
}

/// The name to announce: the registry's name for the active window's process,
/// or the process identity itself where the registry has none. Nothing is
/// announced where the active window is not known.
pub open spec fn announced_name(ctx: PressContext, registry: Seq<ApplicationModel>) -> Option<
    Seq<char>,
> {
    match ctx.active_window {
        Some(window) => Some(display_name_model(registry, window.process_identity@)),
        None => None,
    }
}

/// The last steps of showing the overlay: move it first where there is a
/// position, then show it, then give it the focus.
pub open spec fn reveal_steps(position: Option<Point>) -> Seq<ActionModel> {
    match position {
        Some(p) => seq![
            ActionModel::MoveOverlay(p),
            ActionModel::ShowOverlay,
            ActionModel::FocusOverlay,
        ],
        None => seq![ActionModel::ShowOverlay, ActionModel::FocusOverlay],
    }
}

/// The steps that show the overlay.
pub open spec fn show_steps(ctx: PressContext, registry: Seq<ApplicationModel>) -> Seq<
    ActionModel,
> {
    match announced_name(ctx, registry) {
        Some(name) => seq![ActionModel::NotifyActiveApplication(name)] + reveal_steps(
            target_position(ctx),
        ),
        None => reveal_steps(target_position(ctx)),
    }
}

/// The steps that hide the overlay: the settings window goes first where it
/// is shown.
pub open spec fn hide_steps(settings_visible: bool) -> Seq<ActionModel> {
    if settings_visible {
        seq![ActionModel::HideSettings, ActionModel::NotifyHidden, ActionModel::HideOverlay]
    } else {
        seq![ActionModel::NotifyHidden, ActionModel::HideOverlay]
    }
}

/// The steps of a press in the given state.
pub open spec fn press_steps(
    state: ToggleState,
    settings_visible: bool,
    ctx: PressContext,
    registry: Seq<ApplicationModel>,
) -> Seq<ActionModel> {
    match state {
        ToggleState::Hidden => show_steps(ctx, registry),
        ToggleState::Visible => hide_steps(settings_visible),
    }
}

/// The state after a press.
pub open spec fn toggled(state: ToggleState) -> ToggleState {
    match state {
        ToggleState::Hidden => ToggleState::Visible,
        ToggleState::Visible => ToggleState::Hidden,
    }
}

/// Whether the settings window counts as shown after a press: a press that
/// hides the overlay hides it too.
pub open spec fn settings_after_press(state: ToggleState, settings_visible: bool) -> bool {
    match state {
        ToggleState::Hidden => settings_visible,
        ToggleState::Visible => false,
    }
}

/// Whether the action is one whose failure ends the sequence: showing and
/// hiding the overlay. A failure of any other is passed over.
pub open spec fn is_decisive(action: ActionModel) -> bool {
    action is ShowOverlay || action is HideOverlay
}

/// How often `wanted` holds of an action in the sequence.
pub open spec fn occurrences(actions: Seq<ActionModel>, wanted: spec_fn(ActionModel) -> bool) -> nat
    decreases actions.len(),
{
    if actions.len() == 0 {
        0
    } else {
        occurrences(actions.drop_last(), wanted) + if wanted(actions.last()) {
            1nat
        } else {
            0nat
        }
    }
}

/// Whether the action announces the active application.
pub open spec fn is_announcement(action: ActionModel) -> bool {
    action is NotifyActiveApplication
}

/// Whether the action tells that the overlay is hidden.
pub open spec fn is_hidden_notice(action: ActionModel) -> bool {
    action is NotifyHidden
}

/// The position in the bottom right corner of the display that the overlay is
/// on. There is none where the display or the overlay's size is not known, or
/// where the position is out of a `Point`'s range.
pub open spec fn bottom_right_position(
    overlay_monitor: Option<MonitorDescriptor>,
    overlay_size: Option<Size>,
    offsets: PlacementOffsets,
) -> Option<Point> {
    match (overlay_monitor, overlay_size) {
        (Some(m), Some(size)) => placement(
            monitor_bounds(m),
            size,
            AnchorCorner::BottomRight,
            offsets,
        ),
        _ => None,
    }
}

/// The steps of the plain toggle in the given state. It hides as a press of
/// the hotkey does. It shows without an announcement, in the bottom right
/// corner of the display that the overlay is on already.
pub open spec fn plain_toggle_steps(
    state: ToggleState,
    settings_visible: bool,
    overlay_monitor: Option<MonitorDescriptor>,
    overlay_size: Option<Size>,
    offsets: PlacementOffsets,
) -> Seq<ActionModel> {
    match state {
        ToggleState::Hidden => reveal_steps(
            bottom_right_position(overlay_monitor, overlay_size, offsets),
        ),
        ToggleState::Visible => hide_steps(settings_visible),
    }
}

impl Action {
    /// Whether a failure of this action is to be handed on to the caller.
    pub fn propagates_failure(&self) -> (r: bool)
        ensures
            r == is_decisive(self@),
    {
        match self {
            Action::ShowOverlay => true,
            Action::HideOverlay => true,
            _ => false,
        }
    }
}

/// The owner of the toggle state.
#[derive(Debug, PartialEq, Eq)]
pub struct Coordinator {
    state: ToggleState,
    settings_visible: bool,
    busy: bool,
}

impl Coordinator {
    /// Whether the overlay is shown.
    pub closed spec fn shown(&self) -> ToggleState {
        self.state
    }

    /// Whether the settings window is shown.
    pub closed spec fn settings_shown(&self) -> bool {
        self.settings_visible
    }

    /// Whether a toggle sequence is under way.
    pub closed spec fn in_sequence(&self) -> bool {
        self.busy
    }

    /// A coordinator for a hidden overlay and a hidden settings window, with
    /// no sequence under way.
    pub fn new() -> (r: Self)
        ensures
            r.shown() == ToggleState::Hidden,
            !r.settings_shown(),
            !r.in_sequence(),
    {
        Coordinator { state: ToggleState::Hidden, settings_visible: false, busy: false }
    }

    /// Claims the coordinator for one toggle sequence. The claim is refused
    /// while another sequence is under way, so that no press is handled in
    /// the middle of another; the state is left as it is either way.
    pub fn begin_sequence(&mut self) -> (granted: bool)
        ensures
            granted == !old(self).in_sequence(),
            final(self).in_sequence(),
            final(self).shown() == old(self).shown(),
            final(self).settings_shown() == old(self).settings_shown(),
    {
        if self.busy {
            false
        } else {
            self.busy = true;
            true
        }
    }

    /// Gives the coordinator free once the actions of a sequence are carried
    /// out.
    pub fn end_sequence(&mut self)
        ensures
            !final(self).in_sequence(),
            final(self).shown() == old(self).shown(),
            final(self).settings_shown() == old(self).settings_shown(),
    {
        self.busy = false;
    }

    /// Whether the overlay is shown.
    pub fn state(&self) -> (r: ToggleState)
        ensures
            r == self.shown(),
    {
        self.state
    }

    /// Whether the settings window is shown.
    pub fn settings_visible(&self) -> (r: bool)
        ensures
            r == self.settings_shown(),
    {
        self.settings_visible
    }

    /// Whether the next press shows the overlay, so that the active window has
    /// to be asked for before anything else is done.
    pub fn needs_context(&self) -> (r: bool)
        ensures
            r == (self.shown() == ToggleState::Hidden),
    {
        match self.state {
            ToggleState::Hidden => true,
            ToggleState::Visible => false,
        }
    }

    /// Records that the settings window was opened or closed.
    pub fn set_settings_visible(&mut self, visible: bool)
        ensures
            final(self).settings_shown() == visible,
            final(self).shown() == old(self).shown(),
            final(self).in_sequence() == old(self).in_sequence(),
    {
        self.settings_visible = visible;
    }

    /// Records that the window manager closed the overlay.
    pub fn on_overlay_closed(&mut self)
        ensures
            final(self).shown() == ToggleState::Hidden,
            final(self).settings_shown() == old(self).settings_shown(),
            final(self).in_sequence() == old(self).in_sequence(),
    {
        self.state = ToggleState::Hidden;
    }

    /// Records that the overlay was shown by other means than this
    /// coordinator's.
    pub fn on_overlay_shown(&mut self)
        ensures
            final(self).shown() == ToggleState::Visible,
            final(self).settings_shown() == old(self).settings_shown(),
            final(self).in_sequence() == old(self).in_sequence(),
    {
        self.state = ToggleState::Visible;
    }

    /// The plain toggle of the overlay, asked for from the user interface:
    /// flips the state and lists what is to be done. A shown overlay is
    /// hidden as a press of the hotkey hides it. A hidden one is moved to the
    /// bottom right corner of the display that it is on, then shown and
    /// focused; where the display or the overlay's size is not known, or the
    /// position is out of range, it is shown where it was.
    pub fn toggle_window(
        &mut self,
        overlay_monitor: Option<MonitorDescriptor>,
        overlay_size: Option<Size>,
        offsets: PlacementOffsets,
    ) -> (r: Vec<Action>)
        ensures
            action_models(r@) == plain_toggle_steps(
                old(self).shown(),
                old(self).settings_shown(),
                overlay_monitor,
                overlay_size,
                offsets,
            ),
            final(self).shown() == toggled(old(self).shown()),
            final(self).settings_shown() == settings_after_press(
                old(self).shown(),
                old(self).settings_shown(),
            ),
            final(self).in_sequence() == old(self).in_sequence(),
    {
        match self.state {
            ToggleState::Hidden => {
                self.state = ToggleState::Visible;
                let position = match (overlay_monitor, overlay_size) {
                    (Some(m), Some(size)) => position_window_bottom_right(
                        &m.bounds(),
                        size,
                        offsets,
                    ),
                    _ => None,
                };
                let mut actions: Vec<Action> = Vec::new();
                reveal_overlay(&mut actions, position);
                assert(action_models(actions@) =~= reveal_steps(position));
                actions
            },
            ToggleState::Visible => {
                let actions = hide_overlay(self.settings_visible);
                self.state = ToggleState::Hidden;
                self.settings_visible = false;
                actions
            },
        }
    }

    /// Handles one press of the hotkey: flips the state and lists what is to
    /// be done. A hidden overlay is announced, moved and shown; a missing
    /// answer in `ctx` only takes away the step that needed it. A shown
    /// overlay is hidden, the settings window before it.
    pub fn on_hotkey_press(&mut self, ctx: &PressContext, registry: &Vec<Application>) -> (r: Vec<
        Action,
    >)
        ensures
            action_models(r@) == press_steps(
                old(self).shown(),
                old(self).settings_shown(),
                *ctx,
                models(registry@),
            ),
            final(self).shown() == toggled(old(self).shown()),
            final(self).settings_shown() == settings_after_press(
                old(self).shown(),
                old(self).settings_shown(),
            ),
            final(self).in_sequence() == old(self).in_sequence(),
    {
        match self.state {
            ToggleState::Hidden => {
                self.state = ToggleState::Visible;
                show_overlay(ctx, registry)
            },
            ToggleState::Visible => {
                let actions = hide_overlay(self.settings_visible);
                self.state = ToggleState::Hidden;
                self.settings_visible = false;
                actions
            },
        }
    }
}

/// Chooses the display for the overlay.
pub fn choose_monitor(ctx: &PressContext) -> (r: Option<MonitorDescriptor>)
    ensures
        r == target_monitor(*ctx),
{
    let found = match (&ctx.active_window, &ctx.monitors) {
        (Some(window), Some(monitors)) => find_containing_monitor(&window.bounds, monitors),
        _ => None,
    };
    match found {
        Some(m) => Some(m),
        None => ctx.overlay_monitor,
    }
}

/// Chooses the position for the overlay.
pub fn choose_position(ctx: &PressContext) -> (r: Option<Point>)
    ensures
        r == target_position(*ctx),
{
    match (choose_monitor(ctx), ctx.overlay_size) {
        (Some(m), Some(size)) => try_compute_position(&m.bounds(), size, ctx.anchor, ctx.offsets),
        _ => None,
    }
}

fn reveal_overlay(actions: &mut Vec<Action>, position: Option<Point>)
    ensures
        action_models(final(actions)@) == action_models(old(actions)@) + reveal_steps(position),
{
    match position {
        Some(p) => {
            actions.push(Action::MoveOverlay(p));
        },
        None => {},
    }
    actions.push(Action::ShowOverlay);
    actions.push(Action::FocusOverlay);
    assert(action_models(actions@) =~= action_models(old(actions)@) + reveal_steps(position));
}

/// Lists the steps that show the overlay.
pub fn show_overlay(ctx: &PressContext, registry: &Vec<Application>) -> (r: Vec<Action>)
    ensures
        action_models(r@) == show_steps(*ctx, models(registry@)),
{
    let mut actions: Vec<Action> = Vec::new();
    match &ctx.active_window {
        Some(window) => {
            let name = display_name(registry, window.process_identity.as_str());
            actions.push(Action::NotifyActiveApplication(name));
        },
        None => {},
    }
    let ghost before = action_models(actions@);
    assert(before =~= match announced_name(*ctx, models(registry@)) {
        Some(name) => seq![ActionModel::NotifyActiveApplication(name)],
        None => Seq::empty(),
    });
    reveal_overlay(&mut actions, choose_position(ctx));
    assert(action_models(actions@) =~= show_steps(*ctx, models(registry@)));
    actions
}

/// Lists the steps that hide the overlay.
pub fn hide_overlay(settings_visible: bool) -> (r: Vec<Action>)
    ensures
        action_models(r@) == hide_steps(settings_visible),
{
    let mut actions: Vec<Action> = Vec::new();
    if settings_visible {
        actions.push(Action::HideSettings);
    }
    actions.push(Action::NotifyHidden);
    actions.push(Action::HideOverlay);
    assert(action_models(actions@) =~= hide_steps(settings_visible));
    actions
}

} // verus!
