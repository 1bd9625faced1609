//! What holds of the visibility toggle over one press and over two.
use crate::geometry::{monitor_bounds, placement, AnchorCorner, Point};
use crate::storage::ApplicationModel;
use crate::toggle::{
    announced_name, hide_steps, is_announcement, is_decisive, is_hidden_notice, occurrences,
    plain_toggle_steps, press_steps, reveal_steps, settings_after_press, show_steps,
    target_monitor, target_position, toggled, ActionModel, PressContext, ToggleState,
};
use vstd::prelude::*;

verus! {

/// One more action at the end adds one occurrence if it is a wanted one, and
/// none otherwise.
pub proof fn lemma_occurrences_push(
    actions: Seq<ActionModel>,
    action: ActionModel,
    wanted: spec_fn(ActionModel) -> bool,
)
    ensures
        occurrences(actions.push(action), wanted) == occurrences(actions, wanted) + if wanted(
            action,
        ) {
            1nat
        } else {
            0nat
        },
{
    assert(actions.push(action).drop_last() =~= actions);
}

/// How often a kind of action occurs among the steps that move, show and
/// focus the overlay.
proof fn lemma_occurrences_reveal(
    head: Seq<ActionModel>,
    position: Option<Point>,
    wanted: spec_fn(ActionModel) -> bool,
)
    ensures
        occurrences(head + reveal_steps(position), wanted) == occurrences(head, wanted) + (if position
            is Some && wanted(ActionModel::MoveOverlay(position->0)) {
            1nat
        } else {
            0nat
        }) + (if wanted(ActionModel::ShowOverlay) {
            1nat
        } else {
            0nat
        }) + (if wanted(ActionModel::FocusOverlay) {
            1nat
        } else {
            0nat
        }),
{
    match position {
        Some(p) => {
            let a = head.push(ActionModel::MoveOverlay(p));
            let b = a.push(ActionModel::ShowOverlay);
            lemma_occurrences_push(head, ActionModel::MoveOverlay(p), wanted);
            lemma_occurrences_push(a, ActionModel::ShowOverlay, wanted);
            lemma_occurrences_push(b, ActionModel::FocusOverlay, wanted);
            assert(head + reveal_steps(position) =~= b.push(ActionModel::FocusOverlay));
        },
        None => {
            let b = head.push(ActionModel::ShowOverlay);
            lemma_occurrences_push(head, ActionModel::ShowOverlay, wanted);
            lemma_occurrences_push(b, ActionModel::FocusOverlay, wanted);
            assert(head + reveal_steps(position) =~= b.push(ActionModel::FocusOverlay));
        },
    }
}

/// How often a kind of action occurs among the steps that show the overlay.
proof fn lemma_occurrences_show(
    ctx: PressContext,
    registry: Seq<ApplicationModel>,
    wanted: spec_fn(ActionModel) -> bool,
)
    requires
        !wanted(ActionModel::FocusOverlay),
        forall|p: Point| !wanted(ActionModel::MoveOverlay(p)),
    ensures
        occurrences(show_steps(ctx, registry), wanted) == (if ctx.active_window is Some && wanted(
            ActionModel::NotifyActiveApplication(
                announced_name(ctx, registry)->0,
            ),
        ) {
            1nat
        } else {
            0nat
        }) + (if wanted(ActionModel::ShowOverlay) {
            1nat
        } else {
            0nat
        }),
{
    let empty = Seq::<ActionModel>::empty();
    match announced_name(ctx, registry) {
        Some(name) => {
            let head = empty.push(ActionModel::NotifyActiveApplication(name));
            lemma_occurrences_push(empty, ActionModel::NotifyActiveApplication(name), wanted);
            lemma_occurrences_reveal(head, target_position(ctx), wanted);
            assert(head =~= seq![ActionModel::NotifyActiveApplication(name)]);
        },
        None => {
            lemma_occurrences_reveal(empty, target_position(ctx), wanted);
            assert(empty + reveal_steps(target_position(ctx)) =~= reveal_steps(
                target_position(ctx),
            ));
        },
    }
}

/// How often a kind of action occurs among the steps that hide the overlay.
proof fn lemma_occurrences_hide(settings_visible: bool, wanted: spec_fn(ActionModel) -> bool)
    ensures
        occurrences(hide_steps(settings_visible), wanted) == (if settings_visible && wanted(
            ActionModel::HideSettings,
        ) {
            1nat
        } else {
            0nat
        }) + (if wanted(ActionModel::NotifyHidden) {
            1nat
        } else {
            0nat
        }) + (if wanted(ActionModel::HideOverlay) {
            1nat
        } else {
            0nat
        }),
{
    let empty = Seq::<ActionModel>::empty();
    if settings_visible {
        let a = empty.push(ActionModel::HideSettings);
        let b = a.push(ActionModel::NotifyHidden);
        lemma_occurrences_push(empty, ActionModel::HideSettings, wanted);
        lemma_occurrences_push(a, ActionModel::NotifyHidden, wanted);
        lemma_occurrences_push(b, ActionModel::HideOverlay, wanted);
        assert(hide_steps(settings_visible) =~= b.push(ActionModel::HideOverlay));
    } else {
        let b = empty.push(ActionModel::NotifyHidden);
        lemma_occurrences_push(empty, ActionModel::NotifyHidden, wanted);
        lemma_occurrences_push(b, ActionModel::HideOverlay, wanted);
        assert(hide_steps(settings_visible) =~= b.push(ActionModel::HideOverlay));
    }
}

/// Two presses in a row, the first on a hidden overlay: the first press shows
/// the overlay and the second hides it again. Where the active window was
/// known at the first press, the active application is announced exactly
/// once, by the first press, and the hiding is told exactly once, by the
/// second. After the second press the settings window counts as hidden.
pub proof fn lemma_two_presses(
    settings_visible: bool,
    first: PressContext,
    first_registry: Seq<ApplicationModel>,
    second: PressContext,
    second_registry: Seq<ApplicationModel>,
)
    requires
        first.active_window is Some,
    ensures
        toggled(ToggleState::Hidden) == ToggleState::Visible,
        toggled(toggled(ToggleState::Hidden)) == ToggleState::Hidden,
        occurrences(
            press_steps(ToggleState::Hidden, settings_visible, first, first_registry),
            |a: ActionModel| is_announcement(a),
        ) == 1,
        occurrences(
            press_steps(ToggleState::Hidden, settings_visible, first, first_registry),
            |a: ActionModel| is_hidden_notice(a),
        ) == 0,
        occurrences(
            press_steps(
                ToggleState::Visible,
                settings_after_press(ToggleState::Hidden, settings_visible),
                second,
                second_registry,
            ),
            |a: ActionModel| is_announcement(a),
        ) == 0,
        occurrences(
            press_steps(
                ToggleState::Visible,
                settings_after_press(ToggleState::Hidden, settings_visible),
                second,
                second_registry,
            ),
            |a: ActionModel| is_hidden_notice(a),
        ) == 1,
        !settings_after_press(
            ToggleState::Visible,
            settings_after_press(ToggleState::Hidden, settings_visible),
        ),
{
    lemma_occurrences_show(first, first_registry, |a: ActionModel| is_announcement(a));
    lemma_occurrences_show(first, first_registry, |a: ActionModel| is_hidden_notice(a));
    lemma_occurrences_hide(settings_visible, |a: ActionModel| is_announcement(a));
    lemma_occurrences_hide(settings_visible, |a: ActionModel| is_hidden_notice(a));
}

/// A press on a hidden overlay shows it whatever the platform failed to
/// answer: the overlay is shown exactly once among the steps, and it is the
/// step before the last, which gives it the focus.
pub proof fn lemma_press_always_shows(
    settings_visible: bool,
    ctx: PressContext,
    registry: Seq<ApplicationModel>,
)
    ensures
        toggled(ToggleState::Hidden) == ToggleState::Visible,
        occurrences(
            press_steps(ToggleState::Hidden, settings_visible, ctx, registry),
            |a: ActionModel| a is ShowOverlay,
        ) == 1,
        ({
            let steps = press_steps(ToggleState::Hidden, settings_visible, ctx, registry);
            &&& steps.len() >= 2
            &&& steps[steps.len() - 2] is ShowOverlay
            &&& steps[steps.len() - 1] is FocusOverlay
            &&& forall|i: int| 0 <= i < steps.len() - 2 ==> !is_decisive(#[trigger] steps[i])
        }),
{
    lemma_occurrences_show(ctx, registry, |a: ActionModel| a is ShowOverlay);
}

/// A press on a hidden overlay while the active window cannot be asked for:
/// the overlay is still shown, nothing is announced, and the display that
/// the overlay goes to is the one that it is on already.
pub proof fn lemma_press_without_active_window(
    settings_visible: bool,
    ctx: PressContext,
    registry: Seq<ApplicationModel>,
)
    requires
        ctx.active_window is None,
    ensures
        toggled(ToggleState::Hidden) == ToggleState::Visible,
        target_monitor(ctx) == ctx.overlay_monitor,
        press_steps(ToggleState::Hidden, settings_visible, ctx, registry) == reveal_steps(
            match (ctx.overlay_monitor, ctx.overlay_size) {
                (Some(m), Some(size)) => placement(
                    monitor_bounds(m),
                    size,
                    ctx.anchor,
                    ctx.offsets,
                ),
                _ => None,
            },
        ),
{
}

/// A press on a shown overlay hides the settings window first, where it is
/// shown, and the overlay last.
pub proof fn lemma_hide_order(
    settings_visible: bool,
    ctx: PressContext,
    registry: Seq<ApplicationModel>,
)
    ensures
        ({
            let steps = press_steps(ToggleState::Visible, settings_visible, ctx, registry);
            &&& steps.len() >= 2
            &&& steps[steps.len() - 1] is HideOverlay
            &&& steps[steps.len() - 2] is NotifyHidden
            &&& settings_visible ==> steps.len() == 3 && steps[0] is HideSettings
            &&& !settings_visible ==> steps.len() == 2
        }),
{
}

/// The plain toggle is a press of the hotkey for which the active window is
/// not known and the bottom right corner is chosen: both list the same steps
/// and lead to the same state.
pub proof fn lemma_plain_toggle_is_press(
    state: ToggleState,
    settings_visible: bool,
    ctx: PressContext,
    registry: Seq<ApplicationModel>,
)
    requires
        ctx.active_window is None,
        ctx.anchor == AnchorCorner::BottomRight,
    ensures
        plain_toggle_steps(
            state,
            settings_visible,
            ctx.overlay_monitor,
            ctx.overlay_size,
            ctx.offsets,
        ) == press_steps(state, settings_visible, ctx, registry),
{
}

/// The plain toggle and the hotkey share one state: a press that follows a
/// plain toggle of a hidden overlay hides the overlay, and a plain toggle
/// that follows a press on a hidden overlay hides it as well.
pub proof fn lemma_toggles_share_state(
    settings_visible: bool,
    ctx: PressContext,
    registry: Seq<ApplicationModel>,
)
    ensures
        press_steps(toggled(ToggleState::Hidden), settings_visible, ctx, registry) == hide_steps(
            settings_visible,
        ),
        plain_toggle_steps(
            toggled(ToggleState::Hidden),
            settings_visible,
            ctx.overlay_monitor,
            ctx.overlay_size,
            ctx.offsets,
        ) == hide_steps(settings_visible),
        toggled(toggled(ToggleState::Hidden)) == ToggleState::Hidden,
{
}

} // verus!
