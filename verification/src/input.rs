//! Translation of raw platform input events into semantic actions.
//!
//! The host drains its platform event queue, turns each pending event into an
//! [`Event`] record of plain values, and feeds it through [`process_event`].
//! That call updates the [`Context`] (closed flag, held-key set, mouse
//! position) and returns the list of `(KeyAction, KeyActionType)` pairs the
//! application must receive for that event, in order. The whole
//! classification policy is stated by the spec functions [`step`] and
//! [`dispatches`] and proved of the executable code.

use crate::context::Context;
use crate::context::ContextView;
use vstd::prelude::*;

verus! {

// Raw key identifiers, in the value space of the platform's keyboard codes.
pub const KEY_ESCAPE: i32 = 27;

pub const KEY_SPACE: i32 = 32;

pub const KEY_MINUS: i32 = 45;

pub const KEY_1: i32 = 49;

pub const KEY_2: i32 = 50;

pub const KEY_3: i32 = 51;

pub const KEY_EQUALS: i32 = 61;

pub const KEY_A: i32 = 97;

pub const KEY_D: i32 = 100;

pub const KEY_S: i32 = 115;

pub const KEY_W: i32 = 119;

pub const KEY_F1: i32 = 1073741882;

/// The designated modifier that opens the debug dispatch channel.
pub const KEY_LCTRL: i32 = 1073742048;

/// Pseudo-key identifier standing for the primary (left) mouse button in the
/// held-key set. The value is a keyboard code no real key press produces in
/// practice (the browser key), so the two identifier spaces stay apart.
pub const PSEUDO_MOUSE_LEFT: i32 = 1073742088;

/// Pseudo-key identifier standing for every other mouse button (the mail
/// key).
pub const PSEUDO_MOUSE_OTHER: i32 = 1073742089;

/// A mouse button as reported by the platform.
#[derive(Clone, Copy, Debug, PartialEq, Eq, Structural)]
pub enum MouseBtn {
    Left,
    Middle,
    Right,
    X1,
    X2,
    Unknown,
}

/// One semantic action handed to the application; one active variant per
/// dispatch.
#[derive(Clone, Copy, Debug, PartialEq, Eq, Structural)]
pub enum KeyAction {
    Accept,
    Back,
    Up,
    Down,
    Left,
    Right,
    MouseMotion(i32, i32),
    MouseDragged(i32, i32),
    MouseButton(MouseBtn),
    MouseWheel(i32),
    DebugKey(i32),
    DebugToggle,
    DebugKey1,
    DebugKey2,
    DebugKey3,
    DebugPlus,
    DebugMinus,
    Key(i32),
}

/// The transition phase of a dispatched action.
#[derive(Clone, Copy, Debug, PartialEq, Eq, Structural)]
pub enum KeyActionType {
    KeyUp,
    KeyDown,
    KeyJustPressed,
    AxisMotion,
    BtnJustPressed,
    BtnUp,
}

/// One raw platform event, as plain values. The host converts each pending
/// platform event into this form; event kinds the framework ignores arrive as
/// `Other`.
#[derive(Clone, Copy, Debug, PartialEq, Eq, Structural)]
pub enum Event {
    Quit,
    KeyDown { code: i32, repeat: bool },
    KeyUp { code: i32 },
    MouseMotion { x: i32, y: i32 },
    MouseButtonDown { btn: MouseBtn },
    MouseButtonUp { btn: MouseBtn },
    MouseWheel { delta: i32 },
    Other,
}

/// The primary key-to-action table: accept and movement keys map to their
/// semantic actions, every other key passes through raw.
pub open spec fn primary_action(code: i32) -> KeyAction {
    if code == KEY_SPACE {
        KeyAction::Accept
    } else if code == KEY_D {
        KeyAction::Right
    } else if code == KEY_A {
        KeyAction::Left
    } else if code == KEY_W {
        KeyAction::Up
    } else if code == KEY_S {
        KeyAction::Down
    } else {
        KeyAction::Key(code)
    }
}

/// The debug key-to-action table, used while the modifier is held: numeric
/// keys map to the numbered debug actions, plus and minus to their debug
/// actions, the toggle key to `DebugToggle`, every other key passes through
/// as a raw debug key.
pub open spec fn debug_action(code: i32) -> KeyAction {
    if code == KEY_1 {
        KeyAction::DebugKey1
    } else if code == KEY_2 {
        KeyAction::DebugKey2
    } else if code == KEY_3 {
        KeyAction::DebugKey3
    } else if code == KEY_EQUALS {
        KeyAction::DebugPlus
    } else if code == KEY_MINUS {
        KeyAction::DebugMinus
    } else if code == KEY_F1 {
        KeyAction::DebugToggle
    } else {
        KeyAction::DebugKey(code)
    }
}

/// The pseudo-key identifier under which a mouse button is tracked in the
/// held-key set.
pub open spec fn pseudo_key(btn: MouseBtn) -> i32 {
    if btn == MouseBtn::Left {
        PSEUDO_MOUSE_LEFT
    } else {
        PSEUDO_MOUSE_OTHER
    }
}

/// Look up the primary action for a raw key.
pub fn map_to_key_action(code: i32) -> (a: KeyAction)
    ensures
        a == primary_action(code),
{
    if code == KEY_SPACE {
        KeyAction::Accept
    } else if code == KEY_D {
        KeyAction::Right
    } else if code == KEY_A {
        KeyAction::Left
    } else if code == KEY_W {
        KeyAction::Up
    } else if code == KEY_S {
        KeyAction::Down
    } else {
        KeyAction::Key(code)
    }
}

/// Look up the debug action for a raw key.
pub fn map_to_debug_key(code: i32) -> (a: KeyAction)
    ensures
        a == debug_action(code),
{
    if code == KEY_1 {
        KeyAction::DebugKey1
    } else if code == KEY_2 {
        KeyAction::DebugKey2
    } else if code == KEY_3 {
        KeyAction::DebugKey3
    } else if code == KEY_EQUALS {
        KeyAction::DebugPlus
    } else if code == KEY_MINUS {
        KeyAction::DebugMinus
    } else if code == KEY_F1 {
        KeyAction::DebugToggle
    } else {
        KeyAction::DebugKey(code)
    }
}

/// Fold a mouse button into the key identifier space.
pub fn map_mouse_button(btn: MouseBtn) -> (code: i32)
    ensures
        code == pseudo_key(btn),
{
    match btn {
        MouseBtn::Left => PSEUDO_MOUSE_LEFT,
        _ => PSEUDO_MOUSE_OTHER,
    }
}

/// How one event changes the context state: a quit event or an escape
/// key-down closes; a key-down records the key as held (the escape key-down
/// only closes and records nothing); a key-up releases it; mouse buttons do
/// the same under their pseudo-key; everything else leaves the state alone.
pub open spec fn step(v: ContextView, e: Event) -> ContextView {
    match e {
        Event::Quit => ContextView { closed: true, ..v },
        Event::KeyDown { code, repeat } => if code == KEY_ESCAPE {
            ContextView { closed: true, ..v }
        } else {
            ContextView { keys: v.keys.insert(code), ..v }
        },
        Event::KeyUp { code } => ContextView { keys: v.keys.remove(code), ..v },
        Event::MouseButtonDown { btn } => ContextView { keys: v.keys.insert(pseudo_key(btn)), ..v },
        Event::MouseButtonUp { btn } => ContextView { keys: v.keys.remove(pseudo_key(btn)), ..v },
        _ => v,
    }
}

/// What one event dispatches to the application, given the context state
/// before the event.
///
/// A non-escape key-down dispatches the debug action when the modifier is
/// held (the key just pressed counts as held already, so pressing the
/// modifier itself opens the channel for that very event), and the primary
/// action when the press is not a repeat; a repeated press with no modifier
/// held dispatches nothing. A key-up always dispatches the primary action.
/// Mouse motion dispatches a drag while the primary button's pseudo-key is
/// held, plain motion otherwise.
pub open spec fn dispatches(v: ContextView, e: Event) -> Seq<(KeyAction, KeyActionType)> {
    match e {
        Event::KeyDown { code, repeat } => if code == KEY_ESCAPE {
            Seq::empty()
        } else {
            let t = if repeat {
                KeyActionType::KeyDown
            } else {
                KeyActionType::KeyJustPressed
            };
            let debug_part: Seq<(KeyAction, KeyActionType)> = if v.keys.insert(code).contains(
                KEY_LCTRL,
            ) {
                seq![(debug_action(code), t)]
            } else {
                Seq::empty()
            };
            let primary_part: Seq<(KeyAction, KeyActionType)> = if !repeat {
                seq![(primary_action(code), t)]
            } else {
                Seq::empty()
            };
            debug_part + primary_part
        },
        Event::KeyUp { code } => seq![(primary_action(code), KeyActionType::KeyUp)],
        Event::MouseMotion { x, y } => if v.keys.contains(PSEUDO_MOUSE_LEFT) {
            seq![(KeyAction::MouseDragged(x, y), KeyActionType::AxisMotion)]
        } else {
            seq![(KeyAction::MouseMotion(x, y), KeyActionType::AxisMotion)]
        },
        Event::MouseButtonDown { btn } => seq![
            (KeyAction::MouseButton(btn), KeyActionType::BtnJustPressed),
        ],
        Event::MouseButtonUp { btn } => seq![(KeyAction::MouseButton(btn), KeyActionType::BtnUp)],
        Event::MouseWheel { delta } => seq![
            (KeyAction::MouseWheel(delta), KeyActionType::AxisMotion),
        ],
        _ => Seq::empty(),
    }
}

/// Classify one event and update the context.
///
/// Returns the actions to hand to the application for this event, in
/// dispatch order. The state change and the returned dispatches are exactly
/// [`step`] and [`dispatches`] of the state before the event.
pub fn process_event(ctx: &mut Context, event: Event) -> (d: Vec<(KeyAction, KeyActionType)>)
    requires
        old(ctx).wf(),
    ensures
        final(ctx).wf(),
        final(ctx)@ == step(old(ctx)@, event),
        d@ == dispatches(old(ctx)@, event),
{
    let mut d: Vec<(KeyAction, KeyActionType)> = Vec::new();
    match event {
        Event::Quit => {
            ctx.close();
        },
        Event::KeyDown { code, repeat } => {
            if code == KEY_ESCAPE {
                ctx.close();
            } else {
                ctx.press_key(code);
                let t = if repeat {
                    KeyActionType::KeyDown
                } else {
                    KeyActionType::KeyJustPressed
                };
                if ctx.get_key(KEY_LCTRL) {
                    d.push((map_to_debug_key(code), t));
                }
                if !repeat {
                    d.push((map_to_key_action(code), t));
                }
            }
        },
        Event::KeyUp { code } => {
            d.push((map_to_key_action(code), KeyActionType::KeyUp));
            ctx.release_key(code);
        },
        Event::MouseMotion { x, y } => {
            if ctx.get_key(PSEUDO_MOUSE_LEFT) {
                d.push((KeyAction::MouseDragged(x, y), KeyActionType::AxisMotion));
            } else {
                d.push((KeyAction::MouseMotion(x, y), KeyActionType::AxisMotion));
            }
        },
        Event::MouseButtonDown { btn } => {
            ctx.press_key(map_mouse_button(btn));
            d.push((KeyAction::MouseButton(btn), KeyActionType::BtnJustPressed));
        },
        Event::MouseButtonUp { btn } => {
            ctx.release_key(map_mouse_button(btn));
            d.push((KeyAction::MouseButton(btn), KeyActionType::BtnUp));
        },
        Event::MouseWheel { delta } => {
            d.push((KeyAction::MouseWheel(delta), KeyActionType::AxisMotion));
        },
        Event::Other => {},
    }
    proof {
        assert(ctx@ =~= step(old(ctx)@, event));
        assert(d@ =~= dispatches(old(ctx)@, event));
    }
    d
}

/// The context state after a whole burst of events, first to last.
pub open spec fn steps(v: ContextView, events: Seq<Event>) -> ContextView
    decreases events.len(),
{
    if events.len() == 0 {
        v
    } else {
        step(steps(v, events.drop_last()), events.last())
    }
}

/// Everything a burst of events dispatches, in order: each event's
/// dispatches are computed from the state the earlier events left behind.
pub open spec fn dispatches_seq(v: ContextView, events: Seq<Event>) -> Seq<
    (KeyAction, KeyActionType),
>
    decreases events.len(),
{
    if events.len() == 0 {
        Seq::empty()
    } else {
        dispatches_seq(v, events.drop_last()) + dispatches(
            steps(v, events.drop_last()),
            events.last(),
        )
    }
}

/// Classify a whole burst of pending events, in order, and update the
/// context. Returns every dispatch of the burst, concatenated in dispatch
/// order.
pub fn process_events(ctx: &mut Context, events: &Vec<Event>) -> (d: Vec<
    (KeyAction, KeyActionType),
>)
    requires
        old(ctx).wf(),
    ensures
        final(ctx).wf(),
        final(ctx)@ == steps(old(ctx)@, events@),
        d@ == dispatches_seq(old(ctx)@, events@),
{
    let mut d: Vec<(KeyAction, KeyActionType)> = Vec::new();
    let mut i: usize = 0;
    while i < events.len()
        invariant
            ctx.wf(),
            0 <= i <= events@.len(),
            ctx@ == steps(old(ctx)@, events@.take(i as int)),
            d@ == dispatches_seq(old(ctx)@, events@.take(i as int)),
        decreases events@.len() - i,
    {
        let mut di = process_event(ctx, events[i]);
        d.append(&mut di);
        i = i + 1;
        proof {
            let pre = events@.take(i - 1);
            let cur = events@.take(i as int);
            assert(cur.drop_last() =~= pre);
            assert(cur.last() == events@[i - 1]);
        }
    }
    proof {
        assert(events@.take(events@.len() as int) =~= events@);
    }
    d
}

/// One whole input pass of a frame: refresh the absolute pointer position
/// first, then classify the frame's pending events in order. Returns every
/// dispatch of the pass, concatenated in dispatch order.
pub fn process_frame(
    ctx: &mut Context,
    mouse_x: i32,
    mouse_y: i32,
    events: &Vec<Event>,
) -> (d: Vec<(KeyAction, KeyActionType)>)
    requires
        old(ctx).wf(),
    ensures
        final(ctx).wf(),
        final(ctx)@ == steps(
            ContextView { mouse: (mouse_x, mouse_y), ..old(ctx)@ },
            events@,
        ),
        d@ == dispatches_seq(ContextView { mouse: (mouse_x, mouse_y), ..old(ctx)@ }, events@),
{
    ctx.set_mouse_state(mouse_x, mouse_y);
    process_events(ctx, events)
}

/// A keyboard event that carries a key state change: a key-down of anything
/// but the escape key, or a key-up.
pub open spec fn is_key_event(e: Event) -> bool {
    match e {
        Event::KeyDown { code, repeat } => code != KEY_ESCAPE,
        Event::KeyUp { .. } => true,
        _ => false,
    }
}

/// Whether the most recent event of the burst concerning key `k` is a
/// key-down.
pub open spec fn ends_down(events: Seq<Event>, k: i32) -> bool
    decreases events.len(),
{
    if events.len() == 0 {
        false
    } else {
        match events.last() {
            Event::KeyDown { code, repeat } => if code == k {
                true
            } else {
                ends_down(events.drop_last(), k)
            },
            Event::KeyUp { code } => if code == k {
                false
            } else {
                ends_down(events.drop_last(), k)
            },
            _ => ends_down(events.drop_last(), k),
        }
    }
}

/// Replaying any lossless burst of key-down and key-up events from a fresh
/// context leaves exactly those keys held whose most recent event is a
/// key-down.
pub proof fn lemma_key_state_replay(v: ContextView, events: Seq<Event>, k: i32)
    requires
        v.keys == Set::<i32>::empty(),
        forall|i: int| 0 <= i < events.len() ==> is_key_event(#[trigger] events[i]),
    ensures
        steps(v, events).keys.contains(k) <==> ends_down(events, k),
    decreases events.len(),
{
    if events.len() == 0 {
    } else {
        let prefix = events.drop_last();
        assert(forall|i: int| 0 <= i < prefix.len() ==> is_key_event(#[trigger] prefix[i]));
        lemma_key_state_replay(v, prefix, k);
        assert(is_key_event(events.last()));
    }
}

/// `closed` is monotonic: once a context is closed, no later event reopens
/// it.
pub proof fn lemma_closed_monotonic(v: ContextView, events: Seq<Event>)
    requires
        v.closed,
    ensures
        steps(v, events).closed,
    decreases events.len(),
{
    if events.len() == 0 {
    } else {
        lemma_closed_monotonic(v, events.drop_last());
    }
}

/// Closing is idempotent and order-independent: a quit event and an escape
/// key-down, in either order, leave the context closed with everything else
/// untouched, and dispatch nothing.
pub proof fn lemma_close_idempotent(v: ContextView, repeat: bool)
    ensures
        steps(v, seq![Event::Quit, Event::KeyDown { code: KEY_ESCAPE, repeat }]) == (ContextView {
            closed: true,
            ..v
        }),
        steps(v, seq![Event::KeyDown { code: KEY_ESCAPE, repeat }, Event::Quit]) == (ContextView {
            closed: true,
            ..v
        }),
        dispatches_seq(v, seq![Event::Quit, Event::KeyDown { code: KEY_ESCAPE, repeat }]) == Seq::<
            (KeyAction, KeyActionType),
        >::empty(),
        dispatches_seq(v, seq![Event::KeyDown { code: KEY_ESCAPE, repeat }, Event::Quit]) == Seq::<
            (KeyAction, KeyActionType),
        >::empty(),
{
    reveal_with_fuel(steps, 3);
    reveal_with_fuel(dispatches_seq, 3);
    let esc = Event::KeyDown { code: KEY_ESCAPE, repeat };
    let qe = seq![Event::Quit, esc];
    let eq = seq![esc, Event::Quit];
    assert(qe.last() == esc);
    assert(eq.last() == Event::Quit);
    assert(seq![Event::Quit].last() == Event::Quit);
    assert(seq![esc].last() == esc);
    assert(qe.drop_last() == seq![Event::Quit]) by {
        assert(qe.drop_last() =~= seq![Event::Quit]);
    }
    assert(eq.drop_last() == seq![esc]) by {
        assert(eq.drop_last() =~= seq![esc]);
    }
    assert(seq![Event::Quit].drop_last() == Seq::<Event>::empty()) by {
        assert(seq![Event::Quit].drop_last() =~= Seq::<Event>::empty());
    }
    assert(seq![esc].drop_last() == Seq::<Event>::empty()) by {
        assert(seq![esc].drop_last() =~= Seq::<Event>::empty());
    }
    assert(steps(v, seq![Event::Quit]) == step(v, Event::Quit));
    assert(steps(v, seq![esc]) == step(v, esc));
    assert(steps(v, qe) == step(step(v, Event::Quit), esc));
    assert(steps(v, eq) == step(step(v, esc), Event::Quit));
    assert(steps(v, qe) =~= (ContextView { closed: true, ..v }));
    assert(steps(v, eq) =~= (ContextView { closed: true, ..v }));
    assert(dispatches_seq(v, seq![Event::Quit]) =~= Seq::<(KeyAction, KeyActionType)>::empty());
    assert(dispatches_seq(v, seq![esc]) =~= Seq::<(KeyAction, KeyActionType)>::empty());
    assert(dispatches_seq(v, qe) =~= Seq::<(KeyAction, KeyActionType)>::empty());
    assert(dispatches_seq(v, eq) =~= Seq::<(KeyAction, KeyActionType)>::empty());
}

/// What a key-down dispatches, case by case. A fresh press dispatches
/// exactly one primary action with `KeyJustPressed`, preceded by the debug
/// action when the modifier is held; a repeated press dispatches only the
/// debug action with `KeyDown` when the modifier is held, and nothing at all
/// otherwise — a repeat never dispatches with `KeyJustPressed`.
pub proof fn lemma_key_down_dispatch(v: ContextView, code: i32, repeat: bool)
    requires
        code != KEY_ESCAPE,
    ensures
        ({
            let d = dispatches(v, Event::KeyDown { code, repeat });
            let modifier = v.keys.contains(KEY_LCTRL) || code == KEY_LCTRL;
            &&& (!repeat && modifier) ==> d =~= seq![
                (debug_action(code), KeyActionType::KeyJustPressed),
                (primary_action(code), KeyActionType::KeyJustPressed),
            ]
            &&& (!repeat && !modifier) ==> d =~= seq![
                (primary_action(code), KeyActionType::KeyJustPressed),
            ]
            &&& (repeat && modifier) ==> d =~= seq![(debug_action(code), KeyActionType::KeyDown)]
            &&& (repeat && !modifier) ==> d =~= Seq::<(KeyAction, KeyActionType)>::empty()
            &&& forall|i: int|
                0 <= i < d.len() ==> (#[trigger] d[i].1) == (if repeat {
                    KeyActionType::KeyDown
                } else {
                    KeyActionType::KeyJustPressed
                })
        }),
{
    assert(v.keys.insert(code).contains(KEY_LCTRL) <==> (v.keys.contains(KEY_LCTRL) || code
        == KEY_LCTRL));
}

/// Mouse motion while the primary mouse button's pseudo-key is held always
/// dispatches a drag, never a plain motion.
pub proof fn lemma_drag_motion(v: ContextView, x: i32, y: i32)
    ensures
        v.keys.contains(PSEUDO_MOUSE_LEFT) ==> dispatches(v, Event::MouseMotion { x, y }) =~= seq![
            (KeyAction::MouseDragged(x, y), KeyActionType::AxisMotion),
        ],
        !v.keys.contains(PSEUDO_MOUSE_LEFT) ==> dispatches(v, Event::MouseMotion { x, y }) =~= seq![
            (KeyAction::MouseMotion(x, y), KeyActionType::AxisMotion),
        ],
{
}

} // verus!
