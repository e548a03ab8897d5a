use gameloop::context::Context;
use gameloop::input::{
    map_mouse_button, map_to_debug_key, map_to_key_action, process_event, process_events,
    process_frame, Event,
    KeyAction, KeyActionType, MouseBtn, KEY_1, KEY_2, KEY_3, KEY_A, KEY_D, KEY_EQUALS, KEY_ESCAPE,
    KEY_F1, KEY_LCTRL, KEY_MINUS, KEY_S, KEY_SPACE, KEY_W, PSEUDO_MOUSE_LEFT, PSEUDO_MOUSE_OTHER,
};

#[test]
fn fresh_press_and_release_of_w() {
    let mut ctx = Context::new(0);
    let d = process_event(
        &mut ctx,
        Event::KeyDown {
            code: KEY_W,
            repeat: false,
        },
    );
    assert_eq!(d, vec![(KeyAction::Up, KeyActionType::KeyJustPressed)]);
    assert!(ctx.get_key(KEY_W));
    assert_eq!(ctx.held_key_count(), 1);
    assert!(!ctx.is_closed());

    let d = process_event(&mut ctx, Event::KeyUp { code: KEY_W });
    assert_eq!(d, vec![(KeyAction::Up, KeyActionType::KeyUp)]);
    assert!(!ctx.get_key(KEY_W));
    assert_eq!(ctx.held_key_count(), 0);
}

#[test]
fn modifier_held_number_key_dispatches_debug_then_primary() {
    let mut ctx = Context::new(0);
    process_event(
        &mut ctx,
        Event::KeyDown {
            code: KEY_LCTRL,
            repeat: false,
        },
    );
    let d = process_event(
        &mut ctx,
        Event::KeyDown {
            code: KEY_1,
            repeat: false,
        },
    );
    assert_eq!(
        d,
        vec![
            (KeyAction::DebugKey1, KeyActionType::KeyJustPressed),
            (KeyAction::Key(KEY_1), KeyActionType::KeyJustPressed),
        ]
    );
}

#[test]
fn repeat_with_modifier_dispatches_only_debug() {
    let mut ctx = Context::new(0);
    process_event(
        &mut ctx,
        Event::KeyDown {
            code: KEY_LCTRL,
            repeat: false,
        },
    );
    let d = process_event(
        &mut ctx,
        Event::KeyDown {
            code: KEY_2,
            repeat: true,
        },
    );
    assert_eq!(d, vec![(KeyAction::DebugKey2, KeyActionType::KeyDown)]);
}

#[test]
fn repeat_without_modifier_dispatches_nothing() {
    let mut ctx = Context::new(0);
    process_event(
        &mut ctx,
        Event::KeyDown {
            code: KEY_W,
            repeat: false,
        },
    );
    let d = process_event(
        &mut ctx,
        Event::KeyDown {
            code: KEY_W,
            repeat: true,
        },
    );
    assert_eq!(d, vec![]);
    assert_eq!(ctx.held_key_count(), 1);
}

#[test]
fn pressing_the_modifier_itself_opens_the_debug_channel() {
    let mut ctx = Context::new(0);
    let d = process_event(
        &mut ctx,
        Event::KeyDown {
            code: KEY_LCTRL,
            repeat: false,
        },
    );
    assert_eq!(
        d,
        vec![
            (KeyAction::DebugKey(KEY_LCTRL), KeyActionType::KeyJustPressed),
            (KeyAction::Key(KEY_LCTRL), KeyActionType::KeyJustPressed),
        ]
    );
}

#[test]
fn quit_then_escape_closes_idempotently() {
    let mut ctx = Context::new(0);
    let d = process_event(&mut ctx, Event::Quit);
    assert_eq!(d, vec![]);
    assert!(ctx.is_closed());
    let d = process_event(
        &mut ctx,
        Event::KeyDown {
            code: KEY_ESCAPE,
            repeat: false,
        },
    );
    assert_eq!(d, vec![]);
    assert!(ctx.is_closed());
    assert_eq!(ctx.held_key_count(), 0);
}

#[test]
fn escape_then_quit_closes_idempotently() {
    let mut ctx = Context::new(0);
    let d = process_event(
        &mut ctx,
        Event::KeyDown {
            code: KEY_ESCAPE,
            repeat: false,
        },
    );
    assert_eq!(d, vec![]);
    assert!(ctx.is_closed());
    let d = process_event(&mut ctx, Event::Quit);
    assert_eq!(d, vec![]);
    assert!(ctx.is_closed());
}

#[test]
fn escape_key_down_records_no_held_key() {
    let mut ctx = Context::new(0);
    process_event(
        &mut ctx,
        Event::KeyDown {
            code: KEY_ESCAPE,
            repeat: false,
        },
    );
    assert!(!ctx.get_key(KEY_ESCAPE));
    assert_eq!(ctx.held_key_count(), 0);
}

#[test]
fn motion_while_left_button_held_is_a_drag() {
    let mut ctx = Context::new(0);
    process_event(&mut ctx, Event::MouseButtonDown { btn: MouseBtn::Left });
    let d = process_event(&mut ctx, Event::MouseMotion { x: 7, y: -3 });
    assert_eq!(
        d,
        vec![(KeyAction::MouseDragged(7, -3), KeyActionType::AxisMotion)]
    );
}

#[test]
fn motion_without_button_is_plain_motion() {
    let mut ctx = Context::new(0);
    let d = process_event(&mut ctx, Event::MouseMotion { x: 4, y: 5 });
    assert_eq!(
        d,
        vec![(KeyAction::MouseMotion(4, 5), KeyActionType::AxisMotion)]
    );
}

#[test]
fn mouse_button_down_and_up_track_the_pseudo_key() {
    let mut ctx = Context::new(0);
    let d = process_event(&mut ctx, Event::MouseButtonDown { btn: MouseBtn::Left });
    assert_eq!(
        d,
        vec![(
            KeyAction::MouseButton(MouseBtn::Left),
            KeyActionType::BtnJustPressed
        )]
    );
    assert!(ctx.get_key(PSEUDO_MOUSE_LEFT));
    let d = process_event(&mut ctx, Event::MouseButtonUp { btn: MouseBtn::Left });
    assert_eq!(
        d,
        vec![(KeyAction::MouseButton(MouseBtn::Left), KeyActionType::BtnUp)]
    );
    assert!(!ctx.get_key(PSEUDO_MOUSE_LEFT));
    // A drag after release degrades to plain motion again.
    let d = process_event(&mut ctx, Event::MouseMotion { x: 1, y: 2 });
    assert_eq!(
        d,
        vec![(KeyAction::MouseMotion(1, 2), KeyActionType::AxisMotion)]
    );
}

#[test]
fn secondary_mouse_buttons_share_the_other_pseudo_key() {
    let mut ctx = Context::new(0);
    process_event(
        &mut ctx,
        Event::MouseButtonDown {
            btn: MouseBtn::Right,
        },
    );
    assert!(ctx.get_key(PSEUDO_MOUSE_OTHER));
    assert!(!ctx.get_key(PSEUDO_MOUSE_LEFT));
}

#[test]
fn wheel_dispatches_axis_motion() {
    let mut ctx = Context::new(0);
    let d = process_event(&mut ctx, Event::MouseWheel { delta: -2 });
    assert_eq!(d, vec![(KeyAction::MouseWheel(-2), KeyActionType::AxisMotion)]);
}

#[test]
fn unknown_events_are_ignored() {
    let mut ctx = Context::new(0);
    let d = process_event(&mut ctx, Event::Other);
    assert_eq!(d, vec![]);
    assert!(!ctx.is_closed());
    assert_eq!(ctx.held_key_count(), 0);
}

#[test]
fn repeated_down_of_same_key_is_idempotent() {
    let mut ctx = Context::new(0);
    process_event(
        &mut ctx,
        Event::KeyDown {
            code: KEY_A,
            repeat: false,
        },
    );
    process_event(
        &mut ctx,
        Event::KeyDown {
            code: KEY_A,
            repeat: true,
        },
    );
    assert_eq!(ctx.held_key_count(), 1);
}

#[test]
fn primary_mapping_table() {
    assert_eq!(map_to_key_action(KEY_SPACE), KeyAction::Accept);
    assert_eq!(map_to_key_action(KEY_D), KeyAction::Right);
    assert_eq!(map_to_key_action(KEY_A), KeyAction::Left);
    assert_eq!(map_to_key_action(KEY_W), KeyAction::Up);
    assert_eq!(map_to_key_action(KEY_S), KeyAction::Down);
    assert_eq!(map_to_key_action(KEY_F1), KeyAction::Key(KEY_F1));
    assert_eq!(map_to_key_action(120), KeyAction::Key(120));
}

#[test]
fn debug_mapping_table() {
    assert_eq!(map_to_debug_key(KEY_1), KeyAction::DebugKey1);
    assert_eq!(map_to_debug_key(KEY_2), KeyAction::DebugKey2);
    assert_eq!(map_to_debug_key(KEY_3), KeyAction::DebugKey3);
    assert_eq!(map_to_debug_key(KEY_EQUALS), KeyAction::DebugPlus);
    assert_eq!(map_to_debug_key(KEY_MINUS), KeyAction::DebugMinus);
    assert_eq!(map_to_debug_key(KEY_F1), KeyAction::DebugToggle);
    assert_eq!(map_to_debug_key(KEY_W), KeyAction::DebugKey(KEY_W));
}

#[test]
fn mouse_button_mapping() {
    assert_eq!(map_mouse_button(MouseBtn::Left), PSEUDO_MOUSE_LEFT);
    assert_eq!(map_mouse_button(MouseBtn::Middle), PSEUDO_MOUSE_OTHER);
    assert_eq!(map_mouse_button(MouseBtn::Right), PSEUDO_MOUSE_OTHER);
    assert_eq!(map_mouse_button(MouseBtn::X1), PSEUDO_MOUSE_OTHER);
    assert_eq!(map_mouse_button(MouseBtn::X2), PSEUDO_MOUSE_OTHER);
    assert_eq!(map_mouse_button(MouseBtn::Unknown), PSEUDO_MOUSE_OTHER);
}

#[test]
fn replay_leaves_exactly_the_keys_whose_last_event_is_down() {
    let mut ctx = Context::new(0);
    let burst = vec![
        Event::KeyDown {
            code: KEY_W,
            repeat: false,
        },
        Event::KeyDown {
            code: KEY_A,
            repeat: false,
        },
        Event::KeyUp { code: KEY_W },
        Event::KeyDown {
            code: KEY_S,
            repeat: false,
        },
        Event::KeyUp { code: KEY_S },
        Event::KeyDown {
            code: KEY_S,
            repeat: true,
        },
    ];
    let d = process_events(&mut ctx, &burst);
    assert!(!ctx.get_key(KEY_W));
    assert!(ctx.get_key(KEY_A));
    assert!(ctx.get_key(KEY_S));
    assert_eq!(ctx.held_key_count(), 2);
    // Dispatches of the burst, concatenated in order.
    assert_eq!(
        d,
        vec![
            (KeyAction::Up, KeyActionType::KeyJustPressed),
            (KeyAction::Left, KeyActionType::KeyJustPressed),
            (KeyAction::Up, KeyActionType::KeyUp),
            (KeyAction::Down, KeyActionType::KeyJustPressed),
            (KeyAction::Down, KeyActionType::KeyUp),
        ]
    );
}

#[test]
fn mouse_state_refresh() {
    let mut ctx = Context::new(0);
    ctx.set_mouse_state(11, 22);
    assert_eq!(ctx.mouse_state, (11, 22));
}

#[test]
fn frame_pass_refreshes_mouse_before_classifying() {
    let mut ctx = Context::new(0);
    // The motion event is classified against the refreshed pointer position
    // and the key state the earlier events of the same pass left behind.
    let burst = vec![
        Event::MouseButtonDown { btn: MouseBtn::Left },
        Event::MouseMotion { x: 9, y: 8 },
    ];
    let d = process_frame(&mut ctx, 30, 40, &burst);
    assert_eq!(ctx.mouse_state, (30, 40));
    assert_eq!(
        d,
        vec![
            (
                KeyAction::MouseButton(MouseBtn::Left),
                KeyActionType::BtnJustPressed
            ),
            (KeyAction::MouseDragged(9, 8), KeyActionType::AxisMotion),
        ]
    );
}
