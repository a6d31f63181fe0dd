use bot_core::handle::Handle;
use bot_core::message::Message;
use bot_core::options_menu::{
    control_button, index_to_shadow_map_size, is_offered_video_mode, shadows_quality,
    ControlButton, ControlScheme, GuiMessage, InputEvent, MenuAction, MessageDirection,
    MouseButton, OptionsMenu, QualitySettings, Rebinding, ShadowMapPrecision, UiMessageData,
    WidgetUpdate,
};

fn widget(n: u64) -> Handle {
    Handle { index: n, generation: 1 }
}

fn menu() -> OptionsMenu {
    OptionsMenu {
        window: widget(1),
        sound_volume: widget(2),
        music_volume: widget(3),
        video_mode: widget(4),
        spot_shadows: widget(5),
        soft_spot_shadows: widget(6),
        point_shadows: widget(7),
        soft_point_shadows: widget(8),
        point_shadow_distance: widget(9),
        spot_shadow_distance: widget(10),
        use_light_scatter: widget(11),
        fxaa: widget(12),
        ssao: widget(13),
        available_video_modes: 3,
        control_scheme_buttons: vec![widget(30), widget(31), widget(32)],
        active_control_button: None,
        mouse_sens: widget(14),
        mouse_y_inverse: widget(15),
        reset_control_scheme: widget(16),
        use_hrtf: widget(17),
        reset_audio_settings: widget(18),
        point_shadows_quality: widget(19),
        spot_shadows_quality: widget(20),
    }
}

fn settings() -> QualitySettings {
    QualitySettings {
        point_shadow_map_size: 1024,
        point_soft_shadows: true,
        point_shadows_enabled: true,
        point_shadows_distance: 15_000,
        point_shadow_map_precision: ShadowMapPrecision::Full,
        spot_shadow_map_size: 1024,
        spot_soft_shadows: true,
        spot_shadows_enabled: true,
        spot_shadows_distance: 15_000,
        spot_shadow_map_precision: ShadowMapPrecision::Full,
        use_ssao: true,
        ssao_radius: 500,
        light_scatter_enabled: true,
        fxaa: true,
    }
}

fn scheme() -> ControlScheme {
    ControlScheme {
        buttons: vec![ControlButton::Key(10), ControlButton::Key(11), ControlButton::Mouse(1)],
        mouse_sens: 500,
        mouse_y_inverse: false,
    }
}

fn from_widget(destination: Handle, data: UiMessageData) -> GuiMessage {
    GuiMessage { destination, direction: MessageDirection::FromWidget, data }
}

#[test]
fn shadows_quality_by_map_size() {
    assert_eq!(shadows_quality(0), 0);
    assert_eq!(shadows_quality(255), 0);
    assert_eq!(shadows_quality(256), 1);
    assert_eq!(shadows_quality(511), 1);
    assert_eq!(shadows_quality(512), 2);
    assert_eq!(shadows_quality(1023), 2);
    assert_eq!(shadows_quality(1024), 3);
    assert_eq!(shadows_quality(usize::MAX), 3);
}

#[test]
fn shadow_map_size_by_index() {
    assert_eq!(index_to_shadow_map_size(0), 256);
    assert_eq!(index_to_shadow_map_size(1), 512);
    assert_eq!(index_to_shadow_map_size(2), 1024);
    assert_eq!(index_to_shadow_map_size(3), 2048);
    assert_eq!(index_to_shadow_map_size(4), 2048);
    assert_eq!(index_to_shadow_map_size(usize::MAX), 2048);
}

#[test]
fn only_large_true_colour_modes_are_offered() {
    assert!(is_offered_video_mode(1024, 768, 32));
    assert!(!is_offered_video_mode(800, 768, 32));
    assert!(!is_offered_video_mode(1024, 600, 32));
    assert!(!is_offered_video_mode(1024, 768, 24));
    assert!(is_offered_video_mode(801, 601, 32));
}

#[test]
fn input_events_stand_for_buttons() {
    assert_eq!(control_button(InputEvent::MouseWheel { lines: 1000 }), Some(ControlButton::WheelUp));
    assert_eq!(control_button(InputEvent::MouseWheel { lines: -1 }), Some(ControlButton::WheelDown));
    assert_eq!(control_button(InputEvent::MouseWheel { lines: 0 }), None);
    assert_eq!(
        control_button(InputEvent::KeyboardInput { virtual_keycode: Some(42) }),
        Some(ControlButton::Key(42))
    );
    assert_eq!(control_button(InputEvent::KeyboardInput { virtual_keycode: None }), None);
    assert_eq!(
        control_button(InputEvent::MouseInput { button: MouseButton::Left }),
        Some(ControlButton::Mouse(1))
    );
    assert_eq!(
        control_button(InputEvent::MouseInput { button: MouseButton::Right }),
        Some(ControlButton::Mouse(2))
    );
    assert_eq!(
        control_button(InputEvent::MouseInput { button: MouseButton::Middle }),
        Some(ControlButton::Mouse(3))
    );
    assert_eq!(
        control_button(InputEvent::MouseInput { button: MouseButton::Other(9) }),
        Some(ControlButton::Mouse(9))
    );
    assert_eq!(control_button(InputEvent::Other), None);
}

#[test]
fn waiting_control_takes_the_next_button() {
    let mut m = menu();
    let mut s = scheme();
    m.active_control_button = Some(1);
    // An event that stands for no button leaves the control waiting.
    assert_eq!(m.process_input_event(InputEvent::Other, &mut s), None);
    assert_eq!(m.active_control_button, Some(1));
    let r = m.process_input_event(InputEvent::MouseWheel { lines: -3000 }, &mut s);
    assert_eq!(
        r,
        Some(Rebinding { control: 1, widget: widget(31), button: ControlButton::WheelDown })
    );
    assert_eq!(m.active_control_button, None);
    assert_eq!(
        s.buttons,
        vec![ControlButton::Key(10), ControlButton::WheelDown, ControlButton::Mouse(1)]
    );
    assert_eq!(s.mouse_sens, 500);
}

#[test]
fn event_without_a_button_changes_nothing_whatever_control_waits() {
    // The waiting control has neither a widget nor a binding.
    let mut m = menu();
    m.active_control_button = Some(7);
    let mut s = scheme();
    for event in [
        InputEvent::Other,
        InputEvent::MouseWheel { lines: 0 },
        InputEvent::KeyboardInput { virtual_keycode: None },
    ] {
        assert_eq!(m.process_input_event(event, &mut s), None);
        assert_eq!(m.active_control_button, Some(7));
        assert_eq!(s.buttons, scheme().buttons);
        assert_eq!(s.mouse_sens, 500);
        assert!(!s.mouse_y_inverse);
    }
}

#[test]
fn input_without_a_waiting_control_binds_nothing() {
    let mut m = menu();
    let mut s = scheme();
    let r = m.process_input_event(InputEvent::KeyboardInput { virtual_keycode: Some(1) }, &mut s);
    assert_eq!(r, None);
    assert_eq!(s.buttons, scheme().buttons);
}

#[test]
fn scroll_bars_set_what_they_stand_for() {
    let mut m = menu();
    let mut s = scheme();
    let out = m.handle_ui_event(
        &from_widget(widget(2), UiMessageData::ScrollBarValue(750)),
        settings(),
        &mut s,
    );
    assert_eq!(out.actions, vec![MenuAction::SetMasterGain(750)]);
    assert!(out.changed);
    assert_eq!(out.settings, settings());

    let out = m.handle_ui_event(
        &from_widget(widget(9), UiMessageData::ScrollBarValue(7_250)),
        settings(),
        &mut s,
    );
    assert_eq!(out.settings, QualitySettings { point_shadows_distance: 7_250, ..settings() });
    assert!(out.changed && out.actions.is_empty());

    let out = m.handle_ui_event(
        &from_widget(widget(10), UiMessageData::ScrollBarValue(1_000)),
        settings(),
        &mut s,
    );
    assert_eq!(out.settings, QualitySettings { spot_shadows_distance: 1_000, ..settings() });

    let out = m.handle_ui_event(
        &from_widget(widget(14), UiMessageData::ScrollBarValue(1_950)),
        settings(),
        &mut s,
    );
    assert_eq!(s.mouse_sens, 1_950);
    assert!(out.changed);
    assert_eq!(out.settings, settings());

    let out = m.handle_ui_event(
        &from_widget(widget(3), UiMessageData::ScrollBarValue(125)),
        settings(),
        &mut s,
    );
    assert_eq!(
        out.actions,
        vec![MenuAction::Send(Message::SetMusicVolume { volume: 125 })]
    );
    assert!(out.changed);
}

#[test]
fn scroll_bar_messages_to_the_widget_are_ignored() {
    let mut m = menu();
    let mut s = scheme();
    let message = GuiMessage {
        destination: widget(2),
        direction: MessageDirection::ToWidget,
        data: UiMessageData::ScrollBarValue(750),
    };
    let out = m.handle_ui_event(&message, settings(), &mut s);
    assert!(out.actions.is_empty());
    assert!(!out.changed);
    assert_eq!(out.settings, settings());
}

#[test]
fn unknown_widgets_change_nothing() {
    let mut m = menu();
    let mut s = scheme();
    for data in [
        UiMessageData::ScrollBarValue(1),
        UiMessageData::DropdownSelectionChanged(Some(1)),
        UiMessageData::CheckBoxChecked(Some(false)),
        UiMessageData::ButtonClick,
        UiMessageData::Other,
    ] {
        let out = m.handle_ui_event(&from_widget(widget(99), data), settings(), &mut s);
        assert!(out.actions.is_empty());
        assert!(!out.changed);
        assert_eq!(out.settings, settings());
    }
    assert_eq!(m.active_control_button, None);
    assert_eq!(s.mouse_sens, 500);
    assert!(!s.mouse_y_inverse);
}

#[test]
fn video_mode_list_starts_with_the_windowed_mode() {
    let mut m = menu();
    let mut s = scheme();
    for (index, mode) in [(0, None), (1, Some(0)), (3, Some(2)), (4, None), (usize::MAX, None)] {
        let out = m.handle_ui_event(
            &from_widget(widget(4), UiMessageData::DropdownSelectionChanged(Some(index))),
            settings(),
            &mut s,
        );
        assert_eq!(out.actions, vec![MenuAction::SetFullscreen(mode)]);
        assert!(out.changed);
    }
    let out = m.handle_ui_event(
        &from_widget(widget(4), UiMessageData::DropdownSelectionChanged(None)),
        settings(),
        &mut s,
    );
    assert!(out.actions.is_empty() && !out.changed);
}

#[test]
fn shadow_quality_sets_size_and_precision() {
    let mut m = menu();
    let mut s = scheme();
    let out = m.handle_ui_event(
        &from_widget(widget(20), UiMessageData::DropdownSelectionChanged(Some(0))),
        settings(),
        &mut s,
    );
    assert_eq!(
        out.settings,
        QualitySettings {
            spot_shadow_map_size: 256,
            spot_shadow_map_precision: ShadowMapPrecision::Half,
            ..settings()
        }
    );
    assert!(out.changed);
    let out = m.handle_ui_event(
        &from_widget(widget(19), UiMessageData::DropdownSelectionChanged(Some(3))),
        out.settings,
        &mut s,
    );
    assert_eq!(
        out.settings,
        QualitySettings {
            spot_shadow_map_size: 256,
            spot_shadow_map_precision: ShadowMapPrecision::Half,
            point_shadow_map_size: 2048,
            point_shadow_map_precision: ShadowMapPrecision::Full,
            ..settings()
        }
    );
}

#[test]
fn check_boxes_set_their_switches() {
    let mut m = menu();
    let mut s = scheme();
    let off = UiMessageData::CheckBoxChecked(Some(false));
    let cases = [
        (7, QualitySettings { point_shadows_enabled: false, ..settings() }),
        (5, QualitySettings { spot_shadows_enabled: false, ..settings() }),
        (6, QualitySettings { spot_soft_shadows: false, ..settings() }),
        (8, QualitySettings { point_soft_shadows: false, ..settings() }),
        (11, QualitySettings { light_scatter_enabled: false, ..settings() }),
        (12, QualitySettings { fxaa: false, ..settings() }),
        (13, QualitySettings { use_ssao: false, ..settings() }),
    ];
    for (w, expected) in cases {
        let out = m.handle_ui_event(&from_widget(widget(w), off), settings(), &mut s);
        assert_eq!(out.settings, expected);
        assert!(out.changed);
        assert!(out.actions.is_empty());
    }
    let out = m.handle_ui_event(
        &from_widget(widget(15), UiMessageData::CheckBoxChecked(Some(true))),
        settings(),
        &mut s,
    );
    assert!(s.mouse_y_inverse);
    assert!(out.changed);
    assert_eq!(out.settings, settings());
}

#[test]
fn undetermined_check_box_counts_as_unchecked() {
    let mut m = menu();
    let mut s = scheme();
    let out = m.handle_ui_event(
        &from_widget(widget(12), UiMessageData::CheckBoxChecked(None)),
        settings(),
        &mut s,
    );
    assert_eq!(out.settings, QualitySettings { fxaa: false, ..settings() });
}

#[test]
fn reset_buttons_reset_and_sync() {
    let mut m = menu();
    let mut s = scheme();
    let out = m.handle_ui_event(&from_widget(widget(16), UiMessageData::ButtonClick), settings(), &mut s);
    assert_eq!(out.actions, vec![MenuAction::ResetControlScheme, MenuAction::SyncToModel]);
    assert!(out.changed);
    let out = m.handle_ui_event(&from_widget(widget(18), UiMessageData::ButtonClick), settings(), &mut s);
    assert_eq!(out.actions, vec![MenuAction::SetMasterGain(1000), MenuAction::SyncToModel]);
    assert!(out.changed);
    assert_eq!(m.active_control_button, None);
}

#[test]
fn clicked_control_waits_for_input() {
    let mut m = menu();
    let mut s = scheme();
    let out = m.handle_ui_event(&from_widget(widget(31), UiMessageData::ButtonClick), settings(), &mut s);
    assert_eq!(out.actions, vec![MenuAction::ShowWaitingInput(widget(31))]);
    assert!(!out.changed);
    assert_eq!(m.active_control_button, Some(1));
    // Another click moves the wait.
    m.handle_ui_event(&from_widget(widget(30), UiMessageData::ButtonClick), settings(), &mut s);
    assert_eq!(m.active_control_button, Some(0));
    // A click elsewhere leaves it.
    m.handle_ui_event(&from_widget(widget(99), UiMessageData::ButtonClick), settings(), &mut s);
    assert_eq!(m.active_control_button, Some(0));
}

#[test]
fn widget_shared_by_controls_makes_the_last_wait() {
    let mut m = menu();
    m.control_scheme_buttons = vec![widget(30), widget(31), widget(30)];
    let mut s = scheme();
    let out = m.handle_ui_event(&from_widget(widget(30), UiMessageData::ButtonClick), settings(), &mut s);
    assert_eq!(
        out.actions,
        vec![MenuAction::ShowWaitingInput(widget(30)), MenuAction::ShowWaitingInput(widget(30))]
    );
    assert_eq!(m.active_control_button, Some(2));
}

#[test]
fn sync_lists_every_widget_in_order() {
    let m = menu();
    let mut q = settings();
    q.use_ssao = false;
    q.spot_soft_shadows = false;
    q.point_shadows_distance = 4_000;
    let updates = m.sync_to_model(&q, &scheme(), true, 800);
    let check = |w: u64, checked: bool| WidgetUpdate::CheckBox { widget: widget(w), checked };
    let scroll = |w: u64, value: u32| WidgetUpdate::ScrollBar { widget: widget(w), value };
    let text = |w: u64, button: ControlButton| WidgetUpdate::ButtonText { widget: widget(w), button };
    assert_eq!(
        updates,
        vec![
            check(5, true),
            check(6, false),
            check(7, true),
            check(8, true),
            check(11, true),
            check(13, false),
            check(12, true),
            check(15, false),
            check(17, true),
            scroll(9, 4_000),
            scroll(10, 15_000),
            scroll(14, 500),
            scroll(2, 800),
            text(30, ControlButton::Key(10)),
            text(31, ControlButton::Key(11)),
            text(32, ControlButton::Mouse(1)),
        ]
    );
}

#[test]
fn sync_pairs_widgets_and_bindings_as_far_as_both_go() {
    let mut m = menu();
    let mut s = scheme();
    s.buttons.pop();
    assert_eq!(m.sync_to_model(&settings(), &s, false, 0).len(), 13 + 2);
    m.control_scheme_buttons = vec![widget(30)];
    assert_eq!(m.sync_to_model(&settings(), &scheme(), false, 0).len(), 13 + 1);
    m.control_scheme_buttons = vec![];
    assert_eq!(m.sync_to_model(&settings(), &scheme(), false, 0).len(), 13);
}
