//! The rules behind the options menu.

use crate::handle::Handle;
use crate::message::Message;
use vstd::prelude::*;

verus! {

/// How precisely a shadow map stores depth.
#[derive(Copy, Clone, PartialEq, Eq, Structural, Hash, Debug)]
pub enum ShadowMapPrecision {
    Half,
    Full,
}

/// The renderer's quality settings. Distances and the radius are in
/// millimetres.
#[derive(Copy, Clone, PartialEq, Eq, Structural, Debug)]
pub struct QualitySettings {
    pub point_shadow_map_size: usize,
    pub point_soft_shadows: bool,
    pub point_shadows_enabled: bool,
    pub point_shadows_distance: u32,
    pub point_shadow_map_precision: ShadowMapPrecision,
    pub spot_shadow_map_size: usize,
    pub spot_soft_shadows: bool,
    pub spot_shadows_enabled: bool,
    pub spot_shadows_distance: u32,
    pub spot_shadow_map_precision: ShadowMapPrecision,
    pub use_ssao: bool,
    pub ssao_radius: u32,
    pub light_scatter_enabled: bool,
    pub fxaa: bool,
}

/// Something a player can press to trigger an action.
#[derive(Copy, Clone, PartialEq, Eq, Structural, Hash, Debug)]
pub enum ControlButton {
    /// A mouse button, by its number.
    Mouse(u16),
    /// A key, by its code.
    Key(u32),
    WheelUp,
    WheelDown,
}

/// A button of the mouse.
#[derive(Copy, Clone, PartialEq, Eq, Structural, Hash, Debug)]
pub enum MouseButton {
    Left,
    Right,
    Middle,
    Other(u16),
}

/// What a window reports of the player's input, as far as the menu cares.
#[derive(Copy, Clone, PartialEq, Eq, Structural, Debug)]
pub enum InputEvent {
    /// The wheel was turned by so many thousandths of a line; forward is
    /// positive.
    MouseWheel { lines: i32 },
    /// A key changed its state. Not every key has a code.
    KeyboardInput { virtual_keycode: Option<u32> },
    /// A mouse button changed its state.
    MouseInput { button: MouseButton },
    /// Anything else.
    Other,
}

/// How the player steers.
#[derive(Clone, Debug)]
pub struct ControlScheme {
    /// The button bound to each action.
    pub buttons: Vec<ControlButton>,
    /// The mouse sensitivity, in thousandths.
    pub mouse_sens: u32,
    pub mouse_y_inverse: bool,
}

/// Which way a message travels.
#[derive(Copy, Clone, PartialEq, Eq, Structural, Hash, Debug)]
pub enum MessageDirection {
    ToWidget,
    FromWidget,
}

/// What a message of the user interface says.
#[derive(Copy, Clone, PartialEq, Eq, Structural, Debug)]
pub enum UiMessageData {
    /// A scroll bar stands at a value, in thousandths.
    ScrollBarValue(u32),
    /// Another entry of a drop-down list is selected, or none.
    DropdownSelectionChanged(Option<usize>),
    /// A check box is checked, unchecked, or undetermined.
    CheckBoxChecked(Option<bool>),
    ButtonClick,
    /// Anything else.
    Other,
}

/// A message of the user interface.
#[derive(Copy, Clone, PartialEq, Eq, Structural, Debug)]
pub struct GuiMessage {
    pub destination: Handle,
    pub direction: MessageDirection,
    pub data: UiMessageData,
}

/// Whether a display mode is offered in the menu: it must be larger than
/// 800 by 600 and have 32 bits of colour.
pub open spec fn spec_is_offered_video_mode(width: u32, height: u32, bit_depth: u16) -> bool {
    width > 800 && height > 600 && bit_depth == 32
}

pub fn is_offered_video_mode(width: u32, height: u32, bit_depth: u16) -> (r: bool)
    ensures
        r == spec_is_offered_video_mode(width, height, bit_depth),
{
    width > 800 && height > 600 && bit_depth == 32
}

/// The button that an input event stands for when a control is bound.
/// A wheel that did not turn, a key without a code and any other event
/// stand for none. Mouse buttons are numbered: left 1, right 2, middle 3,
/// others by their own number.
pub open spec fn spec_control_button(event: InputEvent) -> Option<ControlButton> {
    match event {
        InputEvent::MouseWheel { lines } => if lines > 0 {
            Some(ControlButton::WheelUp)
        } else if lines < 0 {
            Some(ControlButton::WheelDown)
        } else {
            None
        },
        InputEvent::KeyboardInput { virtual_keycode: Some(code) } => Some(ControlButton::Key(code)),
        InputEvent::KeyboardInput { virtual_keycode: None } => None,
        InputEvent::MouseInput { button } => Some(
            ControlButton::Mouse(
                match button {
                    MouseButton::Left => 1,
                    MouseButton::Right => 2,
                    MouseButton::Middle => 3,
                    MouseButton::Other(i) => i,
                },
            ),
        ),
        InputEvent::Other => None,
    }
}

pub fn control_button(event: InputEvent) -> (r: Option<ControlButton>)
    ensures
        r == spec_control_button(event),
{
    match event {
        InputEvent::MouseWheel { lines } => {
            if lines != 0 {
                if lines >= 0 {
                    Some(ControlButton::WheelUp)
                } else {
                    Some(ControlButton::WheelDown)
                }
            } else {
                None
            }
        },
        InputEvent::KeyboardInput { virtual_keycode } => match virtual_keycode {
            Some(code) => Some(ControlButton::Key(code)),
            None => None,
        },
        InputEvent::MouseInput { button } => {
            let index: u16 = match button {
                MouseButton::Left => 1,
                MouseButton::Right => 2,
                MouseButton::Middle => 3,
                MouseButton::Other(i) => i,
            };
            Some(ControlButton::Mouse(index))
        },
        InputEvent::Other => None,
    }
}

/// The quality level, from 0 to 3, that the menu shows for a shadow map of
/// the given size.
pub open spec fn spec_shadows_quality(size: int) -> int {
    if size < 256 {
        0
    } else if size < 512 {
        1
    } else if size < 1024 {
        2
    } else {
        3
    }
}

pub fn shadows_quality(size: usize) -> (quality: usize)
    ensures
        quality == spec_shadows_quality(size as int),
{
    if size < 256 {
        0
    } else if size < 512 {
        1
    } else if size < 1024 {
        2
    } else {
        3
    }
}

/// The size of the shadow map that the menu's quality entry `index` stands
/// for. Entries past the last stand for the largest map.
pub open spec fn spec_index_to_shadow_map_size(index: int) -> int {
    if index == 0 {
        256
    } else if index == 1 {
        512
    } else if index == 2 {
        1024
    } else {
        2048
    }
}

pub fn index_to_shadow_map_size(index: usize) -> (size: usize)
    ensures
        size == spec_index_to_shadow_map_size(index as int),
{
    match index {
        0 => 256,
        1 => 512,
        2 => 1024,
        _ => 2048,
    }
}

/// The options menu: the widgets it is made of and what it is doing.
#[derive(Clone, Debug)]
pub struct OptionsMenu {
    pub window: Handle,
    pub sound_volume: Handle,
    pub music_volume: Handle,
    pub video_mode: Handle,
    pub spot_shadows: Handle,
    pub soft_spot_shadows: Handle,
    pub point_shadows: Handle,
    pub soft_point_shadows: Handle,
    pub point_shadow_distance: Handle,
    pub spot_shadow_distance: Handle,
    pub use_light_scatter: Handle,
    pub fxaa: Handle,
    pub ssao: Handle,
    /// How many display modes the list offers besides the windowed one.
    pub available_video_modes: usize,
    /// The button widget of each bindable control.
    pub control_scheme_buttons: Vec<Handle>,
    /// The control that waits for the player to press its new button.
    pub active_control_button: Option<usize>,
    pub mouse_sens: Handle,
    pub mouse_y_inverse: Handle,
    pub reset_control_scheme: Handle,
    pub use_hrtf: Handle,
    pub reset_audio_settings: Handle,
    pub point_shadows_quality: Handle,
    pub spot_shadows_quality: Handle,
}

/// Something that the menu wants done outside itself.
#[derive(Copy, Clone, PartialEq, Eq, Structural, Debug)]
pub enum MenuAction {
    /// Set the master gain of the sound engine, in thousandths.
    SetMasterGain(u32),
    /// Send a message to the game.
    Send(Message),
    /// Go full screen in the offered display mode of the given index, or
    /// back into a window if none is given.
    SetFullscreen(Option<usize>),
    /// Put every control back to its default button.
    ResetControlScheme,
    /// Make the widgets show the settings as they are.
    SyncToModel,
    /// Make a button widget show that it waits for input.
    ShowWaitingInput(Handle),
}

/// Something that a widget is to show.
#[derive(Copy, Clone, PartialEq, Eq, Structural, Debug)]
pub enum WidgetUpdate {
    CheckBox { widget: Handle, checked: bool },
    /// The value is in thousandths.
    ScrollBar { widget: Handle, value: u32 },
    /// The name of the button goes onto the widget.
    ButtonText { widget: Handle, button: ControlButton },
}

/// What a message of the user interface does to the settings.
pub struct UiEventEffect {
    /// The quality settings after the message.
    pub settings: QualitySettings,
    /// What is to be done outside, in this order.
    pub actions: Seq<MenuAction>,
    /// Whether anything changed, so that the settings are worth saving.
    pub changed: bool,
    pub mouse_sens: u32,
    pub mouse_y_inverse: bool,
    pub active_control_button: Option<usize>,
}

/// What `handle_ui_event` hands back.
#[derive(Clone, Debug)]
pub struct UiEventOutcome {
    /// The quality settings to use from now on.
    pub settings: QualitySettings,
    /// What is to be done outside, in this order.
    pub actions: Vec<MenuAction>,
    /// Whether anything changed, so that the settings are worth saving.
    pub changed: bool,
}

/// How many of the widgets are `destination`.
pub open spec fn count_widget(widgets: Seq<Handle>, destination: Handle) -> nat
    decreases widgets.len(),
{
    if widgets.len() == 0 {
        0
    } else {
        count_widget(widgets.drop_last(), destination) + if widgets.last() == destination {
            1nat
        } else {
            0nat
        }
    }
}

/// The place of the last of the widgets that is `destination`.
pub open spec fn last_widget(widgets: Seq<Handle>, destination: Handle) -> Option<usize>
    decreases widgets.len(),
{
    if widgets.len() == 0 {
        None
    } else if widgets.last() == destination {
        Some((widgets.len() - 1) as usize)
    } else {
        last_widget(widgets.drop_last(), destination)
    }
}

/// The precision that goes with the quality entry `index`: half for the
/// lowest quality, full for the others.
pub open spec fn spec_precision_of(index: usize) -> ShadowMapPrecision {
    if index > 0 {
        ShadowMapPrecision::Full
    } else {
        ShadowMapPrecision::Half
    }
}

/// A control that was bound to a new button.
#[derive(Copy, Clone, PartialEq, Eq, Structural, Debug)]
pub struct Rebinding {
    /// Which control, by its place in the control scheme.
    pub control: usize,
    /// The widget that shows the control's button.
    pub widget: Handle,
    pub button: ControlButton,
}

impl OptionsMenu {
    /// The menu has a widget for every control that may be waiting.
    pub open spec fn wf(&self) -> bool {
        self.active_control_button matches Some(i) ==> i < self.control_scheme_buttons@.len()
    }

    /// What the widgets are to show so that they agree with the settings:
    /// first the nine check boxes, then the four scroll bars, then the
    /// button of every control that has both a widget and a binding.
    pub open spec fn spec_sync_to_model(
        &self,
        settings: QualitySettings,
        control_scheme: ControlScheme,
        is_hrtf: bool,
        master_gain: u32,
    ) -> Seq<WidgetUpdate> {
        let check = |widget: Handle, checked: bool| WidgetUpdate::CheckBox { widget, checked };
        let scroll = |widget: Handle, value: u32| WidgetUpdate::ScrollBar { widget, value };
        let controls = if self.control_scheme_buttons@.len() <= control_scheme.buttons@.len() {
            self.control_scheme_buttons@.len()
        } else {
            control_scheme.buttons@.len()
        };
        seq![
            check(self.spot_shadows, settings.spot_shadows_enabled),
            check(self.soft_spot_shadows, settings.spot_soft_shadows),
            check(self.point_shadows, settings.point_shadows_enabled),
            check(self.soft_point_shadows, settings.point_soft_shadows),
            check(self.use_light_scatter, settings.light_scatter_enabled),
            check(self.ssao, settings.use_ssao),
            check(self.fxaa, settings.fxaa),
            check(self.mouse_y_inverse, control_scheme.mouse_y_inverse),
            check(self.use_hrtf, is_hrtf),
            scroll(self.point_shadow_distance, settings.point_shadows_distance),
            scroll(self.spot_shadow_distance, settings.spot_shadows_distance),
            scroll(self.mouse_sens, control_scheme.mouse_sens),
            scroll(self.sound_volume, master_gain),
        ] + Seq::new(
            controls,
            |i: int|
                WidgetUpdate::ButtonText {
                    widget: self.control_scheme_buttons@[i],
                    button: control_scheme.buttons@[i],
                },
        )
    }

    /// Lists what the widgets are to show so that they agree with the
    /// settings. `is_hrtf` says whether sound is rendered for headphones,
    /// `master_gain` is the gain of the sound engine in thousandths.
    pub fn sync_to_model(
        &self,
        settings: &QualitySettings,
        control_scheme: &ControlScheme,
        is_hrtf: bool,
        master_gain: u32,
    ) -> (updates: Vec<WidgetUpdate>)
        ensures
            updates@ == self.spec_sync_to_model(*settings, *control_scheme, is_hrtf, master_gain),
    {
        let mut updates: Vec<WidgetUpdate> = Vec::new();
        updates.push(
            WidgetUpdate::CheckBox {
                widget: self.spot_shadows,
                checked: settings.spot_shadows_enabled,
            },
        );
        updates.push(
            WidgetUpdate::CheckBox {
                widget: self.soft_spot_shadows,
                checked: settings.spot_soft_shadows,
            },
        );
        updates.push(
            WidgetUpdate::CheckBox {
                widget: self.point_shadows,
                checked: settings.point_shadows_enabled,
            },
        );
        updates.push(
            WidgetUpdate::CheckBox {
                widget: self.soft_point_shadows,
                checked: settings.point_soft_shadows,
            },
        );
        updates.push(
            WidgetUpdate::CheckBox {
                widget: self.use_light_scatter,
                checked: settings.light_scatter_enabled,
            },
        );
        updates.push(WidgetUpdate::CheckBox { widget: self.ssao, checked: settings.use_ssao });
        updates.push(WidgetUpdate::CheckBox { widget: self.fxaa, checked: settings.fxaa });
        updates.push(
            WidgetUpdate::CheckBox {
                widget: self.mouse_y_inverse,
                checked: control_scheme.mouse_y_inverse,
            },
        );
        updates.push(WidgetUpdate::CheckBox { widget: self.use_hrtf, checked: is_hrtf });
        updates.push(
            WidgetUpdate::ScrollBar {
                widget: self.point_shadow_distance,
                value: settings.point_shadows_distance,
            },
        );
        updates.push(
            WidgetUpdate::ScrollBar {
                widget: self.spot_shadow_distance,
                value: settings.spot_shadows_distance,
            },
        );
        updates.push(
            WidgetUpdate::ScrollBar { widget: self.mouse_sens, value: control_scheme.mouse_sens },
        );
        updates.push(WidgetUpdate::ScrollBar { widget: self.sound_volume, value: master_gain });
        let ghost fixed = updates@;
        let mut i: usize = 0;
        while i < self.control_scheme_buttons.len() && i < control_scheme.buttons.len()
            invariant
                i <= self.control_scheme_buttons.len(),
                i <= control_scheme.buttons.len(),
                updates@ == fixed + Seq::new(
                    i as nat,
                    |j: int|
                        WidgetUpdate::ButtonText {
                            widget: self.control_scheme_buttons@[j],
                            button: control_scheme.buttons@[j],
                        },
                ),
            decreases self.control_scheme_buttons.len() - i,
        {
            updates.push(
                WidgetUpdate::ButtonText {
                    widget: self.control_scheme_buttons[i],
                    button: control_scheme.buttons[i],
                },
            );
            i += 1;
        }
        assert(updates@ =~= self.spec_sync_to_model(
            *settings,
            *control_scheme,
            is_hrtf,
            master_gain,
        ));
        updates
    }

    /// The effect without any change.
    pub open spec fn spec_no_effect(
        &self,
        settings: QualitySettings,
        control_scheme: ControlScheme,
    ) -> UiEventEffect {
        UiEventEffect {
            settings,
            actions: Seq::empty(),
            changed: false,
            mouse_sens: control_scheme.mouse_sens,
            mouse_y_inverse: control_scheme.mouse_y_inverse,
            active_control_button: self.active_control_button,
        }
    }

    /// What a scroll bar does that the player has moved to `value`. The
    /// first of these that is the destination decides: the sound volume
    /// sets the master gain, the two shadow distances and the mouse
    /// sensitivity take the value, the music volume is sent to the game.
    pub open spec fn spec_scroll_bar(
        &self,
        destination: Handle,
        value: u32,
        settings: QualitySettings,
        control_scheme: ControlScheme,
    ) -> UiEventEffect {
        let none = self.spec_no_effect(settings, control_scheme);
        if destination == self.sound_volume {
            UiEventEffect { actions: seq![MenuAction::SetMasterGain(value)], changed: true, ..none }
        } else if destination == self.point_shadow_distance {
            UiEventEffect {
                settings: QualitySettings { point_shadows_distance: value, ..settings },
                changed: true,
                ..none
            }
        } else if destination == self.spot_shadow_distance {
            UiEventEffect {
                settings: QualitySettings { spot_shadows_distance: value, ..settings },
                changed: true,
                ..none
            }
        } else if destination == self.mouse_sens {
            UiEventEffect { mouse_sens: value, changed: true, ..none }
        } else if destination == self.music_volume {
            UiEventEffect {
                actions: seq![MenuAction::Send(Message::SetMusicVolume { volume: value })],
                changed: true,
                ..none
            }
        } else {
            none
        }
    }

    /// The display mode that entry `index` of the list stands for. The
    /// first entry is the windowed mode; an entry past the offered modes
    /// is taken for it too.
    pub open spec fn spec_video_mode(&self, index: usize) -> Option<usize> {
        if 0 < index <= self.available_video_modes {
            Some((index - 1) as usize)
        } else {
            None
        }
    }

    /// What the selection of entry `index` in a drop-down list does. The
    /// first of these that is the destination decides: the display mode is
    /// switched, or the size and precision of the spot or point shadow
    /// maps are set.
    pub open spec fn spec_dropdown(
        &self,
        destination: Handle,
        index: usize,
        settings: QualitySettings,
        control_scheme: ControlScheme,
    ) -> UiEventEffect {
        let none = self.spec_no_effect(settings, control_scheme);
        if destination == self.video_mode {
            UiEventEffect {
                actions: seq![MenuAction::SetFullscreen(self.spec_video_mode(index))],
                changed: true,
                ..none
            }
        } else if destination == self.spot_shadows_quality {
            UiEventEffect {
                settings: QualitySettings {
                    spot_shadow_map_size: spec_index_to_shadow_map_size(index as int) as usize,
                    spot_shadow_map_precision: spec_precision_of(index),
                    ..settings
                },
                changed: true,
                ..none
            }
        } else if destination == self.point_shadows_quality {
            UiEventEffect {
                settings: QualitySettings {
                    point_shadow_map_size: spec_index_to_shadow_map_size(index as int) as usize,
                    point_shadow_map_precision: spec_precision_of(index),
                    ..settings
                },
                changed: true,
                ..none
            }
        } else {
            none
        }
    }

    /// What a check box does that now stands at `value`. The first of
    /// these that is the destination decides which switch takes the value.
    pub open spec fn spec_check_box(
        &self,
        destination: Handle,
        value: bool,
        settings: QualitySettings,
        control_scheme: ControlScheme,
    ) -> UiEventEffect {
        let none = self.spec_no_effect(settings, control_scheme);
        let set = |changed_settings: QualitySettings|
            UiEventEffect { settings: changed_settings, changed: true, ..none };
        if destination == self.point_shadows {
            set(QualitySettings { point_shadows_enabled: value, ..settings })
        } else if destination == self.spot_shadows {
            set(QualitySettings { spot_shadows_enabled: value, ..settings })
        } else if destination == self.soft_spot_shadows {
            set(QualitySettings { spot_soft_shadows: value, ..settings })
        } else if destination == self.soft_point_shadows {
            set(QualitySettings { point_soft_shadows: value, ..settings })
        } else if destination == self.mouse_y_inverse {
            UiEventEffect { mouse_y_inverse: value, changed: true, ..none }
        } else if destination == self.use_light_scatter {
            set(QualitySettings { light_scatter_enabled: value, ..settings })
        } else if destination == self.fxaa {
            set(QualitySettings { fxaa: value, ..settings })
        } else if destination == self.ssao {
            set(QualitySettings { use_ssao: value, ..settings })
        } else {
            none
        }
    }

    /// What a click does. On the reset button of the controls, the control
    /// scheme is reset and the widgets are brought up to date; else on the
    /// reset button of the audio settings, the master gain is set to one
    /// and the widgets are brought up to date. Besides, every button of a
    /// control that was clicked shows that it waits for input, and the
    /// last of them is the control that waits.
    pub open spec fn spec_click(
        &self,
        destination: Handle,
        settings: QualitySettings,
        control_scheme: ControlScheme,
    ) -> UiEventEffect {
        let none = self.spec_no_effect(settings, control_scheme);
        let reset = if destination == self.reset_control_scheme {
            seq![MenuAction::ResetControlScheme, MenuAction::SyncToModel]
        } else if destination == self.reset_audio_settings {
            seq![MenuAction::SetMasterGain(1000), MenuAction::SyncToModel]
        } else {
            Seq::<MenuAction>::empty()
        };
        UiEventEffect {
            actions: reset + Seq::new(
                count_widget(self.control_scheme_buttons@, destination),
                |i: int| MenuAction::ShowWaitingInput(destination),
            ),
            changed: reset.len() > 0,
            active_control_button: match last_widget(self.control_scheme_buttons@, destination) {
                Some(control) => Some(control),
                None => self.active_control_button,
            },
            ..none
        }
    }

    /// What a message of the user interface does. Scroll bars count only
    /// when the message comes from the widget; a selection counts only when
    /// an entry is selected; a check box that is undetermined counts as
    /// unchecked.
    pub open spec fn spec_handle_ui_event(
        &self,
        message: GuiMessage,
        settings: QualitySettings,
        control_scheme: ControlScheme,
    ) -> UiEventEffect {
        match message.data {
            UiMessageData::ScrollBarValue(value) if message.direction
                == MessageDirection::FromWidget => self.spec_scroll_bar(
                message.destination,
                value,
                settings,
                control_scheme,
            ),
            UiMessageData::DropdownSelectionChanged(Some(index)) => self.spec_dropdown(
                message.destination,
                index,
                settings,
                control_scheme,
            ),
            UiMessageData::CheckBoxChecked(value) => self.spec_check_box(
                message.destination,
                match value {
                    Some(value) => value,
                    None => false,
                },
                settings,
                control_scheme,
            ),
            UiMessageData::ButtonClick => self.spec_click(
                message.destination,
                settings,
                control_scheme,
            ),
            _ => self.spec_no_effect(settings, control_scheme),
        }
    }

    /// Works out what a scroll bar does that the player moved to `value`.
    fn on_scroll_bar(
        &self,
        destination: Handle,
        value: u32,
        settings: QualitySettings,
        control_scheme: &mut ControlScheme,
    ) -> (out: UiEventOutcome)
        ensures
            ({
                let effect = self.spec_scroll_bar(
                    destination,
                    value,
                    settings,
                    *old(control_scheme),
                );
                &&& out.settings == effect.settings
                &&& out.actions@ == effect.actions
                &&& out.changed == effect.changed
                &&& final(control_scheme).mouse_sens == effect.mouse_sens
                &&& final(control_scheme).mouse_y_inverse == effect.mouse_y_inverse
                &&& final(control_scheme).buttons@ == old(control_scheme).buttons@
                &&& effect.active_control_button == self.active_control_button
            }),
    {
        let mut updated = settings;
        let mut actions: Vec<MenuAction> = Vec::new();
        let mut changed = true;
        if destination == self.sound_volume {
            actions.push(MenuAction::SetMasterGain(value));
        } else if destination == self.point_shadow_distance {
            updated.point_shadows_distance = value;
        } else if destination == self.spot_shadow_distance {
            updated.spot_shadows_distance = value;
        } else if destination == self.mouse_sens {
            control_scheme.mouse_sens = value;
        } else if destination == self.music_volume {
            actions.push(MenuAction::Send(Message::SetMusicVolume { volume: value }));
        } else {
            changed = false;
        }
        assert(actions@ =~= self.spec_scroll_bar(
            destination,
            value,
            settings,
            *old(control_scheme),
        ).actions);
        UiEventOutcome { settings: updated, actions, changed }
    }

    /// Works out what the selection of entry `index` in a list does.
    fn on_dropdown(
        &self,
        destination: Handle,
        index: usize,
        settings: QualitySettings,
    ) -> (out: UiEventOutcome)
        ensures
            forall|control_scheme: ControlScheme|
                {
                    let effect = #[trigger] self.spec_dropdown(
                        destination,
                        index,
                        settings,
                        control_scheme,
                    );
                    &&& out.settings == effect.settings
                    &&& out.actions@ == effect.actions
                    &&& out.changed == effect.changed
                    &&& control_scheme.mouse_sens == effect.mouse_sens
                    &&& control_scheme.mouse_y_inverse == effect.mouse_y_inverse
                    &&& effect.active_control_button == self.active_control_button
                },
    {
        let mut updated = settings;
        let mut actions: Vec<MenuAction> = Vec::new();
        let mut changed = true;
        if destination == self.video_mode {
            // The first entry of the list is the windowed mode.
            let mode = if 0 < index && index <= self.available_video_modes {
                Some(index - 1)
            } else {
                None
            };
            actions.push(MenuAction::SetFullscreen(mode));
        } else if destination == self.spot_shadows_quality {
            updated.spot_shadow_map_size = index_to_shadow_map_size(index);
            if index > 0 {
                updated.spot_shadow_map_precision = ShadowMapPrecision::Full;
            } else {
                updated.spot_shadow_map_precision = ShadowMapPrecision::Half;
            }
        } else if destination == self.point_shadows_quality {
            updated.point_shadow_map_size = index_to_shadow_map_size(index);
            if index > 0 {
                updated.point_shadow_map_precision = ShadowMapPrecision::Full;
            } else {
                updated.point_shadow_map_precision = ShadowMapPrecision::Half;
            }
        } else {
            changed = false;
        }
        assert forall|control_scheme: ControlScheme|
            actions@ == (#[trigger] self.spec_dropdown(
                destination,
                index,
                settings,
                control_scheme,
            )).actions by {
            assert(actions@ =~= self.spec_dropdown(
                destination,
                index,
                settings,
                control_scheme,
            ).actions);
        }
        UiEventOutcome { settings: updated, actions, changed }
    }

    /// Works out what a check box does that now stands at `value`.
    fn on_check_box(
        &self,
        destination: Handle,
        value: bool,
        settings: QualitySettings,
        control_scheme: &mut ControlScheme,
    ) -> (out: UiEventOutcome)
        ensures
            ({
                let effect = self.spec_check_box(
                    destination,
                    value,
                    settings,
                    *old(control_scheme),
                );
                &&& out.settings == effect.settings
                &&& out.actions@ == effect.actions
                &&& out.changed == effect.changed
                &&& final(control_scheme).mouse_sens == effect.mouse_sens
                &&& final(control_scheme).mouse_y_inverse == effect.mouse_y_inverse
                &&& final(control_scheme).buttons@ == old(control_scheme).buttons@
                &&& effect.active_control_button == self.active_control_button
            }),
    {
        let mut updated = settings;
        let actions: Vec<MenuAction> = Vec::new();
        let mut changed = true;
        if destination == self.point_shadows {
            updated.point_shadows_enabled = value;
        } else if destination == self.spot_shadows {
            updated.spot_shadows_enabled = value;
        } else if destination == self.soft_spot_shadows {
            updated.spot_soft_shadows = value;
        } else if destination == self.soft_point_shadows {
            updated.point_soft_shadows = value;
        } else if destination == self.mouse_y_inverse {
            control_scheme.mouse_y_inverse = value;
        } else if destination == self.use_light_scatter {
            updated.light_scatter_enabled = value;
        } else if destination == self.fxaa {
            updated.fxaa = value;
        } else if destination == self.ssao {
            updated.use_ssao = value;
        } else {
            changed = false;
        }
        assert(actions@ =~= self.spec_check_box(
            destination,
            value,
            settings,
            *old(control_scheme),
        ).actions);
        UiEventOutcome { settings: updated, actions, changed }
    }

    /// Works out what a click does.
    fn on_click(&mut self, destination: Handle, settings: QualitySettings) -> (out: UiEventOutcome)
        ensures
            forall|control_scheme: ControlScheme|
                {
                    let effect = #[trigger] old(self).spec_click(
                        destination,
                        settings,
                        control_scheme,
                    );
                    &&& out.settings == effect.settings
                    &&& out.actions@ == effect.actions
                    &&& out.changed == effect.changed
                    &&& control_scheme.mouse_sens == effect.mouse_sens
                    &&& control_scheme.mouse_y_inverse == effect.mouse_y_inverse
                    &&& *final(self) == (OptionsMenu {
                        active_control_button: effect.active_control_button,
                        ..*old(self)
                    })
                },
            old(self).wf() ==> final(self).wf(),
    {
        let mut actions: Vec<MenuAction> = Vec::new();
        let mut changed = false;
        if destination == self.reset_control_scheme {
            actions.push(MenuAction::ResetControlScheme);
            actions.push(MenuAction::SyncToModel);
            changed = true;
        } else if destination == self.reset_audio_settings {
            actions.push(MenuAction::SetMasterGain(1000));
            actions.push(MenuAction::SyncToModel);
            changed = true;
        }
        let ghost reset = actions@;
        let ghost mut waiting: nat = 0;
        let mut active = self.active_control_button;
        let mut i: usize = 0;
        while i < self.control_scheme_buttons.len()
            invariant
                i <= self.control_scheme_buttons.len(),
                *self == *old(self),
                waiting == count_widget(self.control_scheme_buttons@.take(i as int), destination),
                actions@ == reset + Seq::new(
                    waiting,
                    |j: int| MenuAction::ShowWaitingInput(destination),
                ),
                active == match last_widget(
                    self.control_scheme_buttons@.take(i as int),
                    destination,
                ) {
                    Some(control) => Some(control),
                    None => old(self).active_control_button,
                },
                old(self).wf() ==> (active matches Some(control) ==> control
                    < self.control_scheme_buttons@.len()),
            decreases self.control_scheme_buttons.len() - i,
        {
            assert(self.control_scheme_buttons@.take(i + 1).drop_last()
                == self.control_scheme_buttons@.take(i as int));
            if self.control_scheme_buttons[i] == destination {
                actions.push(MenuAction::ShowWaitingInput(destination));
                active = Some(i);
                proof {
                    waiting = waiting + 1;
                }
            }
            i += 1;
        }
        assert(self.control_scheme_buttons@.take(i as int) == self.control_scheme_buttons@);
        self.active_control_button = active;
        assert forall|control_scheme: ControlScheme|
            actions@ == (#[trigger] old(self).spec_click(
                destination,
                settings,
                control_scheme,
            )).actions by {
            assert(actions@ =~= old(self).spec_click(
                destination,
                settings,
                control_scheme,
            ).actions);
        }
        UiEventOutcome { settings, actions, changed }
    }

    /// Takes a message of the user interface and works out what it changes.
    /// The quality settings are handed back; the mouse settings of the
    /// control scheme and the waiting control are changed in place; what is
    /// to be done outside is listed.
    pub fn handle_ui_event(
        &mut self,
        message: &GuiMessage,
        settings: QualitySettings,
        control_scheme: &mut ControlScheme,
    ) -> (out: UiEventOutcome)
        ensures
            ({
                let effect = old(self).spec_handle_ui_event(
                    *message,
                    settings,
                    *old(control_scheme),
                );
                &&& out.settings == effect.settings
                &&& out.actions@ == effect.actions
                &&& out.changed == effect.changed
                &&& final(control_scheme).mouse_sens == effect.mouse_sens
                &&& final(control_scheme).mouse_y_inverse == effect.mouse_y_inverse
                &&& final(control_scheme).buttons@ == old(control_scheme).buttons@
                &&& *final(self) == (OptionsMenu {
                    active_control_button: effect.active_control_button,
                    ..*old(self)
                })
            }),
            old(self).wf() ==> final(self).wf(),
    {
        let destination = message.destination;
        match message.data {
            UiMessageData::ScrollBarValue(value) => {
                if message.direction == MessageDirection::FromWidget {
                    return self.on_scroll_bar(destination, value, settings, control_scheme);
                }
            },
            UiMessageData::DropdownSelectionChanged(selection) => {
                if let Some(index) = selection {
                    let out = self.on_dropdown(destination, index, settings);
                    assert(out.changed == self.spec_dropdown(
                        destination,
                        index,
                        settings,
                        *control_scheme,
                    ).changed);
                    return out;
                }
            },
            UiMessageData::CheckBoxChecked(value) => {
                let value = match value {
                    Some(value) => value,
                    None => false,
                };
                return self.on_check_box(destination, value, settings, control_scheme);
            },
            UiMessageData::ButtonClick => {
                let out = self.on_click(destination, settings);
                assert(out.changed == old(self).spec_click(
                    destination,
                    settings,
                    *control_scheme,
                ).changed);
                return out;
            },
            UiMessageData::Other => {},
        }
        UiEventOutcome { settings, actions: Vec::new(), changed: false }
    }

    /// What an input event rebinds: the waiting control, to the button
    /// that the event stands for, if there is a waiting control and the
    /// event stands for a button.
    pub open spec fn spec_rebinding(&self, event: InputEvent) -> Option<Rebinding> {
        match (spec_control_button(event), self.active_control_button) {
            (Some(button), Some(control)) => Some(
                Rebinding { control, widget: self.control_scheme_buttons@[control as int], button },
            ),
            _ => None,
        }
    }

    /// The waiting control, if there is one, has a widget in the menu and a
    /// binding in the control scheme.
    pub open spec fn can_bind(&self, control_scheme: ControlScheme) -> bool {
        self.active_control_button matches Some(i) ==> i < self.control_scheme_buttons@.len() && i
            < control_scheme.buttons@.len()
    }

    /// Takes an input event. While a control waits for its new button, the
    /// first event that stands for a button binds it: the control scheme
    /// gets the button, the control waits no longer, and the rebinding is
    /// returned so that the widget can show it. An event that stands for no
    /// button changes nothing, and neither does any event while no control
    /// waits. Where a control is bound, the menu must have its widget and
    /// the control scheme its binding.
    pub fn process_input_event(
        &mut self,
        event: InputEvent,
        control_scheme: &mut ControlScheme,
    ) -> (r: Option<Rebinding>)
        requires
            spec_control_button(event) is Some ==> old(self).can_bind(*old(control_scheme)),
        ensures
            r == old(self).spec_rebinding(event),
            r is Some <==> spec_control_button(event) is Some && old(self).active_control_button
                is Some,
            old(self).wf() ==> final(self).wf(),
            *final(self) == (OptionsMenu {
                active_control_button: if r is Some {
                    None
                } else {
                    old(self).active_control_button
                },
                ..*old(self)
            }),
            final(control_scheme).mouse_sens == old(control_scheme).mouse_sens,
            final(control_scheme).mouse_y_inverse == old(control_scheme).mouse_y_inverse,
            final(control_scheme).buttons@ == match r {
                Some(rebinding) => old(control_scheme).buttons@.update(
                    rebinding.control as int,
                    rebinding.button,
                ),
                None => old(control_scheme).buttons@,
            },
    {
        if let Some(button) = control_button(event) {
            if let Some(control) = self.active_control_button {
                let widget = self.control_scheme_buttons[control];
                control_scheme.buttons.set(control, button);
                self.active_control_button = None;
                return Some(Rebinding { control, widget, button });
            }
        }
        None
    }
}

} // verus!
