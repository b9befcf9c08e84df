//! The shell: which tool is active, whether the launcher overlay is open, the
//! display scale, and how each input is routed.
//!
//! `DevTools::update` decides; what it asks of the host (focusing the search
//! field, running a background generation) comes back as an `Action`.
use vstd::prelude::*;
use crate::launcher::{self, Launcher};
use crate::scale_factor::{decremented, incremented, ScaleFactor, DEFAULT_TENTHS, MAX_TENTHS, MIN_TENTHS};
use crate::tool::Tool;
use crate::tools::base64_converter::{self, Base64Converter};
use crate::tools::json_beautifier::{self, JsonBeautifier};
use crate::tools::random_data_generator::RandomDataGenerator;
use crate::tools::uuid_generator::{self, Effect, UuidGenerator};

verus! {

/// The active tool's state: exactly one tool instance at a time.
pub enum Screen {
    UuidGenerator(UuidGenerator),
    JsonBeautifier(JsonBeautifier),
    Base64Converter(Base64Converter),
    RandomDataGenerator(RandomDataGenerator),
}

/// A key, as far as the global shortcuts tell keys apart.
#[derive(Debug, Clone)]
pub enum Key {
    Escape,
    Space,
    Character(String),
    Other,
}

/// A key press with the state of the control modifier.
#[derive(Debug, Clone)]
pub struct KeyPress {
    pub key: Key,
    pub control: bool,
}

/// The global shortcuts.
#[derive(Debug, Clone, Copy, PartialEq, Eq, Structural)]
pub enum Shortcut {
    Cancel,
    ToggleLauncher,
    ZoomIn,
    ZoomOut,
    ZoomReset,
    Unbound,
}

/// Input handled by the shell.
#[derive(Debug, Clone)]
pub enum Message {
    HideModal,
    UuidGenerator(uuid_generator::Message),
    Launcher(launcher::Message),
    JsonBeautifier(json_beautifier::Message),
    Base64Converter(base64_converter::Message),
    Event(KeyPress),
}

/// What the shell asks of its host after an input.
#[derive(Debug, Clone, Copy, PartialEq, Eq, Structural)]
pub enum Action {
    Nothing,
    /// Put the input focus on the launcher's query field.
    FocusSearch,
    /// Run the identifier generator's background work.
    Generator(Effect),
}

/// The shortcut that a key press triggers.
pub open spec fn shortcut_of(k: KeyPress) -> Shortcut {
    match k.key {
        Key::Escape => Shortcut::Cancel,
        Key::Space => if k.control {
            Shortcut::ToggleLauncher
        } else {
            Shortcut::Unbound
        },
        Key::Character(c) => if !k.control {
            Shortcut::Unbound
        } else if c@ == "+"@ {
            Shortcut::ZoomIn
        } else if c@ == "-"@ {
            Shortcut::ZoomOut
        } else if c@ == "0"@ {
            Shortcut::ZoomReset
        } else {
            Shortcut::Unbound
        },
        Key::Other => Shortcut::Unbound,
    }
}

/// The tool that a screen belongs to.
pub open spec fn screen_tool(s: Screen) -> Tool {
    match s {
        Screen::UuidGenerator(_) => Tool::UuidGenerator,
        Screen::JsonBeautifier(_) => Tool::JsonBeautifier,
        Screen::Base64Converter(_) => Tool::Base64Converter,
        Screen::RandomDataGenerator(_) => Tool::RandomDataGenerator,
    }
}

/// `s` is a freshly constructed instance of tool `t`.
pub open spec fn is_fresh(s: Screen, t: Tool) -> bool {
    &&& screen_tool(s) == t
    &&& match s {
        Screen::UuidGenerator(g) => g.is_initial(),
        Screen::JsonBeautifier(j) => j.is_initial(),
        Screen::Base64Converter(b) => b.is_initial(),
        Screen::RandomDataGenerator(r) => r.is_initial(),
    }
}

/// The screen's own invariant.
pub open spec fn screen_wf(s: Screen) -> bool {
    match s {
        Screen::UuidGenerator(g) => g.wf(),
        _ => true,
    }
}

/// The shell's state.
pub struct DevTools {
    pub screen: Screen,
    pub launcher: Launcher,
    pub is_modal_open: bool,
    pub current_tool: Tool,
    pub scale_factor: ScaleFactor,
}

impl DevTools {
    /// The active tool is the one on screen; the overlay's matches follow its
    /// query, and a closed overlay holds no search state; the scale is within
    /// bounds.
    pub open spec fn wf(&self) -> bool {
        &&& screen_tool(self.screen) == self.current_tool
        &&& screen_wf(self.screen)
        &&& self.launcher.wf()
        &&& (!self.is_modal_open ==> self.launcher.is_reset())
        &&& self.scale_factor.wf()
    }

    /// Everything but the overlay and its visibility is as in `old`.
    pub open spec fn same_tool_and_scale(old: DevTools, new: DevTools) -> bool {
        &&& new.screen == old.screen
        &&& new.current_tool == old.current_tool
        &&& new.scale_factor == old.scale_factor
    }

    /// The overlay is closed and its state cleared.
    pub open spec fn overlay_closed(&self) -> bool {
        !self.is_modal_open && self.launcher.is_reset()
    }

    /// How a key press takes the shell from `old` to `new`.
    pub open spec fn key_post(old: DevTools, k: KeyPress, new: DevTools) -> bool {
        match shortcut_of(k) {
            Shortcut::Cancel => {
                &&& DevTools::same_tool_and_scale(old, new)
                &&& if old.is_modal_open {
                    new.overlay_closed()
                } else {
                    new.launcher == old.launcher && !new.is_modal_open
                }
            },
            Shortcut::ToggleLauncher => {
                &&& DevTools::same_tool_and_scale(old, new)
                &&& new.is_modal_open == !old.is_modal_open
                &&& new.launcher.is_reset()
            },
            Shortcut::ZoomIn => new == (DevTools {
                scale_factor: ScaleFactor { tenths: incremented(old.scale_factor.tenths) },
                ..old
            }),
            Shortcut::ZoomOut => new == (DevTools {
                scale_factor: ScaleFactor { tenths: decremented(old.scale_factor.tenths) },
                ..old
            }),
            Shortcut::ZoomReset => new == (DevTools {
                scale_factor: ScaleFactor { tenths: DEFAULT_TENTHS },
                ..old
            }),
            Shortcut::Unbound => new == old,
        }
    }

    /// The action that a key press asks for.
    pub open spec fn key_action(k: KeyPress) -> Action {
        if shortcut_of(k) == Shortcut::ToggleLauncher {
            Action::FocusSearch
        } else {
            Action::Nothing
        }
    }

    /// How a selection from the overlay takes the shell from `old` to `new`:
    /// none changes nothing; a tool closes and clears the overlay, and a tool
    /// other than the active one replaces it with a fresh instance, while the
    /// active one keeps its state.
    pub open spec fn select_post(old: DevTools, sel: Option<Tool>, new: DevTools) -> bool {
        match sel {
            None => new == old,
            Some(t) => {
                &&& new.overlay_closed()
                &&& new.scale_factor == old.scale_factor
                &&& new.current_tool == t
                &&& if t == old.current_tool {
                    new.screen == old.screen
                } else {
                    is_fresh(new.screen, t)
                }
            },
        }
    }

    /// How `update` takes the shell from `old` to `new` on `m`, asking for `a`.
    pub open spec fn update_post(old: DevTools, m: Message, new: DevTools, a: Action) -> bool {
        match m {
            Message::HideModal => {
                &&& DevTools::same_tool_and_scale(old, new)
                &&& new.overlay_closed()
                &&& a == Action::Nothing
            },
            Message::Event(k) => DevTools::key_post(old, k, new) && a == DevTools::key_action(k),
            Message::Launcher(lm) => if !old.is_modal_open {
                new == old && a == Action::Nothing
            } else {
                &&& exists|l: Launcher, sel: Option<Tool>|
                    Launcher::update_post(old.launcher, lm, l, sel) && #[trigger] DevTools::select_post(
                        DevTools { launcher: l, ..old },
                        sel,
                        new,
                    )
                &&& a == Action::Nothing
            },
            Message::UuidGenerator(um) => match old.screen {
                Screen::UuidGenerator(g) => {
                    &&& new.launcher == old.launcher
                    &&& new.is_modal_open == old.is_modal_open
                    &&& new.current_tool == old.current_tool
                    &&& new.scale_factor == old.scale_factor
                    &&& exists|g2: UuidGenerator, e: Effect|
                        #[trigger] UuidGenerator::update_post(g, um, g2, e) && new.screen
                            == Screen::UuidGenerator(g2) && a == Action::Generator(e)
                },
                _ => new == old && a == Action::Nothing,
            },
            Message::JsonBeautifier(jm) => match old.screen {
                Screen::JsonBeautifier(j) => {
                    &&& new.launcher == old.launcher
                    &&& new.is_modal_open == old.is_modal_open
                    &&& new.current_tool == old.current_tool
                    &&& new.scale_factor == old.scale_factor
                    &&& exists|j2: JsonBeautifier|
                        #[trigger] JsonBeautifier::update_post(j, jm, j2) && new.screen
                            == Screen::JsonBeautifier(j2)
                    &&& a == Action::Nothing
                },
                _ => new == old && a == Action::Nothing,
            },
            Message::Base64Converter(bm) => match old.screen {
                Screen::Base64Converter(b) => {
                    &&& new.launcher == old.launcher
                    &&& new.is_modal_open == old.is_modal_open
                    &&& new.current_tool == old.current_tool
                    &&& new.scale_factor == old.scale_factor
                    &&& exists|b2: Base64Converter|
                        #[trigger] Base64Converter::update_post(b, bm, b2) && new.screen
                            == Screen::Base64Converter(b2)
                    &&& a == Action::Nothing
                },
                _ => new == old && a == Action::Nothing,
            },
        }
    }

    /// The shell at startup: the base64 converter active, the overlay closed,
    /// the default scale.
    pub fn new() -> (r: DevTools)
        ensures
            r.wf(),
            r.current_tool == Tool::Base64Converter,
            is_fresh(r.screen, Tool::Base64Converter),
            r.overlay_closed(),
            r.scale_factor.tenths == DEFAULT_TENTHS,
    {
        DevTools {
            launcher: Launcher::new(),
            screen: Screen::Base64Converter(Base64Converter::new()),
            current_tool: Tool::Base64Converter,
            is_modal_open: false,
            scale_factor: ScaleFactor::default(),
        }
    }

    /// Whether the shell's invariant holds.
    pub fn is_well_formed(&self) -> (r: bool)
        ensures
            r == self.wf(),
    {
        let screen_ok = match &self.screen {
            Screen::UuidGenerator(g) => self.current_tool == Tool::UuidGenerator && g.parsed_amount >= 1,
            Screen::JsonBeautifier(_) => self.current_tool == Tool::JsonBeautifier,
            Screen::Base64Converter(_) => self.current_tool == Tool::Base64Converter,
            Screen::RandomDataGenerator(_) => self.current_tool == Tool::RandomDataGenerator,
        };
        let scale_ok = MIN_TENTHS <= self.scale_factor.tenths && self.scale_factor.tenths <= MAX_TENTHS;
        let closed_ok = self.is_modal_open || (self.launcher.search_text.unicode_len() == 0
            && self.launcher.search_matches.len() == 0 && self.launcher.result_hovered.is_none());
        screen_ok && scale_ok && closed_ok && self.launcher.is_well_formed()
    }

    /// The display scale, in tenths.
    pub fn get_scale_factor(&self) -> (r: u32)
        ensures
            r == self.scale_factor.tenths,
    {
        self.scale_factor.as_tenths()
    }

    /// The active tool's display name.
    pub fn title(&self) -> (r: String)
        ensures
            r@ == self.current_tool.name_spec(),
    {
        self.current_tool.to_string()
    }

    /// Closes the overlay and clears its state.
    fn close_overlay(&mut self)
        requires
            old(self).wf(),
        ensures
            DevTools::same_tool_and_scale(*old(self), *final(self)),
            final(self).overlay_closed(),
            final(self).wf(),
    {
        self.is_modal_open = false;
        self.launcher.reset();
    }

    /// Applies a selection from the overlay.
    pub fn apply_selection(&mut self, selection: Option<Tool>)
        requires
            old(self).wf(),
        ensures
            DevTools::select_post(*old(self), selection, *final(self)),
            final(self).wf(),
    {
        match selection {
            Some(tool) => {
                self.close_overlay();
                if tool != self.current_tool {
                    self.current_tool = tool;
                    self.screen = match tool {
                        Tool::UuidGenerator => Screen::UuidGenerator(UuidGenerator::new()),
                        Tool::JsonBeautifier => Screen::JsonBeautifier(JsonBeautifier::new()),
                        Tool::Base64Converter => Screen::Base64Converter(Base64Converter::new()),
                        Tool::RandomDataGenerator => Screen::RandomDataGenerator(RandomDataGenerator::new()),
                    };
                }
            },
            None => {},
        }
    }

    /// The shortcut that a key press triggers.
    pub fn shortcut(k: &KeyPress) -> (r: Shortcut)
        ensures
            r == shortcut_of(*k),
    {
        match &k.key {
            Key::Escape => Shortcut::Cancel,
            Key::Space => if k.control {
                Shortcut::ToggleLauncher
            } else {
                Shortcut::Unbound
            },
            Key::Character(c) => {
                if !k.control {
                    Shortcut::Unbound
                } else if *c == "+".to_owned() {
                    Shortcut::ZoomIn
                } else if *c == "-".to_owned() {
                    Shortcut::ZoomOut
                } else if *c == "0".to_owned() {
                    Shortcut::ZoomReset
                } else {
                    Shortcut::Unbound
                }
            },
            Key::Other => Shortcut::Unbound,
        }
    }

    /// Applies a key press: the global shortcuts.
    pub fn on_key(&mut self, k: KeyPress) -> (a: Action)
        requires
            old(self).wf(),
        ensures
            DevTools::key_post(*old(self), k, *final(self)),
            a == DevTools::key_action(k),
            final(self).wf(),
    {
        match DevTools::shortcut(&k) {
            Shortcut::Cancel => {
                if self.is_modal_open {
                    self.close_overlay();
                }
                Action::Nothing
            },
            Shortcut::ToggleLauncher => {
                self.is_modal_open = !self.is_modal_open;
                self.launcher.reset();
                Action::FocusSearch
            },
            Shortcut::ZoomIn => {
                self.scale_factor.increment();
                Action::Nothing
            },
            Shortcut::ZoomOut => {
                self.scale_factor.decrement();
                Action::Nothing
            },
            Shortcut::ZoomReset => {
                self.scale_factor.to_default();
                Action::Nothing
            },
            Shortcut::Unbound => Action::Nothing,
        }
    }

    /// Routes one input: shortcuts to the shell, overlay input to the
    /// launcher while the overlay is open (absorbed otherwise), tool input to the active tool when it is the addressed one.
    pub fn update(&mut self, message: Message) -> (a: Action)
        requires
            old(self).wf(),
        ensures
            DevTools::update_post(*old(self), message, *final(self), a),
            final(self).wf(),
    {
        match message {
            Message::HideModal => {
                self.close_overlay();
                Action::Nothing
            },
            Message::Event(k) => self.on_key(k),
            Message::Launcher(lm) => {
                if !self.is_modal_open {
                    return Action::Nothing;
                }
                let ghost before = *self;
                let selection = self.launcher.update(lm);
                let ghost mid = *self;
                self.apply_selection(selection);
                assert(Launcher::update_post(before.launcher, lm, mid.launcher, selection)
                    && DevTools::select_post(DevTools { launcher: mid.launcher, ..before }, selection, *self));
                Action::Nothing
            },
            Message::UuidGenerator(um) => {
                if let Screen::UuidGenerator(g) = &mut self.screen {
                    let e = g.update(um);
                    Action::Generator(e)
                } else {
                    Action::Nothing
                }
            },
            Message::JsonBeautifier(jm) => {
                if let Screen::JsonBeautifier(j) = &mut self.screen {
                    j.update(jm);
                }
                Action::Nothing
            },
            Message::Base64Converter(bm) => {
                if let Screen::Base64Converter(b) = &mut self.screen {
                    b.update(bm);
                }
                Action::Nothing
            },
        }
    }
}

impl Default for DevTools {
    fn default() -> (r: DevTools)
        ensures
            r.wf(),
            r.current_tool == Tool::Base64Converter,
            is_fresh(r.screen, Tool::Base64Converter),
            r.overlay_closed(),
            r.scale_factor.tenths == DEFAULT_TENTHS,
    {
        DevTools::new()
    }
}

/// Toggling the launcher twice from the normal state comes back to the normal
/// state with the overlay's state cleared and the active tool untouched.
pub proof fn lemma_toggle_twice(a: DevTools, k1: KeyPress, b: DevTools, k2: KeyPress, c: DevTools)
    requires
        !a.is_modal_open,
        shortcut_of(k1) == Shortcut::ToggleLauncher,
        shortcut_of(k2) == Shortcut::ToggleLauncher,
        DevTools::key_post(a, k1, b),
        DevTools::key_post(b, k2, c),
    ensures
        c.overlay_closed(),
        DevTools::same_tool_and_scale(a, c),
{
}

/// Selecting the tool that is already active closes the overlay and clears
/// its state, and keeps the tool's instance as it was.
pub proof fn lemma_reselect_keeps_tool_state(a: DevTools, b: DevTools)
    requires
        DevTools::select_post(a, Some(a.current_tool), b),
    ensures
        b.overlay_closed(),
        b.screen == a.screen,
        b.current_tool == a.current_tool,
{
}

/// Enter with an empty query selects nothing: the shell stays as it was, the
/// overlay open if it was open.
pub proof fn lemma_submit_empty_query_keeps_shell(a: DevTools, b: DevTools, act: Action)
    requires
        a.wf(),
        a.launcher.query().len() == 0,
        DevTools::update_post(a, Message::Launcher(launcher::Message::SearchSubmitted), b, act),
    ensures
        b == a,
        act == Action::Nothing,
{
    if a.is_modal_open {
        let (l, sel) = choose|l: Launcher, sel: Option<Tool>|
            Launcher::update_post(a.launcher, launcher::Message::SearchSubmitted, l, sel)
                && #[trigger] DevTools::select_post(DevTools { launcher: l, ..a }, sel, b);
        assert(a.launcher.matches().len() == 0);
        assert(sel is None);
        assert(b == DevTools { launcher: l, ..a });
    }
}

} // verus!
