//! The menu dispatcher.

use crate::system::button::{Pad, A, B, C, Z};
use crate::utils::menu::{cursor_after, move_cursor, SimpleMenu, SimpleMenuView};
use vstd::prelude::*;

verus! {

/// What the overlay shows and what receives input.
#[derive(Clone, Copy, Debug, PartialEq, Eq, Structural)]
pub enum MenuState {
    /// The overlay is closed.
    Off,
    /// The top-level selection list.
    MenuSelect,
    DisplayMenu,
    WarpMenu,
    ActionMenu,
    CheatsMenu,
    PracticeSavesMenu,
    FlagMenu,
}

/// The number of submenus, which is the number of entries of the selection
/// list.
pub const NUM_MENUS: usize = 6;

impl MenuState {
    /// The state that entry `num` of the selection list leads to. An index
    /// past the last entry leads nowhere: the selection list stays.
    pub open spec fn from_index(num: int) -> MenuState {
        if num == 0 {
            MenuState::DisplayMenu
        } else if num == 1 {
            MenuState::WarpMenu
        } else if num == 2 {
            MenuState::ActionMenu
        } else if num == 3 {
            MenuState::CheatsMenu
        } else if num == 4 {
            MenuState::PracticeSavesMenu
        } else if num == 5 {
            MenuState::FlagMenu
        } else {
            MenuState::MenuSelect
        }
    }

    /// Whether this state is one of the submenus.
    pub open spec fn is_submenu(self) -> bool {
        self != MenuState::Off && self != MenuState::MenuSelect
    }

    pub fn from_u32(num: u32) -> (state: MenuState)
        ensures
            state == Self::from_index(num as int),
    {
        match num {
            0 => MenuState::DisplayMenu,
            1 => MenuState::WarpMenu,
            2 => MenuState::ActionMenu,
            3 => MenuState::CheatsMenu,
            4 => MenuState::PracticeSavesMenu,
            5 => MenuState::FlagMenu,
            _ => MenuState::MenuSelect,
        }
    }

    /// The entry of the selection list that leads to this state, if this is
    /// a submenu.
    pub fn index(self) -> (entry: Option<u32>)
        ensures
            entry is Some <==> self.is_submenu(),
            entry matches Some(num) ==> num < NUM_MENUS && Self::from_index(num as int) == self,
    {
        match self {
            MenuState::Off | MenuState::MenuSelect => None,
            MenuState::DisplayMenu => Some(0),
            MenuState::WarpMenu => Some(1),
            MenuState::ActionMenu => Some(2),
            MenuState::CheatsMenu => Some(3),
            MenuState::PracticeSavesMenu => Some(4),
            MenuState::FlagMenu => Some(5),
        }
    }
}

/// What the caller of [`MainMenu::input`] has to do for the dispatcher.
#[derive(Clone, Copy, Debug, PartialEq, Eq, Structural)]
pub enum InputAction {
    /// Nothing.
    Idle,
    /// Open this submenu: it was chosen from the selection list in this frame.
    Enable(MenuState),
    /// Hand this frame's input to this submenu, which is the active one.
    Input(MenuState),
}

/// What one render pass draws below the input guide.
#[derive(Debug)]
pub enum Body {
    /// Nothing: the overlay is closed.
    Blank,
    /// The selection list.
    Select(SimpleMenu),
    /// The active submenu, which draws itself.
    Submenu(MenuState),
}

/// What one render pass draws.
#[derive(Debug)]
pub struct Frame {
    /// Whether the backdrop and the input guide are drawn.
    pub guide: bool,
    pub body: Body,
}

/// What a [`Body`] holds.
pub enum BodyView {
    Blank,
    Select(SimpleMenuView),
    Submenu(MenuState),
}

/// What a [`Frame`] holds.
pub struct FrameView {
    pub guide: bool,
    pub body: BodyView,
}

impl View for Body {
    type V = BodyView;

    open spec fn view(&self) -> BodyView {
        match *self {
            Body::Blank => BodyView::Blank,
            Body::Select(menu) => BodyView::Select(menu@),
            Body::Submenu(state) => BodyView::Submenu(state),
        }
    }
}

impl View for Frame {
    type V = FrameView;

    open spec fn view(&self) -> FrameView {
        FrameView { guide: self.guide, body: self.body@ }
    }
}

/// The dispatcher as a value: the state, the cursor into the selection list
/// and the pending request to close.
pub struct MenuModel {
    pub state: MenuState,
    pub cursor: int,
    pub force_close: bool,
}

impl MenuModel {
    /// The cursor is on an entry of the selection list.
    pub open spec fn wf(self) -> bool {
        0 <= self.cursor < NUM_MENUS as int
    }

    /// The dispatcher at start-up: closed, the cursor on the first entry, no
    /// request to close.
    pub open spec fn initial() -> MenuModel {
        MenuModel { state: MenuState::Off, cursor: 0, force_close: false }
    }

    pub open spec fn is_active(self) -> bool {
        self.state != MenuState::Off
    }

    /// The activation check: a closed overlay opens on the selection list
    /// while Z and C are held together; an open one stays as it is.
    pub open spec fn enable(self, pad: Pad) -> MenuModel {
        if !self.is_active() && pad.holds(Z | C) {
            MenuModel { state: MenuState::MenuSelect, ..self }
        } else {
            self
        }
    }

    /// The request to close, which the next render pass carries out.
    pub open spec fn disable(self) -> MenuModel {
        MenuModel { force_close: true, ..self }
    }

    /// The input phase: the dispatcher and the pad after it, and what is
    /// left for the caller to do.
    ///
    /// On the selection list B closes the overlay and takes its own press
    /// off the pad; otherwise A enters the submenu under the cursor. A
    /// submenu that is active gets the input. B comes before A.
    pub open spec fn input(self, pad: Pad) -> (MenuModel, Pad, InputAction) {
        match self.state {
            MenuState::Off => (self, pad, InputAction::Idle),
            MenuState::MenuSelect => {
                if pad.pressing(B) {
                    (MenuModel { state: MenuState::Off, ..self }, pad.released(B), InputAction::Idle)
                } else if pad.pressing(A) {
                    let chosen = MenuState::from_index(self.cursor);
                    (
                        MenuModel { state: chosen, ..self },
                        pad,
                        if chosen.is_submenu() {
                            InputAction::Enable(chosen)
                        } else {
                            InputAction::Idle
                        },
                    )
                } else {
                    (self, pad, InputAction::Idle)
                }
            },
            submenu => (self, pad, InputAction::Input(submenu)),
        }
    }

    /// The selection list as it is drawn with the cursor at `cursor`.
    pub open spec fn select_menu(cursor: int) -> SimpleMenuView {
        SimpleMenuView {
            heading: "Main Menu Select"@,
            entries: seq![
                "Display Menu"@,
                "Warp Menu"@,
                "Action Menu"@,
                "Cheats Menu"@,
                "Practice Saves Menu"@,
                "Flag Menu"@,
            ],
            cursor,
        }
    }

    /// What a render pass draws in this state.
    pub open spec fn frame(self) -> FrameView {
        FrameView {
            guide: self.is_active(),
            body: match self.state {
                MenuState::Off => BodyView::Blank,
                MenuState::MenuSelect => BodyView::Select(Self::select_menu(self.cursor)),
                submenu => BodyView::Submenu(submenu),
            },
        }
    }

    /// The dispatcher after what a render pass has drawn, before a pending
    /// request to close is looked at: the selection list moves its cursor by
    /// the pad, and a submenu that reports itself closed gives way to the
    /// selection list.
    pub open spec fn shown(self, pad: Pad, submenu_active: bool) -> MenuModel {
        match self.state {
            MenuState::Off => self,
            MenuState::MenuSelect => MenuModel {
                cursor: cursor_after(self.cursor, NUM_MENUS as int, pad),
                ..self
            },
            _ => if submenu_active {
                self
            } else {
                MenuModel { state: MenuState::MenuSelect, ..self }
            },
        }
    }

    /// The end of a render pass: [`Self::shown`], and then a pending request
    /// to close is carried out and forgotten. A submenu that is active when
    /// the overlay closes this way is not told: it keeps its own notion of
    /// being open.
    pub open spec fn finish_display(self, pad: Pad, submenu_active: bool) -> MenuModel {
        let shown = self.shown(pad, submenu_active);
        if shown.force_close {
            MenuModel { state: MenuState::Off, force_close: false, ..shown }
        } else {
            shown
        }
    }
}

/// The menu dispatcher: which screen of the overlay has the input and the
/// display, where the cursor of the selection list is, and whether the
/// overlay has been told to close.
///
/// The host's frame loop calls [`Self::enable`], [`Self::input`],
/// [`Self::display`] and [`Self::finish_display`], in this order, once per
/// frame.
pub struct MainMenu {
    state: MenuState,
    cursor: u32,
    force_close: bool,
}

impl View for MainMenu {
    type V = MenuModel;

    closed spec fn view(&self) -> MenuModel {
        MenuModel { state: self.state, cursor: self.cursor as int, force_close: self.force_close }
    }
}

impl MainMenu {
    #[verifier::type_invariant]
    spec fn cursor_on_entry(self) -> bool {
        self.cursor < NUM_MENUS
    }

    pub fn new() -> (menu: MainMenu)
        ensures
            menu@ == MenuModel::initial(),
    {
        MainMenu { state: MenuState::Off, cursor: 0, force_close: false }
    }

    pub fn state(&self) -> (state: MenuState)
        ensures
            state == self@.state,
            self@.wf(),
    {
        proof {
            use_type_invariant(self);
        }
        self.state
    }

    pub fn cursor(&self) -> (cursor: u32)
        ensures
            cursor == self@.cursor,
            self@.wf(),
    {
        proof {
            use_type_invariant(self);
        }
        self.cursor
    }

    pub fn force_close(&self) -> (pending: bool)
        ensures
            pending == self@.force_close,
            self@.wf(),
    {
        proof {
            use_type_invariant(self);
        }
        self.force_close
    }

    pub fn is_active(&self) -> (active: bool)
        ensures
            active == self@.is_active(),
            self@.wf(),
    {
        proof {
            use_type_invariant(self);
        }
        self.state != MenuState::Off
    }

    /// The activation check of a frame.
    pub fn enable(&mut self, pad: &Pad)
        ensures
            final(self)@ == old(self)@.enable(*pad),
            final(self)@.wf(),
    {
        proof {
            use_type_invariant(&*self);
        }
        if self.is_active() {
            return ;
        }
        if pad.is_down(Z | C) {
            self.state = MenuState::MenuSelect;
        }
    }

    /// Asks the overlay to close at the next render pass, and takes the
    /// presses of A and B off the pad so that the game does not act on them.
    pub fn disable(&mut self, pad: &mut Pad)
        ensures
            final(self)@ == old(self)@.disable(),
            final(self)@.wf(),
            *final(pad) == old(pad).released(B | A),
    {
        proof {
            use_type_invariant(&*self);
        }
        self.force_close = true;
        pad.set_buttons_not_pressed(B | A);
    }

    /// The input phase of a frame. The caller carries out the action that
    /// comes back.
    pub fn input(&mut self, pad: &mut Pad) -> (action: InputAction)
        ensures
            (final(self)@, *final(pad), action) == old(self)@.input(*old(pad)),
            final(self)@.wf(),
    {
        proof {
            use_type_invariant(&*self);
        }
        match self.state {
            MenuState::Off => InputAction::Idle,
            MenuState::MenuSelect => {
                if pad.is_pressed(B) {
                    self.state = MenuState::Off;
                    pad.set_buttons_not_pressed(B);
                    InputAction::Idle
                } else if pad.is_pressed(A) {
                    self.state = MenuState::from_u32(self.cursor);
                    match self.state {
                        MenuState::Off | MenuState::MenuSelect => InputAction::Idle,
                        chosen => InputAction::Enable(chosen),
                    }
                } else {
                    InputAction::Idle
                }
            },
            submenu => InputAction::Input(submenu),
        }
    }

    /// What this frame's render pass draws. The caller draws it, lets the
    /// active submenu draw itself, and then calls [`Self::finish_display`].
    pub fn display(&self) -> (frame: Frame)
        ensures
            frame@ == self@.frame(),
            self@.wf(),
    {
        proof {
            use_type_invariant(self);
        }
        let guide = self.is_active();
        let body = match self.state {
            MenuState::Off => Body::Blank,
            MenuState::MenuSelect => {
                let mut menu = SimpleMenu::new();
                menu.set_heading("Main Menu Select");
                menu.add_entry("Display Menu");
                menu.add_entry("Warp Menu");
                menu.add_entry("Action Menu");
                menu.add_entry("Cheats Menu");
                menu.add_entry("Practice Saves Menu");
                menu.add_entry("Flag Menu");
                menu.set_cursor(self.cursor);
                assert(menu@.entries =~= MenuModel::select_menu(self.cursor as int).entries);
                Body::Select(menu)
            },
            submenu => Body::Submenu(submenu),
        };
        Frame { guide, body }
    }

    /// The end of this frame's render pass. `submenu_active` is what the
    /// active submenu answers, after it has drawn itself, when asked whether
    /// it is still open; without an active submenu it is not looked at.
    pub fn finish_display(&mut self, pad: &Pad, submenu_active: bool)
        ensures
            final(self)@ == old(self)@.finish_display(*pad, submenu_active),
            final(self)@.wf(),
    {
        proof {
            use_type_invariant(&*self);
        }
        match self.state {
            MenuState::Off => {},
            MenuState::MenuSelect => {
                self.cursor = move_cursor(self.cursor, NUM_MENUS as u32, pad);
            },
            _ => {
                if !submenu_active {
                    self.state = MenuState::MenuSelect;
                }
            },
        }
        if self.force_close {
            self.force_close = false;
            self.state = MenuState::Off;
        }
    }
}

impl MenuState {
    /// A state is exactly one of three things: closed, the selection list,
    /// or the submenu of exactly one entry of the list.
    pub proof fn lemma_one_of_three(self)
        ensures
            self == MenuState::Off || self == MenuState::MenuSelect || self.is_submenu(),
            self.is_submenu() <==> exists|entry: int|
                0 <= entry < NUM_MENUS && self == #[trigger] Self::from_index(entry),
            forall|first: int, second: int|
                0 <= first < NUM_MENUS && 0 <= second < NUM_MENUS && self == #[trigger] Self::from_index(first)
                    && self == #[trigger] Self::from_index(second) ==> first == second,
    {
        if self.is_submenu() {
            let entry: int = match self {
                MenuState::DisplayMenu => 0,
                MenuState::WarpMenu => 1,
                MenuState::ActionMenu => 2,
                MenuState::CheatsMenu => 3,
                MenuState::PracticeSavesMenu => 4,
                _ => 5,
            };
            assert(self == Self::from_index(entry));
        }
    }
}

impl MenuModel {
    /// Every step of the dispatcher leaves the cursor on an entry of the
    /// selection list.
    pub proof fn lemma_steps_keep_cursor_on_entry(self, pad: Pad, submenu_active: bool)
        requires
            self.wf(),
        ensures
            Self::initial().wf(),
            self.enable(pad).wf(),
            self.disable().wf(),
            self.input(pad).0.wf(),
            self.finish_display(pad, submenu_active).wf(),
    {
    }

    /// Activation happens once: a closed overlay under the held chord opens
    /// on the selection list, and a further activation check changes nothing,
    /// whatever the pad then holds.
    pub proof fn lemma_enable_idempotent(self, pad: Pad, later: Pad)
        ensures
            self.enable(pad).enable(pad) == self.enable(pad),
            !self.is_active() && pad.holds(Z | C) ==> self.enable(pad) == (MenuModel {
                state: MenuState::MenuSelect,
                ..self
            }) && self.enable(pad).enable(later) == self.enable(pad),
            self.is_active() ==> self.enable(pad) == self,
    {
    }

    /// Confirm on the selection list, with the cursor on entry `k`, enters
    /// the submenu of entry `k` and asks the caller to open it; the input
    /// phases that follow hand that submenu the input and never ask to open
    /// it again.
    pub proof fn lemma_confirm_enters_chosen(self, pad: Pad, later: Pad)
        requires
            self.wf(),
            self.state == MenuState::MenuSelect,
            pad.pressing(A),
            !pad.pressing(B),
        ensures
            MenuState::from_index(self.cursor).is_submenu(),
            self.input(pad) == (
                MenuModel { state: MenuState::from_index(self.cursor), ..self },
                pad,
                InputAction::Enable(MenuState::from_index(self.cursor)),
            ),
            self.input(pad).0.input(later) == (
                self.input(pad).0,
                later,
                InputAction::Input(MenuState::from_index(self.cursor)),
            ),
    {
    }

    /// Confirm with the cursor past the list, which no dispatcher built by
    /// [`MainMenu::new`] ever has, leads nowhere: the selection list stays, and
    /// nothing is opened.
    pub proof fn lemma_confirm_past_list_stays(self, pad: Pad)
        requires
            !self.wf(),
            self.state == MenuState::MenuSelect,
            pad.pressing(A),
            !pad.pressing(B),
        ensures
            self.input(pad) == (self, pad, InputAction::Idle),
    {
    }

    /// Back on the selection list closes the overlay, and the press of B is
    /// gone from the pad: neither B alone nor B with other buttons reads as
    /// pressed, while the other buttons read as before.
    pub proof fn lemma_back_closes(self, pad: Pad, asked: u32)
        requires
            self.state == MenuState::MenuSelect,
            pad.pressing(B),
        ensures
            self.input(pad).0 == (MenuModel { state: MenuState::Off, ..self }),
            self.input(pad).2 == InputAction::Idle,
            !self.input(pad).1.pressing(B),
            asked & B != 0 ==> !self.input(pad).1.pressing(asked),
            asked & B == 0 ==> self.input(pad).1.pressing(asked) == pad.pressing(asked),
            self.input(pad).1.down == pad.down,
    {
        assert(B & B != 0) by (bit_vector);
        pad.lemma_released_not_pressing(B, B);
        if asked & B != 0 {
            assert(B & asked != 0) by (bit_vector)
                requires
                    asked & B != 0,
            ;
            pad.lemma_released_not_pressing(B, asked);
        } else {
            assert(B & asked == 0) by (bit_vector)
                requires
                    asked & B == 0,
            ;
            pad.lemma_released_keeps_others(B, asked);
        }
    }

    /// A submenu that reports itself closed gives way at the very next
    /// render pass: to the selection list, with the cursor where it was, or
    /// to the closed overlay where a request to close is pending. No input
    /// to the dispatcher is needed for it: the activation check and the input
    /// phase of that frame leave the dispatcher and the pad as they are.
    pub proof fn lemma_closed_submenu_pops(self, pad: Pad)
        requires
            self.state.is_submenu(),
        ensures
            self.enable(pad) == self,
            self.input(pad).0 == self,
            self.input(pad).1 == pad,
            self.finish_display(pad, false) == (MenuModel {
                state: if self.force_close {
                    MenuState::Off
                } else {
                    MenuState::MenuSelect
                },
                cursor: self.cursor,
                force_close: false,
            }),
            self.finish_display(pad, true).state == (if self.force_close {
                MenuState::Off
            } else {
                self.state
            }),
    {
    }

    /// A request to close is carried out by the next render pass, from any
    /// state and whatever the pad and the submenu say, and is then forgotten;
    /// a second request before that pass adds nothing.
    pub proof fn lemma_force_close_closes(self, pad: Pad, submenu_active: bool)
        ensures
            self.disable().force_close,
            self.disable().disable() == self.disable(),
            self.force_close ==> self.finish_display(pad, submenu_active).state == MenuState::Off
                && !self.finish_display(pad, submenu_active).force_close,
            self.disable().finish_display(pad, submenu_active).state == MenuState::Off,
            !self.disable().finish_display(pad, submenu_active).force_close,
            !self.finish_display(pad, submenu_active).force_close,
    {
    }

    /// A request to close outlasts the activation check and the input phase
    /// untouched, so a frame that starts with one pending ends with the
    /// overlay closed, whatever the pads and the submenu say: the overlay
    /// cannot open against whoever keeps asking it to close.
    pub proof fn lemma_pending_close_ends_frame_closed(
        self,
        pad: Pad,
        later: Pad,
        submenu_active: bool,
    )
        ensures
            self.enable(pad).force_close == self.force_close,
            self.input(pad).0.force_close == self.force_close,
            self.force_close ==> self.enable(pad).input(pad).0.finish_display(
                later,
                submenu_active,
            ).state == MenuState::Off,
    {
    }

    /// The selection list and the submenus go together: the list has one
    /// entry for each submenu, and an index leads to a submenu exactly if it
    /// is the index of an entry.
    pub proof fn lemma_entries_match_submenus(cursor: int, index: int)
        ensures
            Self::select_menu(cursor).entries.len() == NUM_MENUS,
            Self::select_menu(cursor).cursor == cursor,
            MenuState::from_index(index).is_submenu() <==> 0 <= index < Self::select_menu(
                cursor,
            ).entries.len(),
            !MenuState::from_index(index).is_submenu() ==> MenuState::from_index(index)
                == MenuState::MenuSelect,
    {
    }

    /// Only the active submenu is ever called: the input phase hands input
    /// to the submenu that is the state, opens only the submenu that becomes
    /// the state, and the render pass lets only the submenu that is the state
    /// draw.
    pub proof fn lemma_calls_go_to_active_submenu(self, pad: Pad)
        ensures
            match self.input(pad).2 {
                InputAction::Idle => true,
                InputAction::Enable(opened) => opened.is_submenu() && self.state
                    == MenuState::MenuSelect && self.input(pad).0.state == opened,
                InputAction::Input(fed) => fed.is_submenu() && self.state == fed && self.input(
                    pad,
                ).0.state == fed,
            },
            match self.frame().body {
                BodyView::Submenu(drawn) => drawn.is_submenu() && self.state == drawn,
                BodyView::Select(_) => self.state == MenuState::MenuSelect,
                BodyView::Blank => self.state == MenuState::Off,
            },
            self.frame().guide == self.is_active(),
    {
    }
}

} // verus!
