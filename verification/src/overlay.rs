//! Decisions of the overlay window: the tray menu that a click on the tray
//! icon opens and closes, placing the pill once the monitor is known, the
//! pill's target size, and the colours of the level meter's stems.
use vstd::prelude::*;

verus! {

/// Number of stems in the level meter.
pub const NUM_STEMS: usize = 15;

/// Frames the menu stays open before a press outside it closes it.
pub const MENU_GRACE_FRAMES: usize = 5;

/// A mouse button, as the tray reports it.
pub enum MouseButton {
    Left,
    Right,
    Middle,
}

/// Whether a button went down or up.
pub enum ButtonState {
    Up,
    Down,
}

/// An event of the tray icon.
pub enum TrayEvent {
    /// A click on the icon.
    Click { button: MouseButton, state: ButtonState },
    /// Any other event (double click, pointer entering, moving, leaving).
    Other,
}

/// What the user did in the open menu during one frame.
pub struct MenuInput {
    /// The "Settings" entry was clicked.
    pub settings_clicked: bool,
    /// The "Quit" entry was clicked.
    pub quit_clicked: bool,
    /// A pointer button was pressed while the pointer was over no area of
    /// the menu.
    pub pressed_outside: bool,
}

/// What follows one frame of the open menu.
pub enum MenuOutcome {
    /// The menu stays open.
    Stay,
    /// The menu closes.
    Close,
    /// The application exits.
    Quit,
}

/// Whether a tray event toggles the menu: a left or right button going down.
pub open spec fn toggles_menu(event: TrayEvent) -> bool {
    match event {
        TrayEvent::Click { button, state } => (button is Left || button is Right) && state is Down,
        TrayEvent::Other => false,
    }
}

/// The outcome of one frame of the open menu, after `frames` frames open.
pub open spec fn menu_outcome(frames: usize, input: MenuInput) -> MenuOutcome {
    if input.quit_clicked {
        MenuOutcome::Quit
    } else if input.settings_clicked || (frames > MENU_GRACE_FRAMES && input.pressed_outside) {
        MenuOutcome::Close
    } else {
        MenuOutcome::Stay
    }
}

/// The menu's open flag and frame count after a tray event.
pub open spec fn tray_transition(tray_present: bool, open: bool, frames: usize, event: TrayEvent) -> (
    bool,
    usize,
) {
    if tray_present && toggles_menu(event) {
        (!open, 0)
    } else {
        (open, frames)
    }
}

/// The menu's open flag and frame count after one frame of the open menu.
pub open spec fn menu_frame_transition(frames: usize, input: MenuInput) -> (bool, usize) {
    match menu_outcome(frames, input) {
        MenuOutcome::Quit => (true, frames),
        MenuOutcome::Close => (false, (frames + 1) as usize),
        MenuOutcome::Stay => (true, (frames + 1) as usize),
    }
}

/// Whether a frame places the pill, and whether the pill is placed after it.
pub open spec fn placement_transition(positioned: bool, monitor_known: bool) -> (bool, bool) {
    (!positioned && monitor_known, positioned || monitor_known)
}

/// The overlay's state apart from its animation.
pub struct OverlayState {
    tray_present: bool,
    menu_open: bool,
    frames_since_menu_open: usize,
    has_positioned: bool,
}

impl OverlayState {
    pub closed spec fn tray_present_spec(&self) -> bool {
        self.tray_present
    }

    pub closed spec fn menu_open_spec(&self) -> bool {
        self.menu_open
    }

    pub closed spec fn frames_spec(&self) -> usize {
        self.frames_since_menu_open
    }

    pub closed spec fn positioned_spec(&self) -> bool {
        self.has_positioned
    }

    /// The state of a fresh overlay: menu closed, pill not yet placed.
    pub fn new(tray_present: bool) -> (s: Self)
        ensures
            s.tray_present_spec() == tray_present,
            !s.menu_open_spec(),
            s.frames_spec() == 0,
            !s.positioned_spec(),
    {
        OverlayState { tray_present, menu_open: false, frames_since_menu_open: 0, has_positioned: false }
    }

    /// Whether the menu is shown this frame.
    pub fn menu_visible(&self) -> (b: bool)
        ensures
            b == (self.tray_present_spec() && self.menu_open_spec()),
    {
        self.tray_present && self.menu_open
    }

    /// Whether [`Self::menu_frame`] can run now: the menu is visible and its
    /// frame count can still grow.
    pub fn can_run_menu_frame(&self) -> (b: bool)
        ensures
            b == (self.tray_present_spec() && self.menu_open_spec() && self.frames_spec()
                < usize::MAX),
    {
        self.tray_present && self.menu_open && self.frames_since_menu_open < usize::MAX
    }

    /// Takes one tray event. Returns whether it toggled the menu, in which
    /// case the caller moves the menu next to the click.
    pub fn on_tray_event(&mut self, event: TrayEvent) -> (toggled: bool)
        ensures
            toggled == (old(self).tray_present_spec() && toggles_menu(event)),
            (final(self).menu_open_spec(), final(self).frames_spec()) == tray_transition(
                old(self).tray_present_spec(),
                old(self).menu_open_spec(),
                old(self).frames_spec(),
                event,
            ),
            final(self).tray_present_spec() == old(self).tray_present_spec(),
            final(self).positioned_spec() == old(self).positioned_spec(),
    {
        if !self.tray_present {
            return false;
        }
        let toggles = match event {
            TrayEvent::Click { button, state } => {
                let relevant = match button {
                    MouseButton::Left => true,
                    MouseButton::Right => true,
                    MouseButton::Middle => false,
                };
                let down = match state {
                    ButtonState::Down => true,
                    ButtonState::Up => false,
                };
                relevant && down
            },
            TrayEvent::Other => false,
        };
        if toggles {
            self.menu_open = !self.menu_open;
            self.frames_since_menu_open = 0;
        }
        toggles
    }

    /// Runs one frame of the visible menu with what the user did in it.
    pub fn menu_frame(&mut self, input: MenuInput) -> (outcome: MenuOutcome)
        requires
            old(self).tray_present_spec() && old(self).menu_open_spec(),
            old(self).frames_spec() < usize::MAX,
        ensures
            outcome == menu_outcome(old(self).frames_spec(), input),
            (final(self).menu_open_spec(), final(self).frames_spec()) == menu_frame_transition(
                old(self).frames_spec(),
                input,
            ),
            final(self).tray_present_spec() == old(self).tray_present_spec(),
            final(self).positioned_spec() == old(self).positioned_spec(),
    {
        if input.quit_clicked {
            return MenuOutcome::Quit;
        }
        let mut should_close = input.settings_clicked;
        if self.frames_since_menu_open > MENU_GRACE_FRAMES && input.pressed_outside {
            should_close = true;
        }
        self.frames_since_menu_open = self.frames_since_menu_open + 1;
        if should_close {
            self.menu_open = false;
            MenuOutcome::Close
        } else {
            MenuOutcome::Stay
        }
    }

    /// Whether to place the pill now: once, on the first frame on which the
    /// monitor's size is known.
    pub fn take_placement(&mut self, monitor_known: bool) -> (place: bool)
        ensures
            (place, final(self).positioned_spec()) == placement_transition(
                old(self).positioned_spec(),
                monitor_known,
            ),
            final(self).tray_present_spec() == old(self).tray_present_spec(),
            final(self).menu_open_spec() == old(self).menu_open_spec(),
            final(self).frames_spec() == old(self).frames_spec(),
    {
        if !self.has_positioned && monitor_known {
            self.has_positioned = true;
            true
        } else {
            false
        }
    }
}

/// The pill's target width and height in points.
pub open spec fn pill_target_spec(listening: bool) -> (u32, u32) {
    if listening {
        (280, 60)
    } else {
        (180, 12)
    }
}

/// The size the pill grows or shrinks towards: wide and tall while
/// listening, a thin bar otherwise.
pub fn pill_target_size(listening: bool) -> (size: (u32, u32))
    ensures
        size == pill_target_spec(listening),
{
    if listening {
        (280, 60)
    } else {
        (180, 12)
    }
}

/// The colour of stem `i`: the first third cyan, the second magenta, the
/// last purple (a stem's band is `i / 15` against 0.33 and 0.66).
pub open spec fn stem_color_spec(i: int) -> (u8, u8, u8) {
    if 100 * i < 33 * 15 {
        (0, 255, 255)
    } else if 100 * i < 66 * 15 {
        (255, 0, 255)
    } else {
        (128, 0, 255)
    }
}

/// The RGB colour of stem `i` of the level meter.
pub fn stem_color(i: usize) -> (rgb: (u8, u8, u8))
    ensures
        rgb == stem_color_spec(i as int),
{
    if i < 5 {
        (0, 255, 255)
    } else if i < 10 {
        (255, 0, 255)
    } else {
        (128, 0, 255)
    }
}

/// Two clicks that toggle the menu leave it as it was.
pub proof fn menu_click_twice_restores(
    tray_present: bool,
    open: bool,
    frames: usize,
    first: TrayEvent,
    second: TrayEvent,
)
    requires
        toggles_menu(first),
        toggles_menu(second),
    ensures
        tray_transition(
            tray_present,
            tray_transition(tray_present, open, frames, first).0,
            tray_transition(tray_present, open, frames, first).1,
            second,
        ).0 == open,
{
}

/// Without a tray icon no event opens the menu.
pub proof fn no_menu_without_tray(open: bool, frames: usize, event: TrayEvent)
    ensures
        tray_transition(false, open, frames, event) == (open, frames),
{
}

/// During its first frames the open menu ignores presses outside it; only
/// its own entries act on it then.
pub proof fn menu_grace_period(frames: usize, input: MenuInput)
    requires
        frames <= MENU_GRACE_FRAMES,
        !input.quit_clicked,
        !input.settings_clicked,
    ensures
        menu_outcome(frames, input) == MenuOutcome::Stay,
{
}

/// After its grace frames, a press outside the menu closes it; "Quit"
/// always quits and "Settings" always closes.
pub proof fn menu_entries_and_outside_press(frames: usize, input: MenuInput)
    ensures
        input.quit_clicked ==> menu_outcome(frames, input) == MenuOutcome::Quit,
        !input.quit_clicked && input.settings_clicked ==> menu_outcome(frames, input)
            == MenuOutcome::Close,
        !input.quit_clicked && frames > MENU_GRACE_FRAMES && input.pressed_outside ==> menu_outcome(
            frames,
            input,
        ) == MenuOutcome::Close,
{
}

/// The stems fall into three bands of five: cyan, magenta, purple.
pub proof fn stem_color_bands(i: int)
    requires
        0 <= i < NUM_STEMS,
    ensures
        0 <= i < 5 ==> stem_color_spec(i) == (0u8, 255u8, 255u8),
        5 <= i < 10 ==> stem_color_spec(i) == (255u8, 0u8, 255u8),
        10 <= i < 15 ==> stem_color_spec(i) == (128u8, 0u8, 255u8),
{
}

/// The pill is placed at most once: once a frame has placed it, no later
/// frame places it again.
pub proof fn placed_at_most_once(positioned: bool, first: bool, second: bool)
    ensures
        placement_transition(positioned, first).0 ==> !placement_transition(
            placement_transition(positioned, first).1,
            second,
        ).0,
        positioned ==> !placement_transition(positioned, first).0,
{
}

/// One frame of the open menu, in terms of what the user did: "Quit" quits;
/// otherwise the menu closes exactly when "Settings" was clicked or, after
/// the first 5 frames (`frames > 5`), a press landed outside it. With no
/// click and no press outside, it stays open however long it has been open.
/// A frame that does not quit counts one more frame; a closed menu is closed.
pub proof fn menu_frame_by_user_action(frames: usize, input: MenuInput)
    requires
        frames < usize::MAX,
    ensures
        menu_outcome(frames, input) is Quit <==> input.quit_clicked,
        menu_outcome(frames, input) is Close <==> !input.quit_clicked && (input.settings_clicked || (
        frames > 5 && input.pressed_outside)),
        menu_outcome(frames, input) is Stay <==> !input.quit_clicked && !input.settings_clicked && !(
        frames > 5 && input.pressed_outside),
        !input.quit_clicked && !input.settings_clicked && !input.pressed_outside ==> menu_outcome(
            frames,
            input,
        ) is Stay && menu_frame_transition(frames, input) == (true, (frames + 1) as usize),
        !input.quit_clicked ==> menu_frame_transition(frames, input).1 == frames + 1,
        menu_frame_transition(frames, input).0 <==> !(menu_outcome(frames, input) is Close),
{
}

/// A tray click toggles the menu exactly when a left or right button goes
/// down: a button coming up, a middle click or any other event leaves the
/// menu and its frame count as they were; a toggling click with a tray flips
/// the menu and restarts the frame count.
pub proof fn tray_click_by_button(
    tray_present: bool,
    open: bool,
    frames: usize,
    button: MouseButton,
    state: ButtonState,
)
    ensures
        state is Up ==> tray_transition(
            tray_present,
            open,
            frames,
            TrayEvent::Click { button, state },
        ) == (open, frames),
        button is Middle ==> tray_transition(
            tray_present,
            open,
            frames,
            TrayEvent::Click { button, state },
        ) == (open, frames),
        tray_transition(tray_present, open, frames, TrayEvent::Other) == (open, frames),
        tray_present && state is Down && (button is Left || button is Right) ==> tray_transition(
            tray_present,
            open,
            frames,
            TrayEvent::Click { button, state },
        ) == (!open, 0usize),
        toggles_menu(TrayEvent::Click { button, state }) <==> state is Down && !(button is Middle),
{
}

/// The number of frames, among the given ones, on which the pill is placed,
/// starting with the placed flag `positioned`; `known[i]` says whether the
/// monitor's size is known on frame `i`.
pub open spec fn placements(positioned: bool, known: Seq<bool>) -> nat
    decreases known.len(),
{
    if known.len() == 0 {
        0
    } else {
        let (place, next) = placement_transition(positioned, known[0]);
        (if place { 1nat } else { 0nat }) + placements(next, known.drop_first())
    }
}

/// Once placed, the pill stays placed and no frame places it again; over any
/// run of frames the pill is placed at most once, and exactly once when the
/// monitor's size is known on some frame of a run that starts unplaced.
pub proof fn pill_placed_once_over_any_run(positioned: bool, known: Seq<bool>)
    ensures
        positioned ==> placements(positioned, known) == 0,
        placements(positioned, known) <= 1,
        !positioned ==> (placements(positioned, known) == 1 <==> known.contains(true)),
        forall|m: bool| positioned ==> #[trigger] placement_transition(positioned, m) == (false, true),
    decreases known.len(),
{
    if known.len() > 0 {
        let (place, next) = placement_transition(positioned, known[0]);
        pill_placed_once_over_any_run(next, known.drop_first());
        if !positioned {
            if known.contains(true) && !known[0] {
                let j = choose|j: int| 0 <= j < known.len() && known[j] == true;
                assert(known.drop_first()[j - 1] == true);
            }
            if known.drop_first().contains(true) {
                let j = choose|j: int| 0 <= j < known.drop_first().len() && known.drop_first()[j] == true;
                assert(known[j + 1] == true);
            }
        }
    }
}

/// The pill is larger while listening than while idle, in both dimensions.
pub proof fn listening_pill_is_larger()
    ensures
        pill_target_spec(true).0 > pill_target_spec(false).0,
        pill_target_spec(true).1 > pill_target_spec(false).1,
        pill_target_spec(true) == (280u32, 60u32),
        pill_target_spec(false) == (180u32, 12u32),
{
}

} // verus!
