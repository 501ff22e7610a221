use vstd::prelude::*;

verus! {

/// Milliseconds without a button press after which the menu path is dropped.
pub const IDLE_TIMEOUT_MS: u64 = 10000;

/// The requestable screens that the menu reaches.
#[derive(Clone, Copy, Debug, PartialEq, Eq, Structural)]
pub enum MenuScreen {
    Measurements,
    Temps,
    Events,
    Totp,
    Rpi,
}

/// What a recognised menu path does to the context.
#[derive(Clone, Copy, Debug, PartialEq, Eq, Structural)]
pub enum MenuAction {
    Nothing,
    /// Push the screen.
    Show(MenuScreen),
    /// Pop the top screen (clearing the display), then push the screen.
    Replace(MenuScreen),
    /// Leave the overlay: pop the top screen, clear the display, silence the buzzer.
    Back,
    /// Turn the page of the TOTP screen on top.
    NextPage,
    BuzzerOn,
    BuzzerOff,
}

/// A recognised path: its action, whether the last press is then forgotten (so that
/// pressing it again re-enters the submenu), and whether the whole path is then dropped.
#[derive(Clone, Copy, Debug, PartialEq, Eq, Structural)]
pub struct MenuEntry {
    pub action: MenuAction,
    pub pop_last: bool,
    pub clear: bool,
}

pub open spec fn screen_id(s: MenuScreen) -> Seq<char> {
    match s {
        MenuScreen::Measurements => "measurements"@,
        MenuScreen::Temps => "measurements_temps"@,
        MenuScreen::Events => "measurements_events"@,
        MenuScreen::Totp => "totp"@,
        MenuScreen::Rpi => "rpi"@,
    }
}

pub open spec fn entry(action: MenuAction, pop_last: bool, clear: bool) -> MenuEntry {
    MenuEntry { action, pop_last, clear }
}

/// The table of known paths; any other path does nothing (yet).
pub open spec fn path_entry(p: Seq<u8>) -> MenuEntry {
    if p =~= seq![1u8] {
        entry(MenuAction::Show(MenuScreen::Measurements), false, false)
    } else if p =~= seq![1u8, 2u8] {
        entry(MenuAction::Replace(MenuScreen::Temps), true, false)
    } else if p =~= seq![1u8, 3u8] {
        entry(MenuAction::Replace(MenuScreen::Events), true, false)
    } else if p =~= seq![2u8] {
        entry(MenuAction::Back, false, true)
    } else if p =~= seq![3u8] {
        entry(MenuAction::Show(MenuScreen::Totp), false, false)
    } else if p =~= seq![3u8, 1u8] {
        entry(MenuAction::NextPage, true, false)
    } else if p =~= seq![3u8, 2u8, 1u8] {
        entry(MenuAction::BuzzerOn, true, false)
    } else if p =~= seq![3u8, 2u8, 3u8] {
        entry(MenuAction::BuzzerOff, true, false)
    } else if p =~= seq![3u8, 3u8] {
        entry(MenuAction::Show(MenuScreen::Rpi), false, true)
    } else {
        entry(MenuAction::Nothing, false, false)
    }
}

/// The logical button (1 to 3) of a line offset of the menu buttons.
pub open spec fn spec_button_index(offset: u32) -> Option<u8> {
    if offset == 5 {
        Some(1u8)
    } else if offset == 6 {
        Some(2u8)
    } else if offset == 19 {
        Some(3u8)
    } else {
        None
    }
}

/// The id of a screen the menu reaches.
pub fn screen_name(s: MenuScreen) -> (r: &'static str)
    ensures
        r@ == screen_id(s),
{
    match s {
        MenuScreen::Measurements => "measurements",
        MenuScreen::Temps => "measurements_temps",
        MenuScreen::Events => "measurements_events",
        MenuScreen::Totp => "totp",
        MenuScreen::Rpi => "rpi",
    }
}

/// The logical button (1 to 3) of a line offset, if it is one of the menu buttons.
pub fn button_index(offset: u32) -> (r: Option<u8>)
    ensures
        r == spec_button_index(offset),
{
    match offset {
        5 => Some(1),
        6 => Some(2),
        19 => Some(3),
        _ => None,
    }
}

/// Looks a path up in the table of known paths.
pub fn match_path(p: &Vec<u8>) -> (r: MenuEntry)
    ensures
        r == path_entry(p@),
{
    let n = p.len();
    if n == 1 && p[0] == 1 {
        assert(p@ =~= seq![1u8]);
        MenuEntry { action: MenuAction::Show(MenuScreen::Measurements), pop_last: false, clear: false }
    } else if n == 2 && p[0] == 1 && p[1] == 2 {
        assert(p@ =~= seq![1u8, 2u8]);
        MenuEntry { action: MenuAction::Replace(MenuScreen::Temps), pop_last: true, clear: false }
    } else if n == 2 && p[0] == 1 && p[1] == 3 {
        assert(p@ =~= seq![1u8, 3u8]);
        MenuEntry { action: MenuAction::Replace(MenuScreen::Events), pop_last: true, clear: false }
    } else if n == 1 && p[0] == 2 {
        assert(p@ =~= seq![2u8]);
        MenuEntry { action: MenuAction::Back, pop_last: false, clear: true }
    } else if n == 1 && p[0] == 3 {
        assert(p@ =~= seq![3u8]);
        MenuEntry { action: MenuAction::Show(MenuScreen::Totp), pop_last: false, clear: false }
    } else if n == 2 && p[0] == 3 && p[1] == 1 {
        assert(p@ =~= seq![3u8, 1u8]);
        MenuEntry { action: MenuAction::NextPage, pop_last: true, clear: false }
    } else if n == 3 && p[0] == 3 && p[1] == 2 && p[2] == 1 {
        assert(p@ =~= seq![3u8, 2u8, 1u8]);
        MenuEntry { action: MenuAction::BuzzerOn, pop_last: true, clear: false }
    } else if n == 3 && p[0] == 3 && p[1] == 2 && p[2] == 3 {
        assert(p@ =~= seq![3u8, 2u8, 3u8]);
        MenuEntry { action: MenuAction::BuzzerOff, pop_last: true, clear: false }
    } else if n == 2 && p[0] == 3 && p[1] == 3 {
        assert(p@ =~= seq![3u8, 3u8]);
        MenuEntry { action: MenuAction::Show(MenuScreen::Rpi), pop_last: false, clear: true }
    } else {
        proof {
            assert(!(p@ =~= seq![1u8]));
            assert(!(p@ =~= seq![1u8, 2u8]));
            assert(!(p@ =~= seq![1u8, 3u8]));
            assert(!(p@ =~= seq![2u8]));
            assert(!(p@ =~= seq![3u8]));
            assert(!(p@ =~= seq![3u8, 1u8]));
            assert(!(p@ =~= seq![3u8, 2u8, 1u8]));
            assert(!(p@ =~= seq![3u8, 2u8, 3u8]));
            assert(!(p@ =~= seq![3u8, 3u8]));
        }
        MenuEntry { action: MenuAction::Nothing, pop_last: false, clear: false }
    }
}

/// The buttons pressed since the path was last dropped, and when the last one was.
#[derive(Debug)]
pub struct Menu {
    pub path: Vec<u8>,
    pub last_press_ms: u64,
}

/// Most presses a menu path holds.
pub const MAX_PATH: usize = 3;

/// The path after a press: the button appended (an unknown line adds nothing); a path
/// already three presses long is dropped first, so the press starts a new one.
pub open spec fn pressed_path(p: Seq<u8>, offset: u32) -> Seq<u8> {
    match spec_button_index(offset) {
        Some(b) => if p.len() >= MAX_PATH { seq![b] } else { p.push(b) },
        None => p,
    }
}

/// The path once a recognised entry has been acted on.
pub open spec fn settled_path(p: Seq<u8>, e: MenuEntry, cleared: bool) -> Seq<u8> {
    if cleared {
        Seq::empty()
    } else if e.pop_last && p.len() > 0 {
        p.drop_last()
    } else {
        p
    }
}

impl Menu {
    pub open spec fn wf(&self) -> bool {
        self.path@.len() <= MAX_PATH
    }

    pub fn new() -> (r: Self)
        ensures
            r.wf(),
            r.path@.len() == 0,
            r.last_press_ms == 0,
    {
        Menu { path: Vec::new(), last_press_ms: 0 }
    }

    /// Records a press of the button on line `offset` at `now_ms`; returns the entry the
    /// new path matches.
    pub fn press(&mut self, offset: u32, now_ms: u64) -> (r: MenuEntry)
        requires
            old(self).wf(),
        ensures
            final(self).wf(),
            final(self).path@ == pressed_path(old(self).path@, offset),
            final(self).last_press_ms == now_ms,
            r == path_entry(final(self).path@),
    {
        self.last_press_ms = now_ms;
        match button_index(offset) {
            Some(b) => {
                if self.path.len() >= MAX_PATH {
                    self.path.clear();
                    self.path.push(b);
                    assert(self.path@ =~= seq![b]);
                } else {
                    self.path.push(b);
                }
            },
            None => {},
        }
        match_path(&self.path)
    }

    /// Forgets the last press (when `pop_last`) or the whole path (when `cleared`).
    pub fn settle(&mut self, e: MenuEntry, cleared: bool)
        requires
            old(self).wf(),
        ensures
            final(self).wf(),
            final(self).path@ == settled_path(old(self).path@, e, cleared),
            final(self).last_press_ms == old(self).last_press_ms,
    {
        if cleared {
            self.path.clear();
        } else if e.pop_last && self.path.len() > 0 {
            let _ = self.path.pop();
        }
    }

    /// Drops a path that has seen no press for ten seconds.
    pub fn expire(&mut self, now_ms: u64)
        requires
            old(self).wf(),
        ensures
            final(self).wf(),
            final(self).last_press_ms == old(self).last_press_ms,
            (old(self).path@.len() > 0 && now_ms >= old(self).last_press_ms && now_ms - old(self).last_press_ms
                >= IDLE_TIMEOUT_MS) ==> final(self).path@.len() == 0,
            !(old(self).path@.len() > 0 && now_ms >= old(self).last_press_ms && now_ms - old(self).last_press_ms
                >= IDLE_TIMEOUT_MS) ==> final(self).path@ == old(self).path@,
    {
        if self.path.len() > 0 && now_ms >= self.last_press_ms && now_ms - self.last_press_ms >= IDLE_TIMEOUT_MS {
            self.path.clear();
        }
    }
}

} // verus!
