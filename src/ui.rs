use vstd::prelude::*;
use crate::frame::{Color565, DrawOp, Font, is_text};
use crate::text::{sub_chars, chars_of, push_all, push_spaces, right_aligned, signed_decimal, signed_decimal_chars, string_from_chars};

verus! {

/// Characters of a name that fit on one line of a dialog.
pub const NAME_WIDTH: usize = 12;

/// Names shown per page of the folder picker.
pub const PICKER_PAGE: usize = 6;

/// What a dialog asks of its owner after a button press.
#[derive(Debug, PartialEq, Eq)]
pub enum UiResult {
    /// Keep the dialog open.
    Ignore,
    /// Close the dialog.
    Close,
    /// Replace the dialog by the one with this id.
    Replace(String),
    /// Close the dialog and play this folder.
    Play(String),
}

/// The outside effect that a button press calls for.
#[derive(Clone, Copy, Debug, PartialEq, Eq, Structural)]
pub enum UiCommand {
    Nothing,
    /// Shut the machine down.
    Shutdown,
    /// Raise the volume by five percent.
    VolumeUp,
    /// Lower the volume by five percent.
    VolumeDown,
}

/// A single-level modal dialog of the music player: shutdown confirmation ("exit",
/// "exit_confirmed"), volume display ("volume", `aux1` = percent) or folder picker
/// ("select", `aux2` = folders, `aux3` = the highlighted one).
#[derive(Debug)]
pub struct Ui {
    pub id: String,
    pub drawn: u32,
    pub aux1: i32,
    pub aux2: Vec<String>,
    pub aux3: usize,
}

/// The name a picker row shows at frame `iters`: the name itself when it fits, else a
/// twelve-character window scrolling through it with twelve spaces before and fourteen after.
pub open spec fn picker_name(name: Seq<char>, iters: int) -> Seq<char> {
    if name.len() <= NAME_WIDTH {
        name
    } else {
        let pad = Seq::new(NAME_WIDTH as nat, |i: int| ' ');
        let full = pad + name + pad + seq![' ', ' '];
        let start = iters % (full.len() - NAME_WIDTH);
        full.subrange(start, start + NAME_WIDTH)
    }
}

/// The volume dialog's text.
pub open spec fn volume_text(percent: int) -> Seq<char> {
    "Volume\n"@ + right_aligned(signed_decimal(percent) + seq!['%'], 12)
}

/// The dialogs a `Ui` can be, by id.
#[derive(Clone, Copy, Debug, PartialEq, Eq, Structural)]
pub enum DialogKind {
    Exit,
    ExitConfirmed,
    Volume,
    Select,
    Other,
}

pub open spec fn dialog_kind(id: Seq<char>) -> DialogKind {
    if id == "exit"@ {
        DialogKind::Exit
    } else if id == "exit_confirmed"@ {
        DialogKind::ExitConfirmed
    } else if id == "volume"@ {
        DialogKind::Volume
    } else if id == "select"@ {
        DialogKind::Select
    } else {
        DialogKind::Other
    }
}

/// Which dialog the id names.
pub fn dialog_kind_of(id: &String) -> (k: DialogKind)
    ensures
        k == dialog_kind(id@),
{
    if *id == "exit".to_owned() {
        DialogKind::Exit
    } else if *id == "exit_confirmed".to_owned() {
        DialogKind::ExitConfirmed
    } else if *id == "volume".to_owned() {
        DialogKind::Volume
    } else if *id == "select".to_owned() {
        DialogKind::Select
    } else {
        DialogKind::Other
    }
}

impl Ui {
    pub open spec fn wf(&self) -> bool {
        &&& self.aux2@.len() == 0 ==> self.aux3 == 0
        &&& self.aux2@.len() > 0 ==> self.aux3 < self.aux2@.len()
    }

    pub fn new(id: &str) -> (r: Self)
        ensures
            r.wf(),
            r.id@ == id@,
            r.drawn == 0,
            r.aux1 == 0,
            r.aux2@.len() == 0,
            r.aux3 == 0,
    {
        Ui { id: id.to_owned(), drawn: 0, aux1: 0, aux2: Vec::new(), aux3: 0 }
    }

    pub fn new_aux1(id: &str, aux1: i32) -> (r: Self)
        ensures
            r.wf(),
            r.id@ == id@,
            r.drawn == 0,
            r.aux1 == aux1,
            r.aux2@.len() == 0,
            r.aux3 == 0,
    {
        Ui { id: id.to_owned(), drawn: 0, aux1, aux2: Vec::new(), aux3: 0 }
    }

    pub fn new_aux2(id: &str, aux2: Vec<String>) -> (r: Self)
        ensures
            r.wf(),
            r.id@ == id@,
            r.drawn == 0,
            r.aux1 == 0,
            r.aux2 == aux2,
            r.aux3 == 0,
    {
        Ui { id: id.to_owned(), drawn: 0, aux1: 0, aux2, aux3: 0 }
    }

    /// Whether the dialog closes by itself: the volume display, once shown.
    pub fn should_close(&self) -> (r: bool)
        ensures
            r == (self.id@ == "volume"@ && self.drawn > 0),
    {
        self.id == "volume".to_owned() && self.drawn > 0
    }

    /// Reacts to a press of logical button `button` (0 to 5).
    pub fn handle(&mut self, button: usize) -> (r: (UiResult, UiCommand))
        requires
            old(self).wf(),
        ensures
            final(self).wf(),
            final(self).id == old(self).id,
            final(self).aux1 == old(self).aux1,
            final(self).aux2 == old(self).aux2,
            ({
                let id = old(self).id@;
                let n = old(self).aux2@.len();
                let k = old(self).aux3;
                if id == "exit"@ {
                    if button == 1 {
                        r.0 is Replace && r.0->Replace_0@ == "exit_confirmed"@ && r.1 == UiCommand::Shutdown
                    } else {
                        r == (UiResult::Close, UiCommand::Nothing)
                    }
                } else if id == "exit_confirmed"@ {
                    r == (UiResult::Ignore, UiCommand::Nothing)
                } else if id == "volume"@ && button == 3 {
                    r.0 is Replace && r.0->Replace_0@ == "volume"@ && r.1 == UiCommand::VolumeUp
                } else if id == "volume"@ && button == 5 {
                    r.0 is Replace && r.0->Replace_0@ == "volume"@ && r.1 == UiCommand::VolumeDown
                } else if id == "select"@ && button == 0 {
                    r.1 == UiCommand::Nothing && if n > 0 {
                        r.0 is Play && r.0->Play_0@ == old(self).aux2@[k as int]@
                    } else {
                        r.0 == UiResult::Close
                    }
                } else if id == "select"@ && button == 2 {
                    r == (UiResult::Ignore, UiCommand::Nothing) && final(self).drawn == 0 && final(self).aux3 == if n == 0 {
                        0
                    } else if k == 0 {
                        (n - 1) as usize
                    } else {
                        (k - 1) as usize
                    }
                } else if id == "select"@ && button == 4 {
                    r == (UiResult::Ignore, UiCommand::Nothing) && final(self).drawn == 0 && final(self).aux3 == if k
                        + 1 >= n {
                        0
                    } else {
                        k + 1
                    }
                } else {
                    r == (UiResult::Close, UiCommand::Nothing)
                }
            }),
            !(old(self).id@ == "select"@ && (button == 2 || button == 4)) ==> final(self).drawn == old(self).drawn
                && final(self).aux3 == old(self).aux3,
    {
        let exit = "exit".to_owned();
        let exit_confirmed = "exit_confirmed".to_owned();
        let volume = "volume".to_owned();
        let select = "select".to_owned();
        if self.id == exit {
            if button == 1 {
                (UiResult::Replace("exit_confirmed".to_owned()), UiCommand::Shutdown)
            } else {
                (UiResult::Close, UiCommand::Nothing)
            }
        } else if self.id == exit_confirmed {
            (UiResult::Ignore, UiCommand::Nothing)
        } else if self.id == volume && button == 3 {
            (UiResult::Replace("volume".to_owned()), UiCommand::VolumeUp)
        } else if self.id == volume && button == 5 {
            (UiResult::Replace("volume".to_owned()), UiCommand::VolumeDown)
        } else if self.id == select && button == 0 {
            if self.aux2.len() > 0 {
                (UiResult::Play(self.aux2[self.aux3].clone()), UiCommand::Nothing)
            } else {
                (UiResult::Close, UiCommand::Nothing)
            }
        } else if self.id == select && button == 2 {
            if self.aux2.len() == 0 {
                self.aux3 = 0;
            } else if self.aux3 == 0 {
                self.aux3 = self.aux2.len() - 1;
            } else {
                self.aux3 -= 1;
            }
            self.drawn = 0;
            (UiResult::Ignore, UiCommand::Nothing)
        } else if self.id == select && button == 4 {
            if self.aux3 >= self.aux2.len() || self.aux2.len() - self.aux3 <= 1 {
                self.aux3 = 0;
            } else {
                self.aux3 += 1;
            }
            self.drawn = 0;
            (UiResult::Ignore, UiCommand::Nothing)
        } else {
            (UiResult::Close, UiCommand::Nothing)
        }
    }

    /// The name a picker row shows at frame `iters` (see `picker_name`).
    pub fn picker_name_of(name: &String, iters: u32) -> (r: String)
        ensures
            r@ == picker_name(name@, iters as int),
    {
        let chars = chars_of(name.as_str());
        if chars.len() <= NAME_WIDTH {
            return string_from_chars(&chars);
        }
        let mut full: Vec<char> = Vec::new();
        push_spaces(&mut full, NAME_WIDTH);
        push_all(&mut full, &chars);
        push_spaces(&mut full, NAME_WIDTH);
        full.push(' ');
        full.push(' ');
        proof {
            let pad = Seq::new(NAME_WIDTH as nat, |i: int| ' ');
            assert(full@ =~= pad + chars@ + pad + seq![' ', ' ']);
        }
        let start = (iters as usize) % (full.len() - NAME_WIDTH);
        string_from_chars(&sub_chars(&full, start, start + NAME_WIDTH))
    }

    /// Draws the dialog. Only the folder picker repaints after its first frame (it may
    /// scroll); the others report no change then.
    pub fn draw(&mut self, ops: &mut Vec<DrawOp>) -> (r: bool)
        requires
            old(self).wf(),
        ensures
            final(self).wf(),
            final(self).id == old(self).id,
            final(self).aux1 == old(self).aux1,
            final(self).aux2 == old(self).aux2,
            final(self).aux3 == old(self).aux3,
            final(self).drawn == if old(self).drawn < u32::MAX { old(self).drawn + 1 } else { old(self).drawn as int },
            r == (final(self).drawn <= 1 || dialog_kind(old(self).id@) == DialogKind::Select),
            !r ==> final(ops)@ == old(ops)@,
            r ==> final(ops)@.len() > old(ops)@.len() && final(ops)@[old(ops)@.len() as int] == DrawOp::Clear(
                Color565 { r: 0, g: 0, b: 0 },
            ),
            r && dialog_kind(old(self).id@) == DialogKind::Exit ==> final(ops)@.len() == old(ops)@.len() + 2 && is_text(
                final(ops)@[old(ops)@.len() as int + 1],
                "Confirm\n   shutdown?"@,
                4,
                44,
                Font::Large,
                Color565 { r: 31, g: 63, b: 31 },
            ),
            r && dialog_kind(old(self).id@) == DialogKind::ExitConfirmed ==> final(ops)@.len() == old(ops)@.len() + 2
                && is_text(
                final(ops)@[old(ops)@.len() as int + 1],
                "Unplug in\n  30 seconds"@,
                4,
                44,
                Font::Large,
                Color565 { r: 31, g: 63, b: 31 },
            ),
            r && dialog_kind(old(self).id@) == DialogKind::Other ==> final(ops)@.len() == old(ops)@.len() + 1,
            r && dialog_kind(old(self).id@) == DialogKind::Volume ==> final(ops)@.len() == old(ops)@.len() + 2 && is_text(
                final(ops)@[old(ops)@.len() as int + 1],
                volume_text(old(self).aux1 as int),
                4,
                44,
                Font::Large,
                Color565 { r: 31, g: 63, b: 31 },
            ),
            r && dialog_kind(old(self).id@) == DialogKind::Select ==> ({
                let start = (old(self).aux3 / PICKER_PAGE) * PICKER_PAGE;
                let n = old(self).aux2@.len();
                let end = if start + PICKER_PAGE < n { start + PICKER_PAGE } else { n as int };
                &&& final(ops)@.len() == old(ops)@.len() + 1 + (end - start)
                &&& forall|i: int|
                    0 <= i < end - start ==> is_text(
                        #[trigger] final(ops)@[old(ops)@.len() + 1 + i],
                        picker_name(old(self).aux2@[start + i]@, final(self).drawn - 1),
                        4,
                        14 + 20 * i,
                        Font::Large,
                        if i == old(self).aux3 % PICKER_PAGE {
                            Color565 { r: 31, g: 0, b: 0 }
                        } else {
                            Color565 { r: 31, g: 63, b: 31 }
                        },
                    )
            }),
    {
        if self.drawn < u32::MAX {
            self.drawn = self.drawn + 1;
        }
        let kind = dialog_kind_of(&self.id);
        let is_select = kind == DialogKind::Select;
        if self.drawn > 1 && !is_select {
            return false;
        }
        let iters = self.drawn - 1;
        let white = Color565::white();
        let ghost before = ops@;
        ops.push(DrawOp::Clear(Color565::black()));
        if kind == DialogKind::Exit {
            ops.push(DrawOp::Text { text: "Confirm\n   shutdown?".to_owned(), x: 4, y: 44, font: Font::Large, color: white });
        } else if kind == DialogKind::ExitConfirmed {
            ops.push(DrawOp::Text { text: "Unplug in\n  30 seconds".to_owned(), x: 4, y: 44, font: Font::Large, color: white });
        } else if kind == DialogKind::Volume {
            let mut amount = signed_decimal_chars(self.aux1);
            amount.push('%');
            let mut v = chars_of("Volume\n");
            if amount.len() < 12 {
                push_spaces(&mut v, 12 - amount.len());
            }
            push_all(&mut v, &amount);
            proof {
                let a = signed_decimal(self.aux1 as int) + seq!['%'];
                assert(amount@ =~= a);
                assert(v@ =~= "Volume\n"@ + right_aligned(a, 12));
            }
            ops.push(DrawOp::Text { text: string_from_chars(&v), x: 4, y: 44, font: Font::Large, color: white });
            assert(is_text(ops@[before.len() as int + 1], volume_text(self.aux1 as int), 4, 44, Font::Large, white));
        } else if is_select {
            let start = (self.aux3 / PICKER_PAGE) * PICKER_PAGE;
            let n = self.aux2.len();
            let end = if n > start && n - start > PICKER_PAGE { start + PICKER_PAGE } else { n };
            let active = self.aux3 % PICKER_PAGE;
            let mut i: usize = 0;
            while i < end - start
                invariant
                    self.wf(),
                    start == (self.aux3 / PICKER_PAGE) * PICKER_PAGE,
                    start <= self.aux3 || n == 0,
                    n == self.aux2@.len(),
                    end == if start + PICKER_PAGE < n { (start + PICKER_PAGE) as int } else { n as int },
                    start <= end,
                    active == self.aux3 % PICKER_PAGE,
                    white == (Color565 { r: 31, g: 63, b: 31 }),
                    iters == self.drawn - 1,
                    i <= end - start,
                    ops@.len() == before.len() + 1 + i,
                    ops@[before.len() as int] == DrawOp::Clear(Color565 { r: 0, g: 0, b: 0 }),
                    forall|j: int|
                        0 <= j < i ==> is_text(
                            #[trigger] ops@[before.len() + 1 + j],
                            picker_name(self.aux2@[start + j]@, iters as int),
                            4,
                            14 + 20 * j,
                            Font::Large,
                            if j == active {
                                Color565 { r: 31, g: 0, b: 0 }
                            } else {
                                Color565 { r: 31, g: 63, b: 31 }
                            },
                        ),
                decreases end - start - i,
            {
                let color = if i == active { Color565 { r: 31, g: 0, b: 0 } } else { white };
                let text = Self::picker_name_of(&self.aux2[start + i], iters);
                let ghost prev = ops@;
                ops.push(DrawOp::Text { text, x: 4, y: 14 + 20 * i as i32, font: Font::Large, color });
                proof {
                    assert forall|j: int| 0 <= j < i implies #[trigger] ops@[before.len() + 1 + j] == prev[before.len() + 1 + j] by {}
                    assert(is_text(ops@[before.len() + 1 + i], picker_name(self.aux2@[start + i]@, iters as int), 4, 14 + 20 * i, Font::Large, color));
                    assert forall|j: int| 0 <= j < i + 1 implies is_text(
                        #[trigger] ops@[before.len() + 1 + j],
                        picker_name(self.aux2@[start + j]@, iters as int),
                        4,
                        14 + 20 * j,
                        Font::Large,
                        if j == active {
                            Color565 { r: 31, g: 0, b: 0 }
                        } else {
                            Color565 { r: 31, g: 63, b: 31 }
                        },
                    ) by {
                        if j < i {
                            assert(ops@[before.len() + 1 + j] == prev[before.len() + 1 + j]);
                        } else {
                            assert(j == i);
                            assert(color == if j == active {
                                Color565 { r: 31, g: 0, b: 0 }
                            } else {
                                Color565 { r: 31, g: 63, b: 31 }
                            });
                        }
                    }
                }
                i += 1;
            }
        }
        true
    }
}

} // verus!

verus! {

/// Line offsets of the player's six buttons, by logical index.
pub open spec fn player_pins() -> Seq<u32> {
    seq![17u32, 22u32, 5u32, 6u32, 26u32, 16u32]
}

/// What a button does while no dialog is open.
#[derive(Clone, Copy, Debug, PartialEq, Eq, Structural)]
pub enum IdleAction {
    Nothing,
    /// Open the folder picker.
    OpenPicker,
    /// Ask whether to shut down.
    OpenExit,
    /// Stop what is playing.
    StopPlayback,
    VolumeUp,
    VolumeDown,
}

/// The logical index (0 to 5) of a line offset of the player's buttons.
pub fn player_button(offset: u32) -> (r: Option<usize>)
    ensures
        match r {
            Some(i) => i < 6 && player_pins()[i as int] == offset,
            None => forall|i: int| 0 <= i < 6 ==> player_pins()[i] != offset,
        },
{
    match offset {
        17 => Some(0),
        22 => Some(1),
        5 => Some(2),
        6 => Some(3),
        26 => Some(4),
        16 => Some(5),
        _ => None,
    }
}

/// What button `idx` does with no dialog open, given whether something is playing.
pub fn idle_action(idx: usize, playing: bool) -> (r: IdleAction)
    ensures
        r == if idx == 0 {
            IdleAction::OpenPicker
        } else if idx == 1 {
            if playing { IdleAction::StopPlayback } else { IdleAction::OpenExit }
        } else if idx == 3 {
            IdleAction::VolumeUp
        } else if idx == 5 {
            IdleAction::VolumeDown
        } else {
            IdleAction::Nothing
        },
{
    match idx {
        0 => IdleAction::OpenPicker,
        1 => if playing { IdleAction::StopPlayback } else { IdleAction::OpenExit },
        3 => IdleAction::VolumeUp,
        5 => IdleAction::VolumeDown,
        _ => IdleAction::Nothing,
    }
}

} // verus!
