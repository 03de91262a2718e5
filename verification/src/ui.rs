//! The state of the interactive inspector, and what a key press, a finished
//! step and a change of the window's height do to it.
//!
//! The inspector shows two panes, the registers and the memory as words,
//! with a cursor row in each and a first row shown. Enter opens an editor on
//! the row under the cursor; in the editor, Enter writes what was typed, a
//! number or an instruction, to that register or word. Drawing and reading
//! the keyboard are the caller's.

use crate::bus::Bus;
use crate::instruction::decode::chars_of_int;
use crate::instruction::decode::decimal;
use crate::instruction::decode::digits_of;
use crate::instruction::decode::nat_decimal;
use crate::instruction::encode::encode_line;
use crate::instruction::encode::parse_u32;
use crate::instruction::encode::spec_encode_instruction;
use crate::instruction::encode::u32_value;
use crate::rv32i::CoreState;
use crate::rv32i::RV32I;
use crate::step::TickResult;
use crate::Volatile;
use vstd::prelude::*;
use vstd::string::*;

verus! {

/// What the caller is to do after a key press.
#[derive(Clone, Copy, Debug, PartialEq, Eq, Structural)]
pub enum UIEvent {
    Nothing,
    /// Run one step.
    Tick,
    /// Leave.
    Exit,
}

/// A key of the keyboard.
#[derive(Clone, Copy, Debug, PartialEq, Eq, Structural)]
pub enum Key {
    Char(char),
    Backspace,
    Esc,
    Enter,
    Up,
    Down,
    Left,
    Right,
    Other,
}

/// One of the two panes.
#[derive(Clone, Copy, Debug, PartialEq, Eq, Structural)]
pub enum Pane {
    Registers,
    Memory,
}

/// An open editor: what was typed, and the register or memory word that it
/// is for.
pub struct EditInfo {
    pub text: Vec<char>,
    pub index: usize,
    pub is_memory: bool,
}

/// An open editor, with its text as a sequence.
pub struct EditView {
    pub text: Seq<char>,
    pub index: usize,
    pub is_memory: bool,
}

impl View for EditInfo {
    type V = EditView;

    open spec fn view(&self) -> EditView {
        EditView { text: self.text@, index: self.index, is_memory: self.is_memory }
    }
}

/// The state of the inspector.
pub struct UserInterface {
    /// Whether steps run on their own.
    pub continuous: bool,
    /// Whether a breakpoint ends a continuous run.
    pub stop_at_breakpoint: bool,
    pub message: Option<String>,
    pub edit: Option<EditInfo>,
    /// The pane that has the cursor.
    pub pane: Pane,
    /// The cursor row of the registers and of the memory, counted from the
    /// first row shown.
    pub rows: [i32; 2],
    /// The first register shown.
    pub registers_scroll: usize,
    /// The first memory word shown.
    pub memory_scroll: usize,
}

/// The state of the inspector, with its texts as sequences.
pub struct UiView {
    pub continuous: bool,
    pub stop_at_breakpoint: bool,
    pub message: Option<Seq<char>>,
    pub edit: Option<EditView>,
    pub pane: Pane,
    pub register_row: i32,
    pub memory_row: i32,
    pub registers_scroll: usize,
    pub memory_scroll: usize,
}

impl View for UserInterface {
    type V = UiView;

    open spec fn view(&self) -> UiView {
        UiView {
            continuous: self.continuous,
            stop_at_breakpoint: self.stop_at_breakpoint,
            message: match self.message {
                Some(m) => Some(m@),
                None => None,
            },
            edit: match self.edit {
                Some(e) => Some(e@),
                None => None,
            },
            pane: self.pane,
            register_row: self.rows[0],
            memory_row: self.rows[1],
            registers_scroll: self.registers_scroll,
            memory_scroll: self.memory_scroll,
        }
    }
}

/// `v`, or the nearer of `lo` and `hi` where it is not between them.
pub open spec fn clamp(v: int, lo: int, hi: int) -> int {
    if v < lo {
        lo
    } else if v > hi {
        hi
    } else {
        v
    }
}

impl UiView {
    /// What the caller is to do where a key asked for nothing else: one more
    /// step in a continuous run.
    pub open spec fn idle(self) -> UIEvent {
        if self.continuous {
            UIEvent::Tick
        } else {
            UIEvent::Nothing
        }
    }

    /// The cursor row of the pane that has the cursor.
    pub open spec fn row(self) -> i32 {
        match self.pane {
            Pane::Registers => self.register_row,
            Pane::Memory => self.memory_row,
        }
    }

    /// The state with the cursor at `row` in its pane.
    pub open spec fn at_row(self, row: i32) -> UiView {
        match self.pane {
            Pane::Registers => UiView { register_row: row, ..self },
            Pane::Memory => UiView { memory_row: row, ..self },
        }
    }

    /// The register or memory word at the cursor row of `pane`: the first
    /// one shown plus the cursor row, a row above the top counting as the
    /// top.
    pub open spec fn row_index(self, pane: Pane) -> usize {
        let (first, row) = match pane {
            Pane::Registers => (self.registers_scroll, self.register_row),
            Pane::Memory => (self.memory_scroll, self.memory_row),
        };
        clamp(first + clamp(row as int, 0, i32::MAX as int), 0, usize::MAX as int) as usize
    }

    /// The register or memory word under the cursor.
    pub open spec fn selected(self) -> usize {
        self.row_index(self.pane)
    }
}

/// A cursor row moved by `by`, as far as a row can go.
pub open spec fn step_row(row: i32, by: int) -> i32 {
    clamp(row + by, i32::MIN as int, i32::MAX as int) as i32
}

/// The rows from `first` on that a window of `height` rows shows of `count`
/// rows: where they begin, and where they end.
pub open spec fn shown(first: usize, height: usize, count: usize) -> (usize, usize) {
    let last = if count < first {
        first
    } else {
        count
    };
    (
        first,
        if first + height > last {
            last
        } else {
            (first + height) as usize
        },
    )
}

/// What the text in the editor stands for: a number, or else an
/// instruction.
pub open spec fn typed_value(text: Seq<char>) -> Option<u32> {
    match u32_value(text) {
        Some(n) => Some(n),
        None => spec_encode_instruction(text),
    }
}

/// The value shown for register or memory word `index`, as the editor
/// opens with it: zero for one that does not exist.
pub open spec fn shown_value(s: CoreState, is_memory: bool, index: usize) -> Seq<char> {
    if is_memory {
        nat_decimal(Bus::spec_load(s.mem, index * 4, 32) as nat)
    } else if index < 32 {
        decimal(s.regs[index as int] as int)
    } else {
        decimal(0)
    }
}

/// The base after `value` was written to register or memory word `index`:
/// unchanged for one that does not exist.
pub open spec fn written(s: CoreState, is_memory: bool, index: usize, value: u32) -> CoreState {
    if is_memory {
        CoreState { mem: Bus::spec_store(s.mem, index * 4, 32, value), ..s }
    } else if index < 32 {
        s.write(index as u8, value as i32)
    } else {
        s
    }
}

/// The inspector and the base after a key press, and what the caller is to
/// do.
pub open spec fn spec_key(ui: UiView, s: CoreState, key: Key, control: bool) -> (
    UiView,
    CoreState,
    UIEvent,
) {
    match ui.edit {
        Some(info) => match key {
            Key::Char(c) => (
                UiView { edit: Some(EditView { text: info.text.push(c), ..info }), ..ui },
                s,
                ui.idle(),
            ),
            Key::Backspace => (
                UiView {
                    edit: Some(
                        EditView {
                            text: if info.text.len() > 0 {
                                info.text.drop_last()
                            } else {
                                info.text
                            },
                            ..info
                        },
                    ),
                    ..ui
                },
                s,
                ui.idle(),
            ),
            Key::Esc => (UiView { edit: None, ..ui }, s, ui.idle()),
            Key::Enter => match typed_value(info.text) {
                Some(value) => (
                    UiView { edit: None, ..ui },
                    written(s, info.is_memory, info.index, value),
                    ui.idle(),
                ),
                None => (ui, s, UIEvent::Nothing),
            },
            _ => (ui, s, ui.idle()),
        },
        None => match key {
            Key::Char(c) => if c == 'q' || (c == 'c' && control) {
                (ui, s, UIEvent::Exit)
            } else if c == ' ' {
                (
                    UiView { continuous: !ui.continuous, ..ui },
                    s,
                    (UiView { continuous: !ui.continuous, ..ui }).idle(),
                )
            } else if c == 's' {
                (UiView { continuous: false, ..ui }, s, UIEvent::Tick)
            } else if c == 'b' {
                (UiView { stop_at_breakpoint: !ui.stop_at_breakpoint, ..ui }, s, ui.idle())
            } else {
                (ui, s, ui.idle())
            },
            Key::Up => (ui.at_row(step_row(ui.row(), -1)), s, ui.idle()),
            Key::Down => (ui.at_row(step_row(ui.row(), 1)), s, ui.idle()),
            Key::Left => (UiView { pane: Pane::Registers, ..ui }, s, ui.idle()),
            Key::Right => (UiView { pane: Pane::Memory, ..ui }, s, ui.idle()),
            Key::Enter => (
                UiView {
                    edit: Some(
                        EditView {
                            text: shown_value(s, ui.pane is Memory, ui.selected()),
                            index: ui.selected(),
                            is_memory: ui.pane is Memory,
                        },
                    ),
                    ..ui
                },
                s,
                ui.idle(),
            ),
            _ => (ui, s, ui.idle()),
        },
    }
}

/// The inspector after a step ended with `result`: the message of the last
/// step is gone; a breakpoint leaves its own and ends a continuous run where
/// the inspector is set to stop at breakpoints; an environment call leaves
/// its own and changes nothing else.
pub open spec fn spec_tick_event(ui: UiView, result: TickResult) -> UiView {
    if result is EBreak {
        UiView {
            continuous: ui.continuous && !ui.stop_at_breakpoint,
            message: Some("Breakpoint"@),
            ..ui
        }
    } else if result is ECall {
        UiView { message: Some("Environment call"@), ..ui }
    } else {
        UiView { message: None, ..ui }
    }
}

/// The inspector after it was fitted to panes of the given heights, over a
/// memory of `words` words: a cursor beyond the last row moves the first row
/// shown on by one, a cursor above the first row moves it back by one, and
/// the cursor comes to rest inside the pane.
pub open spec fn spec_scroll(
    ui: UiView,
    registers_height: i32,
    memory_height: i32,
    words: usize,
) -> UiView {
    match ui.pane {
        Pane::Registers => UiView {
            registers_scroll: if ui.register_row > registers_height && ui.registers_scroll
                < clamp(31 - registers_height, 0, 31) {
                (ui.registers_scroll + 1) as usize
            } else if ui.register_row < 0 && ui.registers_scroll > 0 {
                (ui.registers_scroll - 1) as usize
            } else {
                ui.registers_scroll
            },
            register_row: clamp(
                ui.register_row as int,
                0,
                clamp(registers_height as int, 0, 31),
            ) as i32,
            ..ui
        },
        Pane::Memory => UiView {
            memory_scroll: clamp(
                if ui.memory_row > memory_height {
                    ui.memory_scroll + 1
                } else if ui.memory_row < 0 && ui.memory_scroll > 0 {
                    ui.memory_scroll - 1
                } else {
                    ui.memory_scroll as int
                },
                0,
                words - memory_height - 1,
            ) as usize,
            memory_row: clamp(ui.memory_row as int, 0, memory_height as int) as i32,
            ..ui
        },
    }
}

impl UserInterface {
    /// An inspector that steps on request, stops at breakpoints, and has its
    /// cursor on the first register.
    pub fn new() -> (r: Self)
        ensures
            r@ == (UiView {
                continuous: false,
                stop_at_breakpoint: true,
                message: None,
                edit: None,
                pane: Pane::Registers,
                register_row: 0,
                memory_row: 0,
                registers_scroll: 0,
                memory_scroll: 0,
            }),
    {
        Self {
            continuous: false,
            stop_at_breakpoint: true,
            message: None,
            edit: None,
            pane: Pane::Registers,
            rows: [0i32;2],
            registers_scroll: 0,
            memory_scroll: 0,
        }
    }

    fn idle(&self) -> (e: UIEvent)
        ensures
            e == self@.idle(),
    {
        if self.continuous {
            UIEvent::Tick
        } else {
            UIEvent::Nothing
        }
    }

    /// The register or memory word under the cursor.
    pub fn selected(&self) -> (index: usize)
        ensures
            index == self@.selected(),
    {
        self.row_index(self.pane)
    }

    /// The register or memory word at the cursor row of `pane`.
    pub fn row_index(&self, pane: Pane) -> (index: usize)
        ensures
            index == self@.row_index(pane),
    {
        let (first, row) = match pane {
            Pane::Registers => (self.registers_scroll, self.rows[0]),
            Pane::Memory => (self.memory_scroll, self.rows[1]),
        };
        let row: usize = if row < 0 {
            0
        } else {
            row as usize
        };
        first.saturating_add(row)
    }

    /// The registers that a window of `height` rows shows: from the first
    /// one shown, as many as fit, and none beyond the thirty-second.
    pub fn shown_registers(&self, height: usize) -> (r: (usize, usize))
        ensures
            r == shown(self@.registers_scroll, height, 32),
    {
        rows_shown(self.registers_scroll, height, 32)
    }

    /// The memory words that a window of `height` rows shows, over a memory
    /// of `words` words.
    pub fn shown_words(&self, height: usize, words: usize) -> (r: (usize, usize))
        ensures
            r == shown(self@.memory_scroll, height, words),
    {
        rows_shown(self.memory_scroll, height, words)
    }

    fn move_cursor(&mut self, down: bool)
        ensures
            final(self)@ == old(self)@.at_row(
                step_row(
                    old(self)@.row(),
                    if down {
                        1
                    } else {
                        -1
                    },
                ),
            ),
    {
        let i: usize = match self.pane {
            Pane::Registers => 0,
            Pane::Memory => 1,
        };
        let row = self.rows[i];
        if down {
            if row < i32::MAX {
                self.rows[i] = row + 1;
            }
        } else if row > i32::MIN {
            self.rows[i] = row - 1;
        }
    }

    /// Takes a key press.
    pub fn key(&mut self, key: Key, control: bool, rv_base: &mut RV32I) -> (e: UIEvent)
        ensures
            (final(self)@, final(rv_base)@, e) == spec_key(
                old(self)@,
                old(rv_base)@,
                key,
                control,
            ),
    {
        proof {
            rv_base.lemma_registers();
        }
        match self.edit.take() {
            Some(mut info) => {
                match key {
                    Key::Char(c) => {
                        info.text.push(c);
                        self.edit = Some(info);
                    },
                    Key::Backspace => {
                        info.text.pop();
                        self.edit = Some(info);
                    },
                    Key::Esc => {},
                    Key::Enter => {
                        let number = match parse_u32(&info.text) {
                            Some(n) => Some(n),
                            None => encode_line(&info.text),
                        };
                        match number {
                            None => {
                                self.edit = Some(info);
                                return UIEvent::Nothing;
                            },
                            Some(number) => {
                                write_value(rv_base, info.is_memory, info.index, number);
                            },
                        }
                    },
                    _ => {
                        self.edit = Some(info);
                    },
                }
            },
            None => {
                match key {
                    Key::Char(c) => {
                        if c == 'q' || (c == 'c' && control) {
                            return UIEvent::Exit;
                        } else if c == ' ' {
                            self.continuous = !self.continuous;
                        } else if c == 's' {
                            self.continuous = false;
                            return UIEvent::Tick;
                        } else if c == 'b' {
                            self.stop_at_breakpoint = !self.stop_at_breakpoint;
                        }
                    },
                    Key::Up => {
                        self.move_cursor(false);
                    },
                    Key::Down => {
                        self.move_cursor(true);
                    },
                    Key::Left => {
                        self.pane = Pane::Registers;
                    },
                    Key::Right => {
                        self.pane = Pane::Memory;
                    },
                    Key::Enter => {
                        let index = self.selected();
                        let is_memory = match self.pane {
                            Pane::Memory => true,
                            Pane::Registers => false,
                        };
                        let text = read_value(rv_base, is_memory, index);
                        self.edit = Some(EditInfo { text, index, is_memory });
                    },
                    _ => {},
                }
            },
        }
        self.idle()
    }

    /// Takes the result of a step.
    pub fn tick_event(&mut self, result: TickResult)
        ensures
            final(self)@ == spec_tick_event(old(self)@, result),
    {
        self.message = None;
        match result {
            TickResult::EBreak => {
                if self.stop_at_breakpoint {
                    self.continuous = false;
                }
                self.message = Some(String::from_str("Breakpoint"));
            },
            TickResult::ECall => {
                self.message = Some(String::from_str("Environment call"));
            },
            _ => (),
        }
    }

    /// Fits the cursor and the first rows shown to panes of the given
    /// heights, over a memory of `words` words.
    pub fn scroll(&mut self, registers_height: i32, memory_height: i32, words: usize)
        requires
            0 <= registers_height,
            0 <= memory_height < words,
        ensures
            final(self)@ == spec_scroll(old(self)@, registers_height, memory_height, words),
    {
        match self.pane {
            Pane::Registers => {
                let height = registers_height;
                let room: usize = if height >= 31 {
                    0
                } else {
                    (31 - height) as usize
                };
                if self.rows[0] > height && self.registers_scroll < room {
                    self.registers_scroll += 1;
                } else if self.rows[0] < 0 && self.registers_scroll > 0 {
                    self.registers_scroll -= 1;
                }
                let last: i32 = if height < 31 {
                    height
                } else {
                    31
                };
                if self.rows[0] < 0 {
                    self.rows[0] = 0;
                } else if self.rows[0] > last {
                    self.rows[0] = last;
                }
            },
            Pane::Memory => {
                let height = memory_height;
                let last: usize = words - height as usize - 1;
                if self.rows[1] > height {
                    if self.memory_scroll < last {
                        self.memory_scroll += 1;
                    }
                } else if self.rows[1] < 0 && self.memory_scroll > 0 {
                    self.memory_scroll -= 1;
                }
                if self.rows[1] < 0 {
                    self.rows[1] = 0;
                } else if self.rows[1] > height {
                    self.rows[1] = height;
                }
                if self.memory_scroll > last {
                    self.memory_scroll = last;
                }
            },
        }
    }
}

fn rows_shown(first: usize, height: usize, count: usize) -> (r: (usize, usize))
    ensures
        r == shown(first, height, count),
{
    let last = if count < first {
        first
    } else {
        count
    };
    let end = first.saturating_add(height);
    (
        first,
        if end > last {
            last
        } else {
            end
        },
    )
}

/// Reads register or memory word `index` for the editor.
fn read_value(rv_base: &RV32I, is_memory: bool, index: usize) -> (text: Vec<char>)
    ensures
        text@ == shown_value(rv_base@, is_memory, index),
{
    proof {
        rv_base.lemma_registers();
    }
    if is_memory {
        let bus = rv_base.bus_ref();
        proof {
            bus.dram.lemma_size();
        }
        let value = match index.checked_mul(4) {
            Some(addr) => bus.load(addr, 32),
            None => 0,
        };
        digits_of(value)
    } else if index < 32 {
        chars_of_int(rv_base.get(index))
    } else {
        chars_of_int(0)
    }
}

/// Writes `value` to register or memory word `index`.
fn write_value(rv_base: &mut RV32I, is_memory: bool, index: usize, value: u32)
    ensures
        final(rv_base)@ == written(old(rv_base)@, is_memory, index, value),
{
    proof {
        rv_base.lemma_registers();
    }
    if is_memory {
        let bus = rv_base.bus();
        proof {
            bus.dram.lemma_size();
        }
        match index.checked_mul(4) {
            Some(addr) => bus.store(addr, 32, value),
            None => (),
        }
    } else if index < 32 {
        rv_base.set(index, value as i32);
    }
}

} // verus!
