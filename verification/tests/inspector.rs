use rvcore::bus::Bus;
use rvcore::rv32i::RV32I;
use rvcore::step::TickResult;
use rvcore::ui::{Key, Pane, UIEvent, UserInterface};
use rvcore::{DRam, Volatile};

fn machine() -> RV32I {
    RV32I::new(Bus::new(DRam::new(256)))
}

fn type_text(ui: &mut UserInterface, c: &mut RV32I, text: &str) {
    for ch in text.chars() {
        ui.key(Key::Char(ch), false, c);
    }
}

fn clear_editor(ui: &mut UserInterface, c: &mut RV32I) {
    while !ui.edit.as_ref().unwrap().text.is_empty() {
        ui.key(Key::Backspace, false, c);
    }
}

#[test]
fn inspector_starts_stepping_on_request() {
    let ui = UserInterface::new();
    assert!(!ui.continuous);
    assert!(ui.stop_at_breakpoint);
    assert!(ui.message.is_none());
    assert!(ui.edit.is_none());
    assert_eq!(ui.pane, Pane::Registers);
    assert_eq!(ui.rows, [0, 0]);
    assert_eq!((ui.registers_scroll, ui.memory_scroll), (0, 0));
}

#[test]
fn keys_outside_the_editor() {
    let mut ui = UserInterface::new();
    let mut c = machine();
    assert_eq!(ui.key(Key::Char('q'), false, &mut c), UIEvent::Exit);
    assert_eq!(ui.key(Key::Char('c'), true, &mut c), UIEvent::Exit);
    assert_eq!(ui.key(Key::Char('c'), false, &mut c), UIEvent::Nothing);
    assert_eq!(ui.key(Key::Other, false, &mut c), UIEvent::Nothing);
    assert_eq!(ui.key(Key::Char('s'), false, &mut c), UIEvent::Tick);
    assert!(!ui.continuous);
    assert_eq!(ui.key(Key::Char(' '), false, &mut c), UIEvent::Tick);
    assert!(ui.continuous);
    assert_eq!(ui.key(Key::Other, false, &mut c), UIEvent::Tick);
    assert_eq!(ui.key(Key::Char('b'), false, &mut c), UIEvent::Tick);
    assert!(!ui.stop_at_breakpoint);
    assert_eq!(ui.key(Key::Char('s'), false, &mut c), UIEvent::Tick);
    assert!(!ui.continuous);
    assert_eq!(ui.key(Key::Char(' '), false, &mut c), UIEvent::Tick);
    assert_eq!(ui.key(Key::Char(' '), false, &mut c), UIEvent::Nothing);
}

#[test]
fn cursor_moves_within_its_pane() {
    let mut ui = UserInterface::new();
    let mut c = machine();
    ui.key(Key::Down, false, &mut c);
    ui.key(Key::Down, false, &mut c);
    assert_eq!(ui.rows, [2, 0]);
    ui.key(Key::Right, false, &mut c);
    ui.key(Key::Right, false, &mut c);
    assert_eq!(ui.pane, Pane::Memory);
    ui.key(Key::Up, false, &mut c);
    assert_eq!(ui.rows, [2, -1]);
    ui.key(Key::Left, false, &mut c);
    assert_eq!(ui.pane, Pane::Registers);
    ui.rows = [i32::MAX, i32::MIN];
    ui.key(Key::Down, false, &mut c);
    assert_eq!(ui.rows, [i32::MAX, i32::MIN]);
    ui.key(Key::Right, false, &mut c);
    ui.key(Key::Up, false, &mut c);
    assert_eq!(ui.rows, [i32::MAX, i32::MIN]);
}

#[test]
fn editor_writes_a_number_to_a_register() {
    let mut ui = UserInterface::new();
    let mut c = machine();
    c.set(3, -5);
    for _ in 0..3 {
        ui.key(Key::Down, false, &mut c);
    }
    assert_eq!(ui.key(Key::Enter, false, &mut c), UIEvent::Nothing);
    {
        let info = ui.edit.as_ref().unwrap();
        assert_eq!(info.text.iter().collect::<String>(), "-5");
        assert_eq!(info.index, 3);
        assert!(!info.is_memory);
    }
    // "-5" is neither a number without a sign nor an instruction
    assert_eq!(ui.key(Key::Enter, false, &mut c), UIEvent::Nothing);
    assert!(ui.edit.is_some());
    clear_editor(&mut ui, &mut c);
    ui.key(Key::Backspace, false, &mut c);
    type_text(&mut ui, &mut c, "4294967295");
    assert_eq!(ui.key(Key::Enter, false, &mut c), UIEvent::Nothing);
    assert!(ui.edit.is_none());
    assert_eq!(c.get(3), -1);
}

#[test]
fn editor_writes_an_instruction_to_memory() {
    let mut ui = UserInterface::new();
    let mut c = machine();
    c.bus().store(8, 32, 1234);
    ui.key(Key::Right, false, &mut c);
    ui.key(Key::Down, false, &mut c);
    ui.key(Key::Down, false, &mut c);
    ui.key(Key::Enter, false, &mut c);
    {
        let info = ui.edit.as_ref().unwrap();
        assert_eq!(info.text.iter().collect::<String>(), "1234");
        assert_eq!(info.index, 2);
        assert!(info.is_memory);
    }
    clear_editor(&mut ui, &mut c);
    type_text(&mut ui, &mut c, "addi x5, x6, 1");
    assert_eq!(ui.key(Key::Enter, false, &mut c), UIEvent::Nothing);
    assert!(ui.edit.is_none());
    assert_eq!(c.bus_ref().load(8, 32), 0x00130293);
}

#[test]
fn editor_keeps_what_it_cannot_read() {
    let mut ui = UserInterface::new();
    let mut c = machine();
    ui.continuous = true;
    ui.key(Key::Enter, false, &mut c);
    clear_editor(&mut ui, &mut c);
    type_text(&mut ui, &mut c, "4294967296");
    // no step while the text is refused
    assert_eq!(ui.key(Key::Enter, false, &mut c), UIEvent::Nothing);
    assert_eq!(ui.edit.as_ref().unwrap().text.iter().collect::<String>(), "4294967296");
    assert_eq!(ui.key(Key::Up, false, &mut c), UIEvent::Tick);
    assert_eq!(ui.rows, [0, 0]);
    assert_eq!(ui.key(Key::Esc, false, &mut c), UIEvent::Tick);
    assert!(ui.edit.is_none());
    assert_eq!(c.get(0), 0);
}

#[test]
fn editor_on_a_row_beyond_the_machine() {
    let mut ui = UserInterface::new();
    let mut c = machine();
    ui.rows = [40, 1000];
    ui.key(Key::Enter, false, &mut c);
    assert_eq!(ui.edit.as_ref().unwrap().text.iter().collect::<String>(), "0");
    clear_editor(&mut ui, &mut c);
    type_text(&mut ui, &mut c, "7");
    ui.key(Key::Enter, false, &mut c);
    assert!(ui.edit.is_none());
    ui.key(Key::Right, false, &mut c);
    ui.key(Key::Enter, false, &mut c);
    assert_eq!(ui.edit.as_ref().unwrap().index, 1000);
    type_text(&mut ui, &mut c, "7");
    ui.key(Key::Enter, false, &mut c);
    for i in 0..32 {
        assert_eq!(c.get(i), if i == 2 { 256 } else { 0 });
    }
    for i in 0..64 {
        assert_eq!(c.bus_ref().load(4 * i, 32), 0);
    }
}

#[test]
fn breakpoint_ends_a_continuous_run() {
    let mut ui = UserInterface::new();
    ui.continuous = true;
    ui.tick_event(TickResult::Nothing);
    assert!(ui.continuous);
    assert!(ui.message.is_none());
    ui.tick_event(TickResult::EBreak);
    assert!(!ui.continuous);
    assert_eq!(ui.message.as_deref(), Some("Breakpoint"));
    ui.tick_event(TickResult::Unsupported);
    assert!(ui.message.is_none());
    ui.continuous = true;
    ui.tick_event(TickResult::ECall);
    assert!(ui.continuous);
    assert_eq!(ui.message.as_deref(), Some("Environment call"));
    ui.tick_event(TickResult::Nothing);
    assert!(ui.message.is_none());
    ui.continuous = false;
    ui.continuous = true;
    ui.stop_at_breakpoint = false;
    ui.tick_event(TickResult::EBreak);
    assert!(ui.continuous);
    assert_eq!(ui.message.as_deref(), Some("Breakpoint"));
}

#[test]
fn scroll_keeps_the_cursor_in_the_pane() {
    let mut ui = UserInterface::new();
    ui.rows = [11, 0];
    ui.scroll(10, 10, 64);
    assert_eq!(ui.rows, [10, 0]);
    assert_eq!(ui.registers_scroll, 1);
    ui.rows = [-1, 0];
    ui.scroll(10, 10, 64);
    assert_eq!(ui.rows, [0, 0]);
    assert_eq!(ui.registers_scroll, 0);
    ui.rows = [-1, 0];
    ui.scroll(10, 10, 64);
    assert_eq!((ui.rows, ui.registers_scroll), ([0, 0], 0));
    // the last register stays in sight
    ui.registers_scroll = 21;
    ui.rows = [11, 0];
    ui.scroll(10, 10, 64);
    assert_eq!((ui.rows, ui.registers_scroll), ([10, 0], 21));
    ui.rows = [40, 0];
    ui.scroll(35, 35, 64);
    assert_eq!((ui.rows, ui.registers_scroll), ([31, 0], 21));
}

#[test]
fn scroll_keeps_the_memory_pane_in_the_memory() {
    let mut ui = UserInterface::new();
    ui.pane = Pane::Memory;
    ui.rows = [0, 11];
    ui.scroll(10, 10, 64);
    assert_eq!((ui.rows, ui.memory_scroll), ([0, 10], 1));
    ui.memory_scroll = 53;
    ui.rows = [0, 11];
    ui.scroll(10, 10, 64);
    assert_eq!((ui.rows, ui.memory_scroll), ([0, 10], 53));
    ui.memory_scroll = 60;
    ui.scroll(10, 10, 64);
    assert_eq!((ui.rows, ui.memory_scroll), ([0, 10], 53));
    ui.rows = [0, -1];
    ui.scroll(10, 10, 64);
    assert_eq!((ui.rows, ui.memory_scroll), ([0, 0], 52));
    ui.rows = [5, 3];
    ui.scroll(10, 10, 64);
    assert_eq!((ui.rows, ui.memory_scroll), ([5, 3], 52));
}

#[test]
fn rows_shown_end_with_the_machine() {
    let mut ui = UserInterface::new();
    assert_eq!(ui.shown_registers(10), (0, 10));
    assert_eq!(ui.shown_registers(40), (0, 32));
    ui.registers_scroll = 30;
    assert_eq!(ui.shown_registers(10), (30, 32));
    ui.registers_scroll = 40;
    assert_eq!(ui.shown_registers(10), (40, 40));
    ui.registers_scroll = usize::MAX;
    assert_eq!(ui.shown_registers(10), (usize::MAX, usize::MAX));
    ui.memory_scroll = 60;
    assert_eq!(ui.shown_words(10, 64), (60, 64));
    assert_eq!(ui.shown_words(3, 64), (60, 63));
    assert_eq!(ui.shown_words(0, 64), (60, 60));
}

#[test]
fn selected_row_counts_from_the_first_row_shown() {
    let mut ui = UserInterface::new();
    ui.registers_scroll = 5;
    ui.memory_scroll = 100;
    ui.rows = [3, 7];
    assert_eq!(ui.selected(), 8);
    assert_eq!(ui.row_index(Pane::Registers), 8);
    assert_eq!(ui.row_index(Pane::Memory), 107);
    ui.pane = Pane::Memory;
    assert_eq!(ui.selected(), 107);
    ui.rows = [3, -2];
    assert_eq!(ui.selected(), 100);
    ui.memory_scroll = usize::MAX;
    ui.rows = [3, 2];
    assert_eq!(ui.selected(), usize::MAX);
}
