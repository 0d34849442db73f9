use core::cell::RefCell;

use chf_emulator::ports::console_buttons;
use chf_emulator::ports::controller_byte;
use chf_emulator::ports::sound_of;
use chf_emulator::{ChannelF, Cpu, Key, Sound};

struct RecordingHost {
    pixels: RefCell<[u8; 128 * 64]>,
    sounds: RefCell<Vec<Sound>>,
    start_held: RefCell<bool>,
    right0_held: RefCell<bool>,
}

impl RecordingHost {
    fn new() -> RecordingHost {
        RecordingHost {
            pixels: RefCell::new([0u8; 128 * 64]),
            sounds: RefCell::new(Vec::new()),
            start_held: RefCell::new(false),
            right0_held: RefCell::new(false),
        }
    }
}

impl ChannelF for &RecordingHost {
    fn sound(&self, frequency: Sound) {
        self.sounds.borrow_mut().push(frequency);
    }

    fn set_pixel(&self, x: u8, y: u8, value: u8) {
        self.pixels.borrow_mut()[x as usize + y as usize * 128usize] = value;
    }

    fn key_pressed(&self, key: Key) -> bool {
        match key {
            Key::Start => *self.start_held.borrow(),
            Key::Right0 => *self.right0_held.borrow(),
            _ => false,
        }
    }
}

#[test]
fn pixel_write_path() {
    let host = RecordingHost::new();
    let mut cpu = Cpu::new(&[], &[], &[], &host);

    // colour: port 1 write with value 0x40 selects colour (0x40 >> 6) ^ 3 = 2
    cpu.a = 0x40;
    cpu.execute(0xb1);

    // x: port 4 write 0x75 puts the staged x at 0x75 ^ 0x7f = 0x0a
    cpu.a = 0x75;
    cpu.execute(0xb4);

    // y: port 5 write 0x30 puts the staged y at 0x30 ^ 0x3f = 0x0f, silence
    cpu.a = 0x30;
    cpu.execute(0xb5);

    // port 0: raise bit 5, then clear it; the falling edge fires the pixel
    cpu.a = 0x20;
    cpu.execute(0xb0);
    assert_eq!(0, host.pixels.borrow()[0x0a + 0x0f * 128]);
    cpu.a = 0x00;
    cpu.execute(0xb0);
    assert_eq!(2, host.pixels.borrow()[0x0a + 0x0f * 128]);
    assert_eq!(vec![Sound::Silence], *host.sounds.borrow());
}

#[test]
fn sound_selection() {
    let host = RecordingHost::new();
    let mut cpu = Cpu::new(&[], &[], &[], &host);

    cpu.a = 0x40;
    cpu.execute(0xb5);
    cpu.a = 0x80;
    cpu.execute(0xb5);
    cpu.a = 0xc0;
    cpu.execute(0xb5);
    cpu.a = 0x00;
    cpu.execute(0xb5);
    assert_eq!(
        vec![
            Sound::Frequency1Khz,
            Sound::Frequency500Hz,
            Sound::Frequency120Hz,
            Sound::Silence
        ],
        *host.sounds.borrow()
    );
}

#[test]
fn unmapped_port_latches() {
    let host = RecordingHost::new();
    let mut cpu = Cpu::new(&[], &[], &[], &host);

    cpu.a = 0x5a;
    cpu.execute(0xb3);
    cpu.a = 0;
    cpu.execute(0xa3);
    assert_eq!(0x5a, cpu.a);
    assert_eq!(0x1, cpu.flags);
    assert_eq!(16 + 16, cpu.cycles);
}

#[test]
fn console_buttons_low_active() {
    let host = RecordingHost::new();
    let mut cpu = Cpu::new(&[], &[], &[], &host);

    cpu.execute(0xa0);
    assert_eq!(0x0f, cpu.a);
    assert_eq!(8, cpu.cycles);

    *host.start_held.borrow_mut() = true;
    cpu.execute(0xa0);
    assert_eq!(0x0e, cpu.a);
}

#[test]
fn controller_port_gating() {
    let host = RecordingHost::new();
    let mut cpu = Cpu::new(&[], &[], &[], &host);

    // latch 0 bit 6 clear: low-active complement of the inputs comes back
    *host.right0_held.borrow_mut() = true;
    cpu.execute(0xa1);
    assert_eq!(0xfe, cpu.a);

    // set latch 0 bit 6: the port now reads back its own latch
    cpu.a = 0x40;
    cpu.execute(0xb0);
    cpu.execute(0xa1);
    assert_eq!(0x00, cpu.a);
}

#[test]
fn sram_2102_round_trip() {
    let host = RecordingHost::new();
    // the little program's operand bytes: OUT reads its port number from the
    // instruction stream
    let cartridge = [0x21, 0x20, 0x20, 0x20];
    let mut cpu = Cpu::new(&[], &[], &cartridge, &host);
    cpu.pc0 = 0x800;

    // uninitialized cells read back as 1: select cell 5, read mode
    cpu.a = 0x05;
    cpu.execute(0x27);

    // control word upper nibble 0x1: write bit 8 set, data bit 11 clear:
    // store 0 into cell 5
    cpu.a = 0x01;
    cpu.execute(0x27);

    // back to read mode (upper nibble 0)
    cpu.a = 0x00;
    cpu.execute(0x27);

    // IN from port 0x20: the stored bit surfaces in control-word bit 15
    cpu.execute(0x26);
    assert_eq!(0x00, cpu.a);
    assert_eq!(0, cpu.xmemory[5]);
    // untouched neighbours still hold their power-on ones
    assert_eq!(1, cpu.xmemory[4]);
}

#[test]
fn sram_2102_uninitialized_reads_one() {
    let host = RecordingHost::new();
    let cartridge = [0x21, 0x20];
    let mut cpu = Cpu::new(&[], &[], &cartridge, &host);
    cpu.pc0 = 0x800;

    // select cell 0 in read mode, then read the high half of the control word
    cpu.a = 0x00;
    cpu.execute(0x27);
    cpu.execute(0x26);
    assert_eq!(0x80, cpu.a);
}

#[test]
fn branch_displacements() {
    let host = RecordingHost::new();
    // BF with mask 0 always branches; displacement bytes follow
    let cartridge = [0x05, 0x00, 0xfe];
    let mut cpu = Cpu::new(&[], &[], &cartridge, &host);

    // forward: 0x801 + 5 - 1
    cpu.pc0 = 0x800;
    cpu.execute(0x90);
    assert_eq!(0x805, cpu.pc0);
    assert_eq!(14, cpu.cycles);

    // backward: displacement 0xfe is -2, so 0x803 - 3
    cpu.pc0 = 0x802;
    cpu.cycles = 0;
    cpu.execute(0x90);
    assert_eq!(0x800, cpu.pc0);
    assert_eq!(14, cpu.cycles);

    // BT with mask 1 and a clear sign flag: not taken, PC0 only skips the
    // displacement byte
    cpu.pc0 = 0x800;
    cpu.cycles = 0;
    cpu.flags = 0;
    cpu.execute(0x81);
    assert_eq!(0x801, cpu.pc0);
    assert_eq!(12, cpu.cycles);
}

#[test]
fn branch_on_isl_not_seven() {
    let host = RecordingHost::new();
    let cartridge = [0x05, 0x05];
    let mut cpu = Cpu::new(&[], &[], &cartridge, &host);

    // ISL 7: BR7 falls through
    cpu.execute(0x6f);
    cpu.pc0 = 0x800;
    cpu.execute(0x8f);
    assert_eq!(0x801, cpu.pc0);

    // ISL 6: BR7 branches
    cpu.execute(0x6e);
    cpu.pc0 = 0x800;
    cpu.execute(0x8f);
    assert_eq!(0x805, cpu.pc0);
}

#[test]
fn store_and_load_cartridge_ram() {
    let host = RecordingHost::new();
    let mut cpu = Cpu::new(&[], &[], &[], &host);

    // ST into the on-cartridge RAM window, then LM the same cell back
    cpu.dc0 = 0x2800;
    cpu.a = 0x42;
    cpu.execute(0x17);
    assert_eq!(0x2801, cpu.dc0);

    cpu.dc0 = 0x2800;
    cpu.a = 0;
    cpu.execute(0x16);
    assert_eq!(0x42, cpu.a);

    // a store outside every writable window is dropped
    cpu.dc0 = 0x1000;
    cpu.a = 0x99;
    cpu.execute(0x17);
    cpu.dc0 = 0x1000;
    cpu.execute(0x16);
    assert_eq!(0xff, cpu.a);
}

#[test]
fn data_counter_arithmetic() {
    let host = RecordingHost::new();
    let mut cpu = Cpu::new(&[], &[], &[], &host);

    // ADC with a positive accumulator
    cpu.dc0 = 0x1000;
    cpu.a = 0x10;
    cpu.execute(0x8e);
    assert_eq!(0x1010, cpu.dc0);

    // ADC with a negative accumulator
    cpu.a = 0xf8;
    cpu.execute(0x8e);
    assert_eq!(0x1008, cpu.dc0);

    // XDC swaps the two data counters
    cpu.dc1 = 0x2222;
    cpu.execute(0x2c);
    assert_eq!(0x2222, cpu.dc0);
    assert_eq!(0x1008, cpu.dc1);
}

#[test]
fn call_and_return_linkage() {
    let host = RecordingHost::new();
    // PI: call 0x0930; the two operand bytes sit at the entry
    let cartridge = [0x09, 0x30];
    let mut cpu = Cpu::new(&[], &[], &cartridge, &host);

    cpu.pc0 = 0x800;
    cpu.execute(0x28);
    assert_eq!(0x0930, cpu.pc0);
    assert_eq!(0x802, cpu.pc1);
    assert_eq!(0x09, cpu.a);

    // LR K,P spills PC1 into the linkage pair; POP returns through PC1
    cpu.execute(0x08);
    assert_eq!(0x08, cpu.scratchpad[12]);
    assert_eq!(0x02, cpu.scratchpad[13]);
    cpu.execute(0x1c);
    assert_eq!(0x802, cpu.pc0);
}

#[test]
fn every_defined_opcode_executes() {
    let invalid = [0x2du8, 0x2e, 0x2f, 0x3f, 0x4f, 0x5f, 0xcf, 0xdf, 0xef, 0xff];
    for op in 0..=255u8 {
        if invalid.contains(&op) {
            continue;
        }
        let host = RecordingHost::new();
        let cartridge = [0x00, 0x00];
        let mut cpu = Cpu::new(&[], &[], &cartridge, &host);
        cpu.pc0 = 0x800;
        cpu.dc0 = 0x2800;
        cpu.execute(op);
        assert!(cpu.cycles >= 4);
    }
}

#[test]
fn immediate_operations() {
    let host = RecordingHost::new();
    let cartridge = [0x0f, 0xf0, 0xff, 0x01, 0x06];
    let mut cpu = Cpu::new(&[], &[], &cartridge, &host);
    cpu.pc0 = 0x800;

    // NI: 0x3c & 0x0f
    cpu.a = 0x3c;
    cpu.execute(0x21);
    assert_eq!(0x0c, cpu.a);
    assert_eq!(0x1, cpu.flags);

    // OI: 0x0c | 0xf0
    cpu.execute(0x22);
    assert_eq!(0xfc, cpu.a);
    assert_eq!(0x0, cpu.flags);

    // XI: 0xfc ^ 0xff
    cpu.execute(0x23);
    assert_eq!(0x03, cpu.a);
    assert_eq!(0x1, cpu.flags);

    // AI: 0x03 + 0x01
    cpu.execute(0x24);
    assert_eq!(0x04, cpu.a);

    // CI: compare 0x06 against A = 0x04: positive difference, carry, no zero
    cpu.execute(0x25);
    assert_eq!(0x04, cpu.a);
    assert_eq!(0x3, cpu.flags);
    assert_eq!(0x805, cpu.pc0);
}

#[test]
fn jumps_and_data_counter_loads() {
    let host = RecordingHost::new();
    let cartridge = [0x12, 0x34, 0x09, 0x10];
    let mut cpu = Cpu::new(&[], &[], &cartridge, &host);

    // DCI loads a 16-bit immediate into DC0
    cpu.pc0 = 0x800;
    cpu.execute(0x2a);
    assert_eq!(0x1234, cpu.dc0);
    assert_eq!(0x802, cpu.pc0);

    // JMP: A ends holding the high byte
    cpu.execute(0x29);
    assert_eq!(0x0910, cpu.pc0);
    assert_eq!(0x09, cpu.a);

    // LR Q,DC spills DC0 into scratchpad 14/15; LR DC,Q restores it
    cpu.execute(0x0e);
    assert_eq!(0x12, cpu.scratchpad[14]);
    assert_eq!(0x34, cpu.scratchpad[15]);
    cpu.dc0 = 0;
    cpu.execute(0x0f);
    assert_eq!(0x1234, cpu.dc0);

    // LR H,DC and LR DC,H do the same through scratchpad 10/11
    cpu.execute(0x11);
    assert_eq!(0x12, cpu.scratchpad[10]);
    assert_eq!(0x34, cpu.scratchpad[11]);
    cpu.dc0 = 0;
    cpu.execute(0x10);
    assert_eq!(0x1234, cpu.dc0);

    // PK: PC1 remembers the caller, PC0 comes from the linkage pair
    cpu.scratchpad[12] = 0x0a;
    cpu.scratchpad[13] = 0x20;
    cpu.pc0 = 0x0777;
    cpu.execute(0x0c);
    assert_eq!(0x0a20, cpu.pc0);
    assert_eq!(0x0777, cpu.pc1);

    // LR P,K then POP
    cpu.execute(0x09);
    assert_eq!(0x0a20, cpu.pc1);
    cpu.execute(0x1c);
    assert_eq!(0x0a20, cpu.pc0);
}

#[test]
fn memory_accumulator_operations() {
    let host = RecordingHost::new();
    let cartridge = [0x05, 0x01, 0x0f, 0x0f, 0x0f, 0x04];
    let mut cpu = Cpu::new(&[], &[], &cartridge, &host);

    // AM: binary add from memory, DC0 walks forward
    cpu.dc0 = 0x800;
    cpu.a = 0x03;
    cpu.execute(0x88);
    assert_eq!(0x08, cpu.a);
    assert_eq!(0x801, cpu.dc0);

    // AMD: decimal add from memory (augend carries the 0x66 convention)
    cpu.a = 0x7f;  // 0x19 + 0x66
    cpu.execute(0x89);
    assert_eq!(0x20, cpu.a);
    assert_eq!(0x802, cpu.dc0);

    // NM, OM, XM with logical flags
    cpu.a = 0x3c;
    cpu.execute(0x8a);
    assert_eq!(0x0c, cpu.a);
    cpu.execute(0x8b);
    assert_eq!(0x0f, cpu.a);
    cpu.execute(0x8c);
    assert_eq!(0x00, cpu.a);
    assert_eq!(0x5, cpu.flags);

    // CM: compare 0x04 from memory against A = 0
    cpu.execute(0x8d);
    assert_eq!(0x3, cpu.flags);
    assert_eq!(0x806, cpu.dc0);
}

#[test]
fn console_button_encoding() {
    assert_eq!(0x0f, console_buttons(false, false, false, false));
    assert_eq!(0x0e, console_buttons(true, false, false, false));
    assert_eq!(0x0d, console_buttons(false, true, false, false));
    assert_eq!(0x0b, console_buttons(false, false, true, false));
    assert_eq!(0x07, console_buttons(false, false, false, true));
    assert_eq!(0x00, console_buttons(true, true, true, true));
}

#[test]
fn controller_byte_encoding() {
    assert_eq!(
        0xff,
        controller_byte(false, false, false, false, false, false, false, false)
    );
    assert_eq!(
        0xfe,
        controller_byte(true, false, false, false, false, false, false, false)
    );
    assert_eq!(
        0x7f,
        controller_byte(false, false, false, false, false, false, false, true)
    );
    assert_eq!(
        0xfc,
        controller_byte(true, true, false, false, false, false, false, false)
    );
    assert_eq!(
        0x00,
        controller_byte(true, true, true, true, true, true, true, true)
    );
}

#[test]
fn sound_of_top_two_bits() {
    assert_eq!(Sound::Silence, sound_of(0x00));
    assert_eq!(Sound::Silence, sound_of(0x3f));
    assert_eq!(Sound::Frequency1Khz, sound_of(0x40));
    assert_eq!(Sound::Frequency1Khz, sound_of(0x7f));
    assert_eq!(Sound::Frequency500Hz, sound_of(0x80));
    assert_eq!(Sound::Frequency120Hz, sound_of(0xc0));
    assert_eq!(Sound::Frequency120Hz, sound_of(0xff));
}
