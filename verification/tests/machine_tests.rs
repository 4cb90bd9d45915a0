use invaders::cpu::Cpu;
use invaders::launch::InvadersLaunch;
use invaders::memory::Addressing;
use invaders::memory::BuildError;
use invaders::memory::MemError;
use invaders::scheduler::FrameScheduler;
use invaders::siaddressing::zero_vec;
use invaders::siaddressing::SpaceInvadersAddressing;
use invaders::testadd::TestAddressing;
use invaders::video::get_color;
use invaders::video::render_buffer;

fn rom_bank(fill: u8) -> Vec<u8> {
    vec![fill; 2048]
}

#[test]
fn construction_rejects_wrong_sized_buffers() {
    let r = SpaceInvadersAddressing::new(vec![0; 2047], rom_bank(0), rom_bank(0), rom_bank(0));
    assert!(matches!(r, Err(BuildError::WrongBufferSize)));
    let r = InvadersLaunch::new().machine(rom_bank(0), rom_bank(0), rom_bank(0), vec![0; 4096]);
    assert!(matches!(r, Err(BuildError::WrongBufferSize)));
}

#[test]
fn regions_read_back_what_was_written() {
    let mut h = rom_bank(0);
    h[0] = 0xAA;
    h[2047] = 0xBB;
    let mut g = rom_bank(0);
    g[0] = 0xCC;
    let mut bus = SpaceInvadersAddressing::new(h, g, rom_bank(0x11), rom_bank(0x22)).unwrap();
    // ROM banks answer their initial contents
    assert_eq!(bus.get_mem(0x0000), Ok(0xAA));
    assert_eq!(bus.get_mem(0x07FF), Ok(0xBB));
    assert_eq!(bus.get_mem(0x0800), Ok(0xCC));
    assert_eq!(bus.get_mem(0x1000), Ok(0x11));
    assert_eq!(bus.get_mem(0x1800), Ok(0x22));
    // RAM starts zeroed and returns the byte last written
    assert_eq!(bus.get_mem(0x2000), Ok(0));
    bus.set_mem(0x2000, 0x5A).unwrap();
    bus.set_mem(0x23FF, 0x5B).unwrap();
    assert_eq!(bus.get_mem(0x2000), Ok(0x5A));
    assert_eq!(bus.get_mem(0x23FF), Ok(0x5B));
    bus.set_mem(0x2400, 0x5C).unwrap();
    bus.set_mem(0x3FFF, 0x5D).unwrap();
    assert_eq!(bus.get_mem(0x2400), Ok(0x5C));
    assert_eq!(bus.get_mem(0x3FFF), Ok(0x5D));
    // one byte past the last region is unmapped
    assert_eq!(bus.get_mem(0x4000), Err(MemError::Unmapped));
    assert_eq!(bus.set_mem(0x4000, 1), Err(MemError::Unmapped));
    // a write into ROM is a distinct violation and changes nothing
    assert_eq!(bus.set_mem(0x0000, 1), Err(MemError::ReadOnlyWrite));
    assert_eq!(bus.get_mem(0x0000), Ok(0xAA));
}

#[test]
fn rom_write_aborts_the_instruction() {
    // STA 0x0000 faults on the ROM write and applies nothing
    let mut h = rom_bank(0);
    h[0] = 0x32; // STA 0x0000
    h[1] = 0x00;
    h[2] = 0x00;
    let mut cpu = InvadersLaunch::new().machine(h, rom_bank(0), rom_bank(0), rom_bank(0)).unwrap();
    assert_eq!(cpu.next(), Err(MemError::ReadOnlyWrite));
    assert_eq!(cpu.register.pc, 0);
}

#[test]
fn machine_starts_at_entry_point_zero() {
    let cpu = InvadersLaunch::new()
        .machine(rom_bank(0), rom_bank(0), rom_bank(0), rom_bank(0))
        .unwrap();
    assert_eq!(cpu.register.pc, 0);
    assert_eq!(cpu.register.sp, 0);
    assert_eq!(cpu.register.a, 0);
    assert!(!cpu.halted);
    assert!(!cpu.int_enabled);
}

#[test]
fn video_ram_exported_in_bus_order() {
    let mut cpu = InvadersLaunch::new()
        .machine(rom_bank(0), rom_bank(0), rom_bank(0), rom_bank(0))
        .unwrap();
    cpu.addring.set_mem(0x2400, 0x81).unwrap();
    cpu.addring.set_mem(0x3FFF, 0x01).unwrap();
    let video = cpu.addring.video_bytes();
    assert_eq!(video.len(), 7168);
    assert_eq!(video[0], 0x81);
    assert_eq!(video[7167], 0x01);
}

#[test]
fn scheduler_vectors_alternate_across_frames() {
    let mut s = InvadersLaunch::new().scheduler();
    assert_eq!(s.cycle_max, 16666);
    let vs: Vec<u16> = (0..6).map(|_| s.next_vector()).collect();
    assert_eq!(vs, vec![0x08, 0x10, 0x08, 0x10, 0x08, 0x10]);
}

#[test]
fn half_frames_request_alternating_vectors() {
    // NOP-filled flat memory; interrupts stay disarmed, so requests are
    // dropped but still alternate
    let mut cpu = Cpu::new(TestAddressing::new(vec![0u8; 65536]), 0);
    let mut s = FrameScheduler::new(16, 0x08, 0x10);
    let r1 = s.half_frame(&mut cpu).unwrap();
    assert_eq!(r1.cycles, 20);
    assert_eq!(r1.vector, 0x08);
    assert!(!r1.accepted);
    let r2 = s.half_frame(&mut cpu).unwrap();
    assert_eq!(r2.vector, 0x10);
    let r3 = s.half_frame(&mut cpu).unwrap();
    assert_eq!(r3.vector, 0x08);
}

#[test]
fn half_frame_accepts_when_armed() {
    // LXI SP,0x0100; EI; then NOPs
    let mut rom = vec![0u8; 65536];
    rom[0] = 0x31;
    rom[1] = 0x00;
    rom[2] = 0x01;
    rom[3] = 0xFB;
    let mut cpu = Cpu::new(TestAddressing::new(rom), 0);
    let mut s = FrameScheduler::new(16, 0x08, 0x10);
    let r = s.half_frame(&mut cpu).unwrap();
    assert!(r.accepted);
    assert_eq!(cpu.register.pc, 0x08);
    assert!(!cpu.int_enabled);
}

#[test]
fn zero_vec_is_zero_filled() {
    let v = zero_vec(1024);
    assert_eq!(v.len(), 1024);
    assert!(v.iter().all(|b| *b == 0));
}

#[test]
fn colors_are_monochrome() {
    assert_eq!(get_color(0), 0);
    assert_eq!(get_color(1), u32::MAX);
    assert_eq!(get_color(0x80), u32::MAX);
}

#[test]
fn render_expands_bits_to_pixels() {
    let video = vec![0b1000_0001u8, 0x00];
    let mut buffer = vec![7u32; 16];
    render_buffer(&video, &mut buffer);
    assert_eq!(buffer[0], u32::MAX); // bit 0 of byte 0
    for i in 1..7 {
        assert_eq!(buffer[i], 0);
    }
    assert_eq!(buffer[7], u32::MAX); // bit 7 of byte 0
    for i in 8..16 {
        assert_eq!(buffer[i], 0);
    }
}
