use vcpu::bus::{Bus, Device};
use vcpu::cpu::Cpu;
use vcpu::ram::Ram;

#[test]
fn fresh_ram_reads_as_nop_fill() {
    let mut bus = Bus::new();
    bus.connect(Device::Ram(Ram::new(0x0000, 0x00FF)));
    assert_eq!(bus.read(0x0000, false), 0xEA);
    assert_eq!(bus.read(0x00FF, false), 0xEA);
}

#[test]
fn unclaimed_address_reads_zero() {
    let mut bus = Bus::new();
    bus.connect(Device::Ram(Ram::new(0x0000, 0x00FF)));
    assert_eq!(bus.read(0x0100, false), 0);
    assert_eq!(bus.read(0xFFFF, false), 0);
}

#[test]
fn write_to_unclaimed_address_is_dropped() {
    let mut bus = Bus::new();
    bus.connect(Device::Ram(Ram::new(0x0000, 0x00FF)));
    bus.write(0x0200, 0x55);
    assert_eq!(bus.read(0x0200, false), 0);
}

#[test]
fn write_then_read_round_trips() {
    let mut bus = Bus::new();
    bus.connect(Device::Ram(Ram::new(0x0000, 0xFFFF)));
    bus.write(0x1234, 0x99);
    assert_eq!(bus.read(0x1234, false), 0x99);
    assert_eq!(bus.read(0x1235, false), 0xEA);
}

#[test]
fn first_connected_device_wins_on_overlap() {
    let mut bus = Bus::new();
    bus.connect(Device::Ram(Ram::new(0x0000, 0x00FF)));
    bus.write(0x0010, 0x07);
    bus.connect(Device::Ram(Ram::new(0x0000, 0x00FF)));
    assert_eq!(bus.read(0x0010, false), 0x07);
    bus.write(0x0010, 0x08);
    assert_eq!(bus.read(0x0010, false), 0x08);
}

#[test]
fn ram_is_indexed_relative_to_its_start() {
    let mut bus = Bus::new();
    let mut ram = Ram::new(0x4000, 0x40FF);
    ram.write_all(0x0000, &[0x11, 0x22]);
    bus.connect(Device::Ram(ram));
    assert_eq!(bus.read(0x4000, false), 0x11);
    assert_eq!(bus.read(0x4001, false), 0x22);
    assert_eq!(bus.read(0x4002, false), 0xEA);
}

#[test]
fn cpu_read_write_pass_through_the_bus() {
    let mut cpu = Cpu::new();
    cpu.connect(Device::Ram(Ram::new(0x0000, 0x7FFF)));
    cpu.write(0x0042, 0xAB);
    assert_eq!(cpu.read(0x0042), 0xAB);
    // outside every device: reads 0, writes dropped
    cpu.write(0x9000, 0x77);
    assert_eq!(cpu.read(0x9000), 0);
}

#[test]
fn ram_fill_is_configurable() {
    let mut bus = Bus::new();
    bus.connect(Device::Ram(Ram::new_filled(0x0000, 0x000F, 0x00)));
    assert_eq!(bus.read(0x0000, false), 0x00);
    assert_eq!(bus.read(0x000F, false), 0x00);
}
