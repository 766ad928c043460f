use starry_drivers::platform::boards::{lichee_d1, qemu_virt, visionfive2};
use starry_drivers::platform::console::{ConsoleKind, MmioAccessWidth};
use starry_drivers::platform::descriptor;
use starry_drivers::platform::descriptor::BootKind;
use starry_drivers::platform::polling::{
    UART_LSR, UART_RBR_THR, lsr_data_ready, lsr_thr_empty, lsr_transmitter_empty, reg_offset,
};

#[test]
fn qemu_virt_descriptor() {
    let d = qemu_virt();
    assert_eq!(d.name, "qemu-virt");
    assert_eq!(d.memory.base_paddr, 0x8000_0000);
    assert_eq!(d.memory.size, 0x1000_0000);
    assert_eq!(d.kernel.load_paddr, 0x8020_0000);
    assert_eq!(d.console.kind, ConsoleKind::Ns16550);
    assert_eq!(d.console.base_paddr, 0x1000_0000);
    assert_eq!(d.console.irq, Some(10));
    assert_eq!(d.console.reg_stride, 1);
    assert_eq!(d.console.reg_width, MmioAccessWidth::U8);
    assert_eq!(d.interrupt.plic_base_paddr, 0x0c00_0000);
    assert_eq!(d.timer.kind, "sbi");
    assert_eq!(d.boot.kind, BootKind::DirectQemu);
    assert_eq!(descriptor().name, "qemu-virt");
}

#[test]
fn lichee_d1_descriptor() {
    let d = lichee_d1();
    assert_eq!(d.name, "lichee-rv-dock");
    assert_eq!(d.memory.base_paddr, 0x4000_0000);
    assert_eq!(d.memory.size, 0x2000_0000);
    assert_eq!(d.console.kind, ConsoleKind::DwApbUart);
    assert_eq!(d.console.base_paddr, 0x0250_0000);
    assert_eq!(d.console.irq, None);
    assert_eq!(d.console.reg_stride, 4);
    assert_eq!(d.console.reg_width, MmioAccessWidth::U32);
    assert_eq!(d.console.baud, 115_200);
    assert_eq!(d.interrupt.plic_base_paddr, 0x1000_0000);
    assert_eq!(d.boot.kind, BootKind::AndroidImage);
    assert!(d.virtio_net.is_none());
}

#[test]
fn visionfive2_descriptor() {
    let d = visionfive2();
    assert_eq!(d.name, "visionfive2");
    assert_eq!(d.memory.size, 0x8000_0000);
    assert_eq!(d.console.irq, Some(32));
    assert_eq!(d.timer.kind, "platform");
    assert_eq!(d.boot.kind, BootKind::UBootImage);
}

#[test]
fn polling_register_helpers() {
    assert_eq!(reg_offset(UART_RBR_THR, 4), 0);
    assert_eq!(reg_offset(UART_LSR, 4), 20);
    assert_eq!(reg_offset(UART_LSR, 1), 5);
    assert!(lsr_data_ready(0x61));
    assert!(!lsr_data_ready(0x60));
    assert!(lsr_thr_empty(0x20));
    assert!(!lsr_thr_empty(0x40));
    assert!(lsr_transmitter_empty(0x40));
    assert!(!lsr_transmitter_empty(0x21));
}
