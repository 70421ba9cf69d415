use lpc8xx_hal::dma::channels::{TRANSFER_CONTROL, TRANSFER_COUNT_UNIT};
use lpc8xx_hal::dma::descriptors::{CHANNELS, SLOT_SIZE, TABLE_ALIGNMENT, TABLE_BASE};
use lpc8xx_hal::dma::transfer::MAX_TRANSFER;
use lpc8xx_hal::dma::{Buffer, ChannelDescriptor, Dest, DescriptorTable, DMA};
use lpc8xx_hal::init_state::{Disabled, Enabled, InitState};
use lpc8xx_hal::pac::dma0::{Write, CTRL_ENABLE};
use lpc8xx_hal::pac::DMA0;
use lpc8xx_hal::syscon::Handle;

const EMPTY: ChannelDescriptor =
    ChannelDescriptor { config: 0, source_end: 0, dest_end: 0, next_desc: 0 };

/// A destination that gives a fixed answer and counts how often it is asked.
struct Fixed {
    answer: Result<(), nb::Error<u8>>,
    addr: u32,
    asked: usize,
}

impl Dest for Fixed {
    type Error = u8;

    fn waited(self) -> (Result<(), nb::Error<u8>>, Self) {
        (self.answer, Fixed { asked: self.asked + 1, ..self })
    }

    fn located(self) -> (u32, Self) {
        (self.addr, self)
    }

    fn wait(&mut self) -> Result<(), nb::Error<u8>> {
        self.asked += 1;
        self.answer
    }

    fn end_addr(&mut self) -> u32 {
        self.addr
    }
}

fn enabled_dma(syscon: &mut Handle) -> DMA<Enabled> {
    DMA::new(DMA0::new()).enable(syscon)
}

#[test]
fn state_markers_name_their_state() {
    assert!(!Disabled::is_enabled());
    assert!(Enabled::is_enabled());
}

#[test]
fn descriptor_table_is_aligned_and_empty() {
    let table = DescriptorTable::new();
    assert_eq!(table.base_addr(), 0x1000_0000);
    assert_eq!(table.base_addr(), TABLE_BASE);
    assert_eq!(table.base_addr() % TABLE_ALIGNMENT, 0);
    assert_eq!(TABLE_ALIGNMENT, 512);
    assert_eq!(table.len(), 18);
    assert_eq!(CHANNELS, 18);
    for i in 0..CHANNELS {
        assert_eq!(table.slot(i), EMPTY);
    }
}

#[test]
fn fresh_dma_is_disabled() {
    let dma: DMA<Disabled> = DMA::new(DMA0::new());
    assert!(!dma.is_enabled());
    assert_eq!(dma.table_base(), TABLE_BASE);
    assert_eq!(dma.registers().srambase(), 0);
    assert_eq!(dma.registers().ctrl(), 0);
    assert!(!dma.registers().clock());
    assert!(dma.registers().writes().is_empty());
    assert_eq!(dma.channels().len(), CHANNELS);
    for i in 0..CHANNELS {
        let channel = dma.channels().channel(i);
        assert!(!channel.is_enabled());
        assert!(!channel.is_set());
        assert_eq!(channel.index(), i);
        assert_eq!(channel.descriptor(), EMPTY);
    }
}

#[test]
fn dma_enable_disable_scenario() {
    let mut syscon = Handle::new();
    let dma = DMA::new(DMA0::new());

    let dma = dma.enable(&mut syscon);
    assert!(dma.is_enabled());
    for i in 0..CHANNELS {
        assert!(dma.channels().channel(i).is_enabled());
    }
    assert_eq!(dma.registers().srambase(), TABLE_BASE);
    assert_eq!(dma.registers().srambase(), dma.table_base());
    assert_eq!(dma.registers().ctrl() & CTRL_ENABLE, CTRL_ENABLE);
    assert_eq!(dma.registers().ctrl(), 1);
    assert!(dma.registers().clock());
    assert!(syscon.is_clock_enabled(dma.registers()));
    assert_eq!(syscon.sysahbclkctrl(), 0x2000_00DF);

    let dma = dma.disable(&mut syscon);
    assert!(!dma.is_enabled());
    for i in 0..CHANNELS {
        assert!(!dma.channels().channel(i).is_enabled());
    }
    assert!(!dma.registers().clock());
    assert!(!syscon.is_clock_enabled(dma.registers()));
    assert_eq!(syscon.sysahbclkctrl(), 0xDF);
    // The table-base register and the master enable are not written back.
    assert_eq!(dma.registers().srambase(), TABLE_BASE);
    assert_eq!(dma.registers().ctrl(), 1);
}

#[test]
fn enable_writes_table_base_before_master_enable() {
    let mut syscon = Handle::new();
    let dma = enabled_dma(&mut syscon);
    let writes = dma.registers().writes();
    assert_eq!(writes.as_slice(), &[Write::Srambase(0x1000_0000), Write::Ctrl(1)]);
    let base = writes.iter().position(|w| matches!(w, Write::Srambase(_))).unwrap();
    let enable = writes.iter().position(|w| matches!(w, Write::Ctrl(_))).unwrap();
    assert!(base < enable);
}

#[test]
fn disable_writes_no_register() {
    let mut syscon = Handle::new();
    let dma = enabled_dma(&mut syscon).disable(&mut syscon);
    assert_eq!(dma.registers().writes().len(), 2);
}

#[test]
fn reenable_keeps_table_base() {
    let mut syscon = Handle::new();
    let first = enabled_dma(&mut syscon);
    let base_after_first = first.registers().srambase();
    let table_after_first = first.table_base();

    let disabled = first.disable(&mut syscon);
    assert_eq!(disabled.table_base(), table_after_first);
    for i in 0..CHANNELS {
        assert!(!disabled.channels().channel(i).is_enabled());
    }

    let second = disabled.enable(&mut syscon);
    assert_eq!(second.registers().srambase(), base_after_first);
    assert_eq!(second.table_base(), table_after_first);
    assert_eq!(second.registers().srambase(), 0x1000_0000);
    assert_eq!(
        second.registers().writes().as_slice(),
        &[
            Write::Srambase(0x1000_0000),
            Write::Ctrl(1),
            Write::Srambase(0x1000_0000),
            Write::Ctrl(1)
        ]
    );
    for i in 0..CHANNELS {
        assert!(second.channels().channel(i).is_enabled());
        assert_eq!(second.channels().channel(i).index(), i);
    }
}

#[test]
fn channels_track_controller() {
    let mut syscon = Handle::new();
    let mut dma = DMA::new(DMA0::new());
    for round in 0..3 {
        let enabled = dma.enable(&mut syscon);
        assert_eq!(enabled.channels().len(), CHANNELS);
        for i in 0..CHANNELS {
            assert_eq!(enabled.channels().channel(i).is_enabled(), enabled.is_enabled());
        }
        dma = enabled.disable(&mut syscon);
        assert_eq!(dma.channels().len(), CHANNELS);
        for i in 0..CHANNELS {
            assert_eq!(dma.channels().channel(i).is_enabled(), dma.is_enabled());
        }
        assert_eq!(dma.registers().writes().len(), 2 * (round + 1));
    }
}

#[test]
fn free_returns_the_register_block() {
    let mut syscon = Handle::new();
    let raw = DMA::new(DMA0::new()).free();
    assert_eq!(raw.srambase(), 0);
    assert!(!raw.clock());

    let raw = enabled_dma(&mut syscon).free();
    assert_eq!(raw.srambase(), TABLE_BASE);
    assert_eq!(raw.ctrl(), 1);
    assert!(raw.clock());

    let raw = DMA::new(raw).free();
    assert_eq!(raw.srambase(), TABLE_BASE);
    assert_eq!(raw.writes().len(), 2);
}

#[test]
fn buffer_limits() {
    assert!(Buffer::new(0x1000_0400, 0).is_none());
    assert!(Buffer::new(0x1000_0400, MAX_TRANSFER + 1).is_none());
    assert!(Buffer::new(0xFFFF_FFFF, 2).is_none());
    assert!(Buffer::new(0xFFFF_FC01, 1024).is_none());

    let one = Buffer::new(0xFFFF_FFFF, 1).unwrap();
    assert_eq!(one.end(), 0xFFFF_FFFF);
    let most = Buffer::new(0xFFFF_FC00, 1024).unwrap();
    assert_eq!(most.end(), 0xFFFF_FFFF);
    let buffer = Buffer::new(0x1000_0400, 16).unwrap();
    assert_eq!(buffer.start(), 0x1000_0400);
    assert_eq!(buffer.len(), 16);
    assert_eq!(buffer.end(), 0x1000_040F);
}

#[test]
fn descriptor_addresses() {
    let mut syscon = Handle::new();
    let dma = enabled_dma(&mut syscon);
    assert_eq!(SLOT_SIZE, 16);
    assert_eq!(dma.channels().channel(0).descriptor_addr(), 0x1000_0000);
    assert_eq!(dma.channels().channel(3).descriptor_addr(), 0x1000_0030);
    assert_eq!(dma.channels().channel(17).descriptor_addr(), 0x1000_0110);
}

#[test]
fn start_transfer_writes_slot_and_sets_enable_bit() {
    let mut syscon = Handle::new();
    let mut dma = enabled_dma(&mut syscon);
    let mut dest = Fixed { answer: Ok(()), addr: 0x4006_401C, asked: 0 };
    let source = Buffer::new(0x1000_0400, 16).unwrap();

    let channel = dma.channels_mut().channel_mut(5);
    assert_eq!(channel.start_transfer(source, &mut dest), Ok(()));
    assert_eq!(dest.asked, 1);

    let channel = dma.channels().channel(5);
    assert!(channel.is_set());
    assert!(channel.is_enabled());
    assert_eq!(channel.index(), 5);
    assert_eq!(
        channel.descriptor(),
        ChannelDescriptor {
            config: 0x000F_1009,
            source_end: 0x1000_040F,
            dest_end: 0x4006_401C,
            next_desc: 0
        }
    );
}

#[test]
fn transfer_config_formula() {
    assert_eq!(TRANSFER_CONTROL, 0x1009);
    assert_eq!(TRANSFER_COUNT_UNIT, 0x1_0000);
    let mut syscon = Handle::new();
    let mut dma = enabled_dma(&mut syscon);
    let channel = dma.channels_mut().channel_mut(0);

    let one = Buffer::new(0x1000_0400, 1).unwrap();
    assert_eq!(channel.start_transfer_with::<u8>(Ok(()), one, 0), Ok(()));
    assert_eq!(channel.descriptor().config, 0x0000_1009);
    assert_eq!(channel.descriptor().source_end, 0x1000_0400);

    let most = Buffer::new(0x1000_0400, 1024).unwrap();
    assert_eq!(channel.start_transfer_with::<u8>(Ok(()), most, 0), Ok(()));
    assert_eq!(channel.descriptor().config, 0x03FF_1009);
    assert_eq!(channel.descriptor().source_end, 0x1000_07FF);
}

#[test]
fn busy_destination_would_block() {
    let mut syscon = Handle::new();
    let mut dma = enabled_dma(&mut syscon);
    let mut dest = Fixed { answer: Err(nb::Error::WouldBlock), addr: 0x4006_401C, asked: 0 };
    let source = Buffer::new(0x1000_0400, 16).unwrap();

    let channel = dma.channels_mut().channel_mut(0);
    assert_eq!(channel.start_transfer(source, &mut dest), Err(nb::Error::WouldBlock));
    assert_eq!(dest.asked, 1);

    let channel = dma.channels().channel(0);
    assert_eq!(channel.descriptor(), EMPTY);
    assert!(!channel.is_set());
}

#[test]
fn busy_destination_leaves_earlier_transfer() {
    let mut syscon = Handle::new();
    let mut dma = enabled_dma(&mut syscon);
    let channel = dma.channels_mut().channel_mut(0);
    let first = Buffer::new(0x1000_0400, 8).unwrap();
    assert_eq!(channel.start_transfer_with::<u8>(Ok(()), first, 0x4006_401C), Ok(()));
    let before = channel.descriptor();

    let second = Buffer::new(0x1000_0800, 32).unwrap();
    assert_eq!(
        channel.start_transfer_with::<u8>(Err(nb::Error::WouldBlock), second, 0x4006_801C),
        Err(nb::Error::WouldBlock)
    );
    assert_eq!(channel.descriptor(), before);
    assert!(channel.is_set());
}

#[test]
fn failed_destination_hands_its_error_back() {
    let mut syscon = Handle::new();
    let mut dma = enabled_dma(&mut syscon);
    let mut dest = Fixed { answer: Err(nb::Error::Other(7)), addr: 0x4006_401C, asked: 0 };
    let source = Buffer::new(0x1000_0400, 16).unwrap();

    let channel = dma.channels_mut().channel_mut(4);
    assert_eq!(channel.start_transfer(source, &mut dest), Err(nb::Error::Other(7)));
    assert_eq!(channel.descriptor(), EMPTY);
    assert!(!channel.is_set());
}

#[test]
fn transfer_round_trip_touches_one_channel() {
    let mut syscon = Handle::new();
    let mut dma = enabled_dma(&mut syscon);
    let mut dest = Fixed { answer: Ok(()), addr: 0x4006_801C, asked: 0 };
    {
        let channel = dma.channels_mut().channel_mut(7);
        let source = Buffer::new(0x1000_0400, 100).unwrap();
        assert_eq!(channel.start_transfer(source, &mut dest), Ok(()));
    }
    assert_eq!(dma.channels().len(), CHANNELS);
    for i in 0..CHANNELS {
        let channel = dma.channels().channel(i);
        assert_eq!(channel.index(), i);
        assert!(channel.is_enabled());
        if i == 7 {
            assert!(channel.is_set());
            assert_eq!(channel.descriptor().source_end, 0x1000_0463);
            assert_eq!(channel.descriptor().dest_end, 0x4006_801C);
        } else {
            assert!(!channel.is_set());
            assert_eq!(channel.descriptor(), EMPTY);
        }
    }
    // The controller's own registers are as enabling left them.
    assert_eq!(dma.registers().writes().len(), 2);
    assert_eq!(dma.registers().srambase(), TABLE_BASE);
}

#[test]
fn transfers_survive_disable_and_enable() {
    let mut syscon = Handle::new();
    let mut dma = enabled_dma(&mut syscon);
    let source = Buffer::new(0x1000_0400, 16).unwrap();
    let channel = dma.channels_mut().channel_mut(2);
    assert_eq!(channel.start_transfer_with::<u8>(Ok(()), source, 0x4006_401C), Ok(()));
    let slot = dma.channels().channel(2).descriptor();

    let dma = dma.disable(&mut syscon);
    assert_eq!(dma.channels().channel(2).descriptor(), slot);
    assert!(dma.channels().channel(2).is_set());
    assert!(!dma.channels().channel(2).is_enabled());

    let dma = dma.enable(&mut syscon);
    assert_eq!(dma.channels().channel(2).descriptor(), slot);
    assert!(dma.channels().channel(2).is_enabled());
}
