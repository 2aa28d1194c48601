use dma_engine::handle::{Channel, ChannelHandle, Error, Poll, TransferDescriptor};
use dma_engine::irq::on_irq;
use dma_engine::regs::{Dir, Dma, Routing, Size};
use dma_engine::state::{global_channel_index, WakerTable};

const CH_COUNT: usize = 8;

fn fresh(routing: Routing) -> (Dma, WakerTable) {
    (Dma::new(routing, CH_COUNT), WakerTable::new(CH_COUNT))
}

#[test]
fn completed_transfer_resolves_ready() {
    let (mut dma, mut table) = fresh(Routing::Multiplexed);
    let mut h = ChannelHandle::new(2);
    let r = h.read(&mut dma, 9, 0x4000_0000, 0x2000_0000, 5, Size::Bits16);
    assert_eq!(r, Ok(()));
    assert!(dma.channels[2].en);
    assert_eq!(dma.channels[2].ndtr, 5);
    dma.hw_complete(2);
    let p = h.wait_for_completion(&mut dma, &mut table, 40);
    assert_eq!(p, Poll::Ready);
    assert_eq!(h.remaining_transfers(&dma), 0);
    assert!(h.is_idle());
}

#[test]
fn count_boundary_is_accepted() {
    let (mut dma, _table) = fresh(Routing::Fixed);
    let mut h = ChannelHandle::new(0);
    let r = h.write(&mut dma, 0, 0x2000_0000, 65535, 0x4000_0004, Size::Bits8);
    assert_eq!(r, Ok(()));
    assert_eq!(dma.channels[0].ndtr, 65535);
}

#[test]
fn oversized_count_rejected_before_any_write() {
    let (mut dma, _table) = fresh(Routing::Multiplexed);
    let mut h = ChannelHandle::new(1);
    let snapshot = dma.clone();
    let r = h.read(&mut dma, 3, 0x4000_0000, 0x2000_0000, 65536, Size::Bits8);
    assert_eq!(r, Err(Error::CountTooLarge));
    assert_eq!(dma, snapshot);
    assert!(h.is_idle());
}

#[test]
fn polling_pending_is_idempotent() {
    let (mut dma, mut table) = fresh(Routing::Multiplexed);
    let mut h = ChannelHandle::new(4);
    h.read(&mut dma, 1, 0x4000_0000, 0x2000_0000, 10, Size::Bits32).unwrap();
    let snapshot = dma.clone();
    for _ in 0..5 {
        let p = h.wait_for_completion(&mut dma, &mut table, 77);
        assert_eq!(p, Poll::Pending);
        assert_eq!(dma, snapshot);
        assert_eq!(table.registered(4), Some(77));
    }
    assert!(!h.is_idle());
}

#[test]
fn abandoned_transfer_is_stopped_exactly_once() {
    let (mut dma, _table) = fresh(Routing::Multiplexed);
    let mut h = ChannelHandle::new(6);
    h.read(&mut dma, 2, 0x4000_0000, 0x2000_0000, 64, Size::Bits8).unwrap();
    assert!(!h.is_stopped(&dma));
    assert_eq!(dma.stop_count(6), 0);
    h.abandon(&mut dma);
    assert!(h.is_stopped(&dma));
    assert!(!dma.channels[6].en);
    assert_eq!(dma.stop_count(6), 1);
    assert!(h.is_idle());
}

#[test]
fn completion_path_also_stops_exactly_once() {
    let (mut dma, mut table) = fresh(Routing::Fixed);
    let mut h = ChannelHandle::new(5);
    h.write(&mut dma, 0, 0x2000_0000, 3, 0x4000_0008, Size::Bits8).unwrap();
    dma.hw_complete(5);
    assert_eq!(h.wait_for_completion(&mut dma, &mut table, 1), Poll::Ready);
    assert_eq!(dma.stop_count(5), 1);
    assert!(h.is_stopped(&dma));
}

#[test]
fn second_start_rejected_while_guard_is_up() {
    let (mut dma, _table) = fresh(Routing::Multiplexed);
    let mut h = ChannelHandle::new(3);
    h.read(&mut dma, 4, 0x4000_0000, 0x2000_0000, 8, Size::Bits8).unwrap();
    let snapshot = dma.clone();
    let again = h.read(&mut dma, 4, 0x4000_0000, 0x2000_0100, 8, Size::Bits8);
    assert_eq!(again, Err(Error::ChannelBusy));
    assert_eq!(dma, snapshot);
    let manual = h.start_write(&mut dma, 4, 0x2000_0200, 4, 0x4000_0004, Size::Bits8);
    assert_eq!(manual, Err(Error::ChannelBusy));
    assert_eq!(dma, snapshot);
}

#[test]
fn channel_is_free_again_after_completion() {
    let (mut dma, mut table) = fresh(Routing::Multiplexed);
    let mut h = ChannelHandle::new(3);
    h.read(&mut dma, 4, 0x4000_0000, 0x2000_0000, 8, Size::Bits8).unwrap();
    dma.hw_complete(3);
    assert_eq!(h.wait_for_completion(&mut dma, &mut table, 9), Poll::Ready);
    let next = h.read(&mut dma, 4, 0x4000_0000, 0x2000_0000, 8, Size::Bits8);
    assert_eq!(next, Ok(()));
}

#[test]
fn bridge_wakes_exactly_the_registered_task() {
    let (mut dma, mut table) = fresh(Routing::Multiplexed);
    let mut h3 = ChannelHandle::new(3);
    let mut h5 = ChannelHandle::new(5);
    h3.read(&mut dma, 1, 0x4000_0000, 0x2000_0000, 4, Size::Bits8).unwrap();
    h5.read(&mut dma, 2, 0x4000_0010, 0x2000_0100, 4, Size::Bits8).unwrap();
    assert_eq!(h3.wait_for_completion(&mut dma, &mut table, 30), Poll::Pending);
    assert_eq!(h5.wait_for_completion(&mut dma, &mut table, 50), Poll::Pending);
    dma.hw_complete(3);
    let woken = on_irq(&mut dma, &mut table);
    assert_eq!(woken, vec![30]);
    assert!(!dma.channels[3].tcie);
    assert_eq!(table.registered(3), None);
    assert_eq!(table.registered(5), Some(50));
    assert!(dma.channels[5].tcie);
    assert!(dma.channels[5].en);
}

#[test]
fn bridge_is_quiet_without_a_completion() {
    let (mut dma, mut table) = fresh(Routing::Fixed);
    let mut h = ChannelHandle::new(0);
    h.read(&mut dma, 0, 0x4000_0000, 0x2000_0000, 4, Size::Bits8).unwrap();
    let snapshot = dma.clone();
    let woken = on_irq(&mut dma, &mut table);
    assert!(woken.is_empty());
    assert_eq!(dma, snapshot);
}

#[test]
fn bridge_clears_interrupt_even_with_empty_slot() {
    let (mut dma, mut table) = fresh(Routing::Fixed);
    let mut h = ChannelHandle::new(7);
    h.read(&mut dma, 0, 0x4000_0000, 0x2000_0000, 4, Size::Bits8).unwrap();
    dma.hw_complete(7);
    let woken = on_irq(&mut dma, &mut table);
    assert!(woken.is_empty());
    assert!(!dma.channels[7].tcie);
    assert!(!dma.channels[7].en);
}

#[test]
fn end_to_end_hundred_elements_on_channel_three() {
    let (mut dma, mut table) = fresh(Routing::Multiplexed);
    let mut h = ChannelHandle::new(3);
    let r = h.read(&mut dma, 11, 0x4000_0000, 0x2000_0000, 100, Size::Bits8);
    assert_eq!(r, Ok(()));
    assert_eq!(dma.routed_request(3), 11);
    assert_eq!(h.wait_for_completion(&mut dma, &mut table, 42), Poll::Pending);
    for step in 0..100u16 {
        assert_eq!(h.remaining_transfers(&dma), 100 - step);
        dma.hw_step(3);
    }
    assert_eq!(h.remaining_transfers(&dma), 0);
    assert!(dma.channels[3].tcif);
    let woken = on_irq(&mut dma, &mut table);
    assert_eq!(woken, vec![42]);
    assert_eq!(h.wait_for_completion(&mut dma, &mut table, 42), Poll::Ready);
    assert_eq!(h.remaining_transfers(&dma), 0);
    assert!(h.is_idle());
    assert!(h.is_stopped(&dma));
}

#[test]
fn stop_preserves_addresses_count_and_status() {
    let (mut dma, _table) = fresh(Routing::Multiplexed);
    let mut h = ChannelHandle::new(1);
    h.read(&mut dma, 7, 0x4000_0020, 0x2000_0040, 50, Size::Bits16).unwrap();
    for _ in 0..20 {
        dma.hw_step(1);
    }
    h.stop(&mut dma);
    let c = dma.channels[1];
    assert!(!c.en && !c.tcie && !c.teie);
    assert_eq!(c.par, 0x4000_0020);
    assert_eq!(c.mar, 0x2000_0040);
    assert_eq!(c.ndtr, 30);
    assert!(!c.tcif);
}

#[test]
fn reset_status_clears_sticky_flags() {
    let (mut dma, _table) = fresh(Routing::Fixed);
    let mut h = ChannelHandle::new(2);
    h.start_read(&mut dma, 0, 0x4000_0000, 0x2000_0000, 1, Size::Bits8).unwrap();
    dma.hw_complete(2);
    dma.hw_error(2);
    assert!(dma.channels[2].tcif && dma.channels[2].teif);
    dma.reset_status(2);
    assert!(!dma.channels[2].tcif && !dma.channels[2].teif);
}

#[test]
fn manual_start_leaves_the_guard_down() {
    let (mut dma, _table) = fresh(Routing::Multiplexed);
    let mut h = ChannelHandle::new(0);
    let r = h.start_write(&mut dma, 6, 0x2000_0000, 16, 0x4000_0004, Size::Bits32);
    assert_eq!(r, Ok(()));
    assert!(h.is_idle());
    assert!(!h.is_stopped(&dma));
    let again = h.start_write(&mut dma, 6, 0x2000_0100, 16, 0x4000_0004, Size::Bits32);
    assert_eq!(again, Ok(()));
    h.stop(&mut dma);
    assert!(h.is_stopped(&dma));
}

#[test]
fn manual_start_rejects_oversized_count() {
    let (mut dma, _table) = fresh(Routing::Fixed);
    let mut h = ChannelHandle::new(0);
    let snapshot = dma.clone();
    let r = h.start_read(&mut dma, 0, 0x4000_0000, 0x2000_0000, 70_000, Size::Bits8);
    assert_eq!(r, Err(Error::CountTooLarge));
    assert_eq!(dma, snapshot);
}

#[test]
fn fixed_routing_never_touches_the_mux() {
    let (mut dma, _table) = fresh(Routing::Fixed);
    let mut h = ChannelHandle::new(4);
    h.read(&mut dma, 200, 0x4000_0000, 0x2000_0000, 4, Size::Bits8).unwrap();
    assert_eq!(dma.routed_request(4), 0);
}

#[test]
fn descriptor_start_without_increment() {
    let (mut dma, _table) = fresh(Routing::Multiplexed);
    let mut h = ChannelHandle::new(5);
    let d = TransferDescriptor {
        request: 13,
        dir: Dir::MemoryToPeripheral,
        size: Size::Bits32,
        peri_addr: 0x4000_0010,
        mem_addr: 0x2000_0000,
        count: 42,
        incr_mem: false,
    };
    assert_eq!(h.configure_and_start(&mut dma, d), Ok(()));
    let c = dma.channels[5];
    assert!(c.en && c.tcie && c.teie);
    assert!(!c.minc);
    assert_eq!(c.dir, Dir::MemoryToPeripheral);
    assert_eq!(c.size, Size::Bits32);
    assert_eq!(c.ndtr, 42);
    assert_eq!(c.par, 0x4000_0010);
    assert_eq!(c.mar, 0x2000_0000);
    assert_eq!(dma.routed_request(5), 13);
}

#[test]
fn boot_builds_one_idle_handle_per_channel() {
    let (dma, table, handles) = dma_engine::init(Routing::Multiplexed, CH_COUNT);
    assert_eq!(handles.len(), CH_COUNT);
    for (i, h) in handles.iter().enumerate() {
        assert_eq!(h.index(), i);
        assert!(h.is_idle());
        let c = dma.channels[i];
        assert!(!c.en && !c.tcie && !c.teie && !c.tcif && !c.teif);
        assert_eq!(c.ndtr, 0);
        assert_eq!(table.registered(i), None);
    }
}

#[test]
fn global_channel_identity_is_flat() {
    assert_eq!(global_channel_index(0, 8, 3), 3);
    assert_eq!(global_channel_index(1, 8, 3), 11);
    assert_eq!(global_channel_index(2, 7, 0), 14);
}

#[test]
fn latest_waker_registration_wins() {
    let mut table = WakerTable::new(CH_COUNT);
    let h = ChannelHandle::new(5);
    h.set_waker(&mut table, 10);
    h.set_waker(&mut table, 20);
    assert_eq!(table.registered(5), Some(20));
    assert_eq!(table.wake(5), Some(20));
    assert_eq!(table.registered(5), None);
    assert_eq!(table.wake(5), None);
}
