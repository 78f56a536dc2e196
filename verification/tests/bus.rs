//! Tests of the bus: sending through mock CAN interfaces, eviction
//! requeueing, would-block retries and terminal errors.

use n2k::hal::can::{Receiver, TransferError, Transmitter};
use n2k::{Bus, BusError, CanFrame, Id, Message, Priority, GLOBAL_ADDRESS};

struct MockCan {
    pub frames: Vec<CanFrame>,
}

impl MockCan {
    pub fn new() -> Self {
        MockCan { frames: Vec::new() }
    }
}

impl Receiver for MockCan {
    type Frame = CanFrame;
    type Error = ();

    fn receive(&mut self) -> Result<CanFrame, TransferError<()>> {
        panic!();
    }
}

impl Transmitter for MockCan {
    type Frame = CanFrame;
    type Error = ();

    fn transmit(&mut self, frame: &CanFrame) -> Result<Option<CanFrame>, TransferError<()>> {
        self.frames.push(frame.clone());
        Ok(Option::None)
    }
}

#[test]
fn bus_send() {
    struct TestCase {
        message: Message,
    }
    let test_cases = [
        TestCase {
            message: Message::new(
                Id::new(Priority::Priority0, 12345, 123, GLOBAL_ADDRESS).unwrap(),
                vec![1, 2, 3, 4, 5, 6, 7],
            )
            .unwrap(),
        },
        TestCase {
            message: Message::new(
                Id::new(Priority::Priority0, 12345, 123, GLOBAL_ADDRESS).unwrap(),
                vec![1, 2, 3, 4, 5, 6, 7, 8, 9, 10, 11, 12, 13, 14, 15, 16, 17],
            )
            .unwrap(),
        },
    ];
    for i in &test_cases {
        let can = MockCan::new();
        let mut bus = Bus::new(can);

        bus.send(&i.message).unwrap();

        let data = i.message.data();
        if data.len() <= 8 {
            // Single packet
        } else {
            // Multipacket
            for b in 0..data.len() {
                let frame = (b / 7) + 1;
                let index = b - ((frame - 1) * 7) + 1;
                assert_eq!(bus.can.frames[frame].data()[index], data[b])
            }
        }
    }
}

/// A transmitter that evicts a pending lower-priority frame on the first
/// call and accepts everything afterwards.
struct EvictingCan {
    pub frames: Vec<CanFrame>,
    pub pending: Option<CanFrame>,
}

impl Receiver for EvictingCan {
    type Frame = CanFrame;
    type Error = ();

    fn receive(&mut self) -> Result<CanFrame, TransferError<()>> {
        panic!();
    }
}

impl Transmitter for EvictingCan {
    type Frame = CanFrame;
    type Error = ();

    fn transmit(&mut self, frame: &CanFrame) -> Result<Option<CanFrame>, TransferError<()>> {
        self.frames.push(frame.clone());
        Ok(self.pending.take())
    }
}

#[test]
fn bus_send_requeues_evicted_frame() {
    let low_id = Id::new(Priority::Priority7, 0xEF00, 9, GLOBAL_ADDRESS).unwrap();
    let low_frame = CanFrame::new(low_id, &[0xAA, 0xBB]);
    let can = EvictingCan { frames: Vec::new(), pending: Some(low_frame) };
    let mut bus = Bus::new(can);

    let id = Id::new(Priority::Priority0, 12345, 123, GLOBAL_ADDRESS).unwrap();
    let message = Message::new(id, vec![1, 2, 3]).unwrap();
    bus.send(&message).unwrap();

    // The first call carried the message's own frame; the eviction made the
    // engine issue a second call carrying exactly the evicted frame.
    assert_eq!(bus.can.frames.len(), 2);
    assert_eq!(bus.can.frames[0].id().value(), id.value());
    assert_eq!(bus.can.frames[0].data(), &[1, 2, 3]);
    assert_eq!(bus.can.frames[1].id().value(), low_id.value());
    assert_eq!(bus.can.frames[1].data(), &[0xAA, 0xBB]);
}

/// A transmitter that reports "would block" a fixed number of times before
/// accepting, or forever.
struct BlockingCan {
    pub frames: Vec<CanFrame>,
    pub blocks_left: usize,
    pub calls: usize,
}

impl Receiver for BlockingCan {
    type Frame = CanFrame;
    type Error = ();

    fn receive(&mut self) -> Result<CanFrame, TransferError<()>> {
        panic!();
    }
}

impl Transmitter for BlockingCan {
    type Frame = CanFrame;
    type Error = ();

    fn transmit(&mut self, frame: &CanFrame) -> Result<Option<CanFrame>, TransferError<()>> {
        self.calls += 1;
        if self.blocks_left > 0 {
            self.blocks_left -= 1;
            return Err(TransferError::WouldBlock);
        }
        self.frames.push(frame.clone());
        Ok(None)
    }
}

#[test]
fn bus_send_retries_would_block() {
    let can = BlockingCan { frames: Vec::new(), blocks_left: 3, calls: 0 };
    let mut bus = Bus::new(can);
    let id = Id::new(Priority::Priority2, 0xF014, 5, GLOBAL_ADDRESS).unwrap();
    let message = Message::new(id, vec![7]).unwrap();

    assert_eq!(bus.send(&message), Ok(()));
    assert_eq!(bus.can.calls, 4);
    assert_eq!(bus.can.frames.len(), 1);
    assert_eq!(bus.can.frames[0].data(), &[7]);
}

#[test]
fn bus_send_gives_up_when_always_blocked() {
    let can = BlockingCan { frames: Vec::new(), blocks_left: usize::MAX, calls: 0 };
    let mut bus = Bus::new(can);
    let id = Id::new(Priority::Priority2, 0xF014, 5, GLOBAL_ADDRESS).unwrap();
    let message = Message::new(id, vec![7]).unwrap();

    assert_eq!(bus.send(&message), Err(BusError::CouldNotSendMessage));
    assert_eq!(bus.can.calls, n2k::bus::TRANSMIT_ATTEMPTS);
}

#[test]
fn bus_custom_attempt_bound() {
    let can = BlockingCan { frames: Vec::new(), blocks_left: usize::MAX, calls: 0 };
    let mut bus = Bus::with_transmit_attempts(can, 5);
    let id = Id::new(Priority::Priority2, 0xF014, 5, GLOBAL_ADDRESS).unwrap();
    let message = Message::new(id, vec![7]).unwrap();

    assert_eq!(bus.send(&message), Err(BusError::CouldNotSendMessage));
    assert_eq!(bus.can.calls, 5);

    // A bound generous enough lets the same traffic through.
    let can = BlockingCan { frames: Vec::new(), blocks_left: 4, calls: 0 };
    let mut bus = Bus::with_transmit_attempts(can, 5);
    assert_eq!(bus.send(&message), Ok(()));
    assert_eq!(bus.can.calls, 5);
}

/// A transmitter that always fails with a hard error.
struct BrokenCan {}

impl Receiver for BrokenCan {
    type Frame = CanFrame;
    type Error = u8;

    fn receive(&mut self) -> Result<CanFrame, TransferError<u8>> {
        panic!();
    }
}

impl Transmitter for BrokenCan {
    type Frame = CanFrame;
    type Error = u8;

    fn transmit(&mut self, _frame: &CanFrame) -> Result<Option<CanFrame>, TransferError<u8>> {
        Err(TransferError::Other(42))
    }
}

#[test]
fn bus_send_reports_terminal_error() {
    let mut bus = Bus::new(BrokenCan {});
    let id = Id::new(Priority::Priority2, 0xF014, 5, GLOBAL_ADDRESS).unwrap();
    let message = Message::new(id, vec![1, 2]).unwrap();

    assert_eq!(bus.send(&message), Err(BusError::CouldNotSendMessage));
}
