//! CAN data frames: the fixed 8-byte-buffer unit the hardware transports.

use vstd::prelude::*;
use vstd::slice::slice_subrange;

use crate::id::Id;

verus! {

/// The mathematical model of a CAN frame: identifier, data length code and
/// the full 8-byte data buffer.
pub ghost struct FrameView {
    /// The frame identifier.
    pub id: Id,
    /// The data length code: how many buffer bytes carry payload.
    pub dlc: nat,
    /// All 8 buffer bytes, padding included.
    pub bytes: Seq<u8>,
}

/// Zero-extension of up to 8 payload bytes to the 8-byte frame buffer.
pub open spec fn zero_pad8(data: Seq<u8>) -> Seq<u8> {
    Seq::new(8, |j: int| if j < data.len() { data[j] } else { 0u8 })
}

/// A CAN data frame: an identifier, a data length code (0 through 8) and an
/// 8-byte buffer, zero-padded past the data length. Frames are transient:
/// the transport segmenter creates them and the transmit path consumes them.
#[derive(Copy, Clone, Debug)]
pub struct CanFrame {
    /// The frame identifier.
    pub id: Id,
    /// The data length code.
    pub dlc: usize,
    /// The data buffer.
    pub data: [u8; 8],
}

impl View for CanFrame {
    type V = FrameView;

    open spec fn view(&self) -> FrameView {
        FrameView { id: self.id, dlc: self.dlc as nat, bytes: self.data@ }
    }
}

impl CanFrame {
    /// Well-formed: the data length code is at most 8.
    pub open spec fn wf(self) -> bool {
        self.dlc <= 8
    }

    /// Builds a data frame carrying `data`, zero-padded to 8 buffer bytes.
    pub fn new(id: Id, data: &[u8]) -> (r: CanFrame)
        requires
            data@.len() <= 8,
        ensures
            r@ == (FrameView { id, dlc: data@.len(), bytes: zero_pad8(data@) }),
            r.wf(),
    {
        let mut buf = [0u8; 8];
        let n = data.len();
        let mut i: usize = 0;
        while i < n
            invariant
                i <= n,
                n == data@.len(),
                n <= 8,
                forall|j: int| 0 <= j < i ==> buf@[j] == data@[j],
                forall|j: int| i <= j < 8 ==> buf@[j] == 0u8,
            decreases n - i,
        {
            buf[i] = data[i];
            i += 1;
        }
        let r = CanFrame { id, dlc: n, data: buf };
        proof {
            assert(r.data@ =~= zero_pad8(data@));
        }
        r
    }

    /// The frame identifier.
    pub fn id(&self) -> (r: Id)
        ensures
            r == self@.id,
    {
        self.id
    }

    /// The data length code.
    pub fn dlc(&self) -> (r: usize)
        ensures
            r == self@.dlc,
    {
        self.dlc
    }

    /// The payload: the first `dlc` buffer bytes.
    pub fn data(&self) -> (r: &[u8])
        requires
            self.wf(),
        ensures
            r@ == self@.bytes.subrange(0, self@.dlc as int),
    {
        slice_subrange(self.data.as_slice(), 0, self.dlc)
    }
}

impl crate::hal::can::Frame for CanFrame {
    /// Standard 11-bit identifiers carry no protocol frame here: always
    /// fails.
    fn new_standard(_id: u32, _data: &[u8]) -> Result<CanFrame, ()> {
        Err(())
    }

    fn new_extended(id: u32, data: &[u8]) -> Result<CanFrame, ()> {
        if data.len() > 8 {
            return Err(());
        }
        match Id::try_from(id) {
            Ok(parsed) => Ok(CanFrame::new(parsed, data)),
            Err(_) => Err(()),
        }
    }

    /// Remote frames are not supported by this frame type: always fails.
    fn with_rtr(&mut self, _dlc: usize) -> Result<(), ()> {
        Err(())
    }

    fn is_extended(&self) -> bool {
        true
    }

    fn is_remote_frame(&self) -> bool {
        false
    }

    fn id(&self) -> u32 {
        self.id.value()
    }

    fn dlc(&self) -> usize {
        self.dlc
    }

    fn data(&self) -> &[u8] {
        let n = if self.dlc <= 8 {
            self.dlc
        } else {
            8
        };
        slice_subrange(self.data.as_slice(), 0, n)
    }
}

} // verus!
