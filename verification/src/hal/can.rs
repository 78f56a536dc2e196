//! Controller Area Network hardware abstraction: the capability traits an
//! integrator implements for a concrete CAN controller. The segmentation
//! core consumes `Transmitter`; the filter-related capabilities describe
//! hardware acceptance-filter banks and are not exercised by it.

use vstd::prelude::*;

verus! {

/// A transfer that did not complete: either the controller has no room
/// right now and the operation should be retried, or a hard error of the
/// controller's own error type.
#[derive(Copy, Clone, Debug, PartialEq, Eq)]
pub enum TransferError<E> {
    /// The controller cannot take or hand out a frame right now; retry.
    WouldBlock,
    /// A hard controller error, fatal for the frame at hand.
    Other(E),
}

/// A CAN 2.0 frame capability.
pub trait Frame: Sized {
    /// Builds a frame with a standard 11-bit identifier; fails when the
    /// identifier or the data do not fit.
    fn new_standard(id: u32, data: &[u8]) -> Result<Self, ()>;

    /// Builds a frame with an extended 29-bit identifier; fails when the
    /// identifier or the data do not fit.
    fn new_extended(id: u32, data: &[u8]) -> Result<Self, ()>;

    /// Marks the frame as a remote frame with the given data length code;
    /// fails when the frame type does not support remote frames.
    fn with_rtr(&mut self, dlc: usize) -> Result<(), ()>;

    /// True when the frame carries an extended identifier.
    fn is_extended(&self) -> bool;

    /// True when the frame carries a standard identifier.
    fn is_standard(&self) -> bool {
        !self.is_extended()
    }

    /// True when the frame is a remote frame.
    fn is_remote_frame(&self) -> bool;

    /// True when the frame is a data frame.
    fn is_data_frame(&self) -> bool {
        !self.is_remote_frame()
    }

    /// The raw frame identifier.
    fn id(&self) -> u32;

    /// The data length code, 0 through 8.
    fn dlc(&self) -> usize;

    /// The frame data, 0 through 8 bytes.
    fn data(&self) -> &[u8];
}

/// A CAN interface able to transmit frames.
pub trait Transmitter {
    /// The frame type the interface transports.
    type Frame: Frame;

    /// The interface's hard error type.
    type Error;

    /// Puts a frame in the transmit buffer. `Ok(None)`: accepted. When the
    /// buffer is full the interface may evict a queued lower-priority frame
    /// to make room (avoiding priority inversion) and hands it back as
    /// `Ok(Some(frame))`; the caller must resubmit it. `WouldBlock`: no
    /// room at all, retry; any other error is fatal for this frame.
    fn transmit(&mut self, frame: &Self::Frame) -> Result<
        Option<Self::Frame>,
        TransferError<Self::Error>,
    >;
}

/// A CAN interface able to receive frames.
pub trait Receiver {
    /// The frame type the interface transports.
    type Frame: Frame;

    /// The interface's hard error type.
    type Error;

    /// Returns a received frame when one is available.
    fn receive(&mut self) -> Result<Self::Frame, TransferError<Self::Error>>;
}

/// Filter mask type of a filter group.
pub enum MaskType {
    /// Each filter of the group has an individual mask.
    Individual,
    /// All filters of the group share a common mask.
    Shared,
}

/// How a filter group treats the remote transmission request (RTR) bit.
pub enum RtrFilterBehavior {
    /// The RTR bit is part of both the filter and the mask: a filter can
    /// allow remote frames or accept remote frames only.
    Configurable,
    /// The RTR bit is part of the filter: a filter can accept either data
    /// or remote frames, not both.
    ConfigurableEitherDataOrRemote,
    /// Both data and remote frames with a matching identifier are accepted.
    RemoteAlwaysAllowed,
    /// Only data frames with a matching identifier are accepted.
    OnlyData,
    /// Only remote frames with a matching identifier are accepted.
    OnlyRemote,
}

/// A group of hardware acceptance filters with one shared capability set.
pub trait FilterGroup {
    /// The number of consecutive filters with the same capability.
    fn num_filters(&self) -> usize;

    /// True when extended 29-bit identifiers are supported in addition to
    /// the standard 11-bit ones.
    fn extended(&self) -> bool;

    /// The mask type, or `None` when no mask is supported.
    fn mask(&self) -> Option<MaskType>;

    /// How the group treats remote frames.
    fn rtr(&self) -> RtrFilterBehavior;
}

/// One hardware acceptance filter.
pub trait Filter: Sized {
    /// A filter that accepts every frame.
    fn accept_all() -> Self;

    /// A filter that accepts frames with the given standard identifier.
    fn new_standard(id: u32) -> Self;

    /// A filter that accepts frames with the given extended identifier.
    fn new_extended(id: u32) -> Self;

    /// Applies a mask: the filter then matches a received identifier when
    /// `received & mask == filter & mask`.
    fn with_mask(&mut self, mask: u32);

    /// Makes the filter accept both data and remote frames. Only available
    /// for `RtrFilterBehavior::Configurable` groups.
    fn allow_remote(&mut self);

    /// Makes the filter accept remote frames only. Only available for
    /// `Configurable` and `ConfigurableEitherDataOrRemote` groups.
    fn remote_only(&mut self);
}

/// A receiver whose acceptance filters can be configured.
pub trait FilteredReceiver: Receiver {
    /// The filter type of the interface.
    type Filter: Filter;

    /// The filter-group description type of the interface.
    type FilterGroup: FilterGroup;

    /// The filter banks the controller offers.
    fn filter_groups(&self) -> Vec<Self::FilterGroup>;

    /// Adds and enables a filter.
    fn add_filter(&mut self, filter: &Self::Filter) -> Result<(), Self::Error>;

    /// Clears all filters; nothing is received until a filter is added.
    fn clear_filters(&mut self);
}

} // verus!
