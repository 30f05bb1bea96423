//! Decision core of the serial link: the one owner of the device. The task
//! that runs the link races a device read against the next funnel item; what
//! it does with either outcome is fixed here, so device closure and fatal
//! errors terminate the link by contract.

use vstd::prelude::*;

verus! {

/// What the serial-link task can observe: the outcome of a device read, or
/// the next item from the write funnel.
#[derive(Clone, Debug)]
pub enum LinkEvent {
    /// A device read returned these bytes; a zero-length read means the
    /// device closed.
    DeviceRead(Vec<u8>),
    /// A device read timed out: nothing arrived, nothing is wrong.
    DeviceTimeout,
    /// A device read or write failed fatally.
    DeviceError,
    /// The next item merged by the write funnel.
    FunnelItem(Vec<u8>),
    /// The funnel has no producers left; the link keeps serving reads.
    FunnelClosed,
}

/// Why the serial link stops.
#[derive(Clone, Copy, Debug, PartialEq, Eq, Structural)]
pub enum LinkStop {
    /// The device closed: a normal end of the relay.
    DeviceClosed,
    /// A fatal device error, propagated to the process owner.
    Fatal,
}

/// The one action the serial link performs in response to an event.
#[derive(Clone, Debug)]
pub enum LinkAction {
    /// Publish these bytes verbatim to the fan-out bus.
    Publish(Vec<u8>),
    /// Write these bytes to the device before resuming.
    WriteDevice(Vec<u8>),
    /// Keep running.
    Continue,
    /// Terminate the link.
    Stop(LinkStop),
}

/// The link's event-to-action map: non-empty reads are published verbatim,
/// a zero-length read closes the link normally, timeouts are ignored, any
/// other device error is fatal, and funnel items are written to the device.
pub open spec fn link_step(ev: LinkEvent) -> LinkAction {
    match ev {
        LinkEvent::DeviceRead(data) => if data@.len() > 0 {
            LinkAction::Publish(data)
        } else {
            LinkAction::Stop(LinkStop::DeviceClosed)
        },
        LinkEvent::DeviceTimeout => LinkAction::Continue,
        LinkEvent::DeviceError => LinkAction::Stop(LinkStop::Fatal),
        LinkEvent::FunnelItem(data) => LinkAction::WriteDevice(data),
        LinkEvent::FunnelClosed => LinkAction::Continue,
    }
}

/// Maps one observed event to the one action the serial link performs.
pub fn link_on_event(ev: LinkEvent) -> (a: LinkAction)
    ensures
        a == link_step(ev),
{
    match ev {
        LinkEvent::DeviceRead(data) => if data.len() > 0 {
            LinkAction::Publish(data)
        } else {
            LinkAction::Stop(LinkStop::DeviceClosed)
        },
        LinkEvent::DeviceTimeout => LinkAction::Continue,
        LinkEvent::DeviceError => LinkAction::Stop(LinkStop::Fatal),
        LinkEvent::FunnelItem(data) => LinkAction::WriteDevice(data),
        LinkEvent::FunnelClosed => LinkAction::Continue,
    }
}

/// A zero-length device read — the device closed — always stops the link;
/// the bus then closes with it, which is what lets every session terminate.
pub proof fn law_device_eof_stops(data: Vec<u8>)
    requires
        data@.len() == 0,
    ensures
        link_step(LinkEvent::DeviceRead(data)) == LinkAction::Stop(LinkStop::DeviceClosed),
{
}

} // verus!
