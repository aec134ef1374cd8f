//! Trusted boundary to the USB transport.
//!
//! Everything the session needs from the transport — open, configuration,
//! interface claiming, kernel-driver control, and the control/bulk/interrupt
//! transfers — passes through the declarations and wrappers of this module.
//! Each wrapper's contract states only what the transport's source and
//! documentation show; what a transfer returns beyond that is treated as
//! unknown, and the verified protocol logic must hold for every outcome.

use vstd::prelude::*;

use core::time::Duration;

use crate::errors::TransportError;

verus! {

#[verifier::external_type_specification]
#[verifier::external_body]
pub struct ExUsbError(rusb::Error);

/// An instrument found by device discovery, to be opened by `usb_open`.
/// The transport's device type is generic over its context, whose trait
/// cannot be declared to the verifier, so the value is held in an opaque
/// struct; the field is written by the discovery code and read only by the
/// wrappers of this module.
#[verifier::external_body]
pub struct UsbDevice {
    pub inner: rusb::Device<rusb::GlobalContext>,
}

/// The open handle of the session's device, opaque to the verifier for the
/// same reason; touched only by the wrappers of this module.
#[verifier::external_body]
pub struct UsbDeviceHandle {
    pub inner: rusb::DeviceHandle<rusb::GlobalContext>,
}

/// Relies on the variant set of rusb::Error: each transport failure is
/// carried over to the library's own transport error, one variant for one.
#[verifier::external_body]
pub(crate) fn transport_of(e: rusb::Error) -> TransportError {
    match e {
        rusb::Error::Io => TransportError::Io,
        rusb::Error::InvalidParam => TransportError::InvalidParam,
        rusb::Error::Access => TransportError::Access,
        rusb::Error::NoDevice => TransportError::NoDevice,
        rusb::Error::NotFound => TransportError::NotFound,
        rusb::Error::Busy => TransportError::Busy,
        rusb::Error::Timeout => TransportError::Timeout,
        rusb::Error::Overflow => TransportError::Overflow,
        rusb::Error::Pipe => TransportError::Pipe,
        rusb::Error::Interrupted => TransportError::Interrupted,
        rusb::Error::NoMem => TransportError::NoMem,
        rusb::Error::NotSupported => TransportError::NotSupported,
        rusb::Error::BadDescriptor => TransportError::BadDescriptor, rusb::Error::Other => TransportError::Other,
    }
}

/// Relies on rusb::Device::open to produce a handle for the device.
#[verifier::external_body]
pub(crate) fn usb_open(device: &UsbDevice) -> (r: Result<UsbDeviceHandle, TransportError>)
{
    device.inner.open().map(|h| UsbDeviceHandle { inner: h }).map_err(transport_of)
}

/// Relies on rusb::Device::device_descriptor; hands out only the number of
/// configurations the descriptor reports.
#[verifier::external_body]
pub(crate) fn usb_num_configurations(device: &UsbDevice) -> (r: Result<
    u8,
    TransportError,
>)
{
    device.inner.device_descriptor().map(|d| d.num_configurations()).map_err(transport_of)
}

/// Relies on rusb::Device::config_descriptor; hands out only the number of
/// interfaces the descriptor reports.
#[verifier::external_body]
pub(crate) fn usb_num_interfaces(device: &UsbDevice, config: u8) -> (r:
    Result<u8, TransportError>)
{
    device.inner.config_descriptor(config).map(|c| c.num_interfaces()).map_err(transport_of)
}

/// Relies on rusb::Device::config_descriptor; reports only whether the
/// lookup succeeded, dropping the descriptor itself.
#[verifier::external_body]
pub(crate) fn usb_lookup_config(device: &UsbDevice, config: u8) -> (r:
    Result<(), TransportError>)
{
    device.inner.config_descriptor(config).map(|_| ()).map_err(transport_of)
}

/// Relies on rusb::supports_detach_kernel_driver: whether this platform
/// exposes kernel-driver attachment control.
#[verifier::external_body]
pub(crate) fn usb_supports_detach_kernel_driver() -> bool {
    rusb::supports_detach_kernel_driver()
}

/// Relies on rusb::DeviceHandle::kernel_driver_active.
#[verifier::external_body]
pub(crate) fn usb_kernel_driver_active(
    handle: &UsbDeviceHandle,
    interface: u8,
) -> (r: Result<bool, TransportError>)
{
    handle.inner.kernel_driver_active(interface).map_err(transport_of)
}

/// Relies on rusb::DeviceHandle::detach_kernel_driver.
#[verifier::external_body]
pub(crate) fn usb_detach_kernel_driver(
    handle: &UsbDeviceHandle,
    interface: u8,
) -> (r: Result<(), TransportError>)
{
    handle.inner.detach_kernel_driver(interface).map_err(transport_of)
}

/// Relies on rusb::DeviceHandle::attach_kernel_driver.
#[verifier::external_body]
pub(crate) fn usb_attach_kernel_driver(
    handle: &UsbDeviceHandle,
    interface: u8,
) -> (r: Result<(), TransportError>)
{
    handle.inner.attach_kernel_driver(interface).map_err(transport_of)
}

/// Relies on rusb::DeviceHandle::active_configuration.
#[verifier::external_body]
pub(crate) fn usb_active_configuration(handle: &UsbDeviceHandle) -> (r:
    Result<u8, TransportError>)
{
    handle.inner.active_configuration().map_err(transport_of)
}

/// Relies on rusb::DeviceHandle::set_active_configuration.
#[verifier::external_body]
pub(crate) fn usb_set_active_configuration(
    handle: &UsbDeviceHandle,
    config: u8,
) -> (r: Result<(), TransportError>)
{
    handle.inner.set_active_configuration(config).map_err(transport_of)
}

/// Relies on rusb::DeviceHandle::claim_interface.
#[verifier::external_body]
pub(crate) fn usb_claim_interface(
    handle: &UsbDeviceHandle,
    interface: u8,
) -> (r: Result<(), TransportError>)
{
    handle.inner.claim_interface(interface).map_err(transport_of)
}

/// Relies on rusb::DeviceHandle::release_interface.
#[verifier::external_body]
pub(crate) fn usb_release_interface(
    handle: &UsbDeviceHandle,
    interface: u8,
) -> (r: Result<(), TransportError>)
{
    handle.inner.release_interface(interface).map_err(transport_of)
}

/// Relies on rusb::DeviceHandle::clear_halt.
#[verifier::external_body]
pub(crate) fn usb_clear_halt(
    handle: &UsbDeviceHandle,
    endpoint: u8,
) -> (r: Result<(), TransportError>)
{
    handle.inner.clear_halt(endpoint).map_err(transport_of)
}

/// Relies on rusb::DeviceHandle::write_bulk: on success it reports how many
/// bytes of the buffer were written, never more than the buffer holds.
#[verifier::external_body]
pub(crate) fn usb_write_bulk(
    handle: &UsbDeviceHandle,
    endpoint: u8,
    buf: &[u8],
    timeout: Duration,
) -> (r: Result<usize, TransportError>)
    ensures
        r matches Ok(n) ==> n <= buf@.len(),
{
    handle.inner.write_bulk(endpoint, buf, timeout).map_err(transport_of)
}

/// Relies on rusb::DeviceHandle::read_bulk: on success the buffer holds the
/// bytes received, never more than were asked for.
#[verifier::external_body]
pub(crate) fn usb_read_bulk(
    handle: &UsbDeviceHandle,
    endpoint: u8,
    len: usize,
    timeout: Duration,
) -> (r: Result<Vec<u8>, TransportError>)
    ensures
        r matches Ok(v) ==> v@.len() <= len,
{
    let mut buf = vec![0u8; len];
    match handle.inner.read_bulk(endpoint, &mut buf, timeout) {
        Ok(n) => {
            buf.truncate(n);
            Ok(buf)
        },
        Err(e) => Err(transport_of(e)),
    }
}

/// Relies on rusb::DeviceHandle::read_control: on success the buffer holds
/// the bytes received, never more than were asked for.  The transport caps a
/// control transfer's length at a 16-bit field.
#[verifier::external_body]
pub(crate) fn usb_read_control(
    handle: &UsbDeviceHandle,
    request_type: u8,
    request: u8,
    value: u16,
    index: u16,
    len: usize,
    timeout: Duration,
) -> (r: Result<Vec<u8>, TransportError>)
    requires
        len <= 65535,
    ensures
        r matches Ok(v) ==> v@.len() <= len,
{
    let mut buf = vec![0u8; len];
    match handle.inner.read_control(request_type, request, value, index, &mut buf, timeout) {
        Ok(n) => {
            buf.truncate(n);
            Ok(buf)
        },
        Err(e) => Err(transport_of(e)),
    }
}

/// Relies on rusb::DeviceHandle::read_interrupt: on success the buffer holds
/// the bytes received, never more than were asked for.
#[verifier::external_body]
pub(crate) fn usb_read_interrupt(
    handle: &UsbDeviceHandle,
    endpoint: u8,
    len: usize,
    timeout: Duration,
) -> (r: Result<Vec<u8>, TransportError>)
    ensures
        r matches Ok(v) ==> v@.len() <= len,
{
    let mut buf = vec![0u8; len];
    match handle.inner.read_interrupt(endpoint, &mut buf, timeout) {
        Ok(n) => {
            buf.truncate(n);
            Ok(buf)
        },
        Err(e) => Err(transport_of(e)),
    }
}

/// Relies on core::time::Duration::from_millis.
#[verifier::external_body]
pub(crate) fn duration_from_millis(ms: u64) -> Duration {
    Duration::from_millis(ms)
}

} // verus!
