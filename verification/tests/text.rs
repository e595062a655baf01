use nvapi::types::{Celsius, CelsiusShifted, Rpm, Percentage};
use nvapi::boolu32::BoolU32;
use nvapi::status::{ArgumentRangeError, Status, NvAPI_Status};
use nvapi::error::{Api, NvapiError, Error};
use nvapi::gpu::{DriverModel, PciIdentifiers, Bus, BusInfo};
use nvapi::text::bus_type_text;

#[test]
fn unit_texts() {
    assert_eq!(Celsius(-5).to_string(), "-5C");
    assert_eq!(Celsius(83).to_string(), "83C");
    assert_eq!(Celsius(i32::MIN).to_string(), "-2147483648C");
    assert_eq!(CelsiusShifted(83 << 8).to_string(), "83C");
    assert_eq!(CelsiusShifted(-(5 << 8)).to_string(), "-5C");
    assert_eq!(Rpm(1200).to_string(), "1200 RPM");
    assert_eq!(Rpm(0).to_string(), "0 RPM");
    assert_eq!(Percentage(100).to_string(), "100%");
    assert_eq!(BoolU32(1).to_string(), "1");
    assert_eq!(ArgumentRangeError.to_string(), "received data out of range");
}

#[test]
fn driver_model_text() {
    assert_eq!(DriverModel::new(0x2000).to_string(), "WDDM 2.00");
    assert_eq!(DriverModel::new(0x1300).to_string(), "WDDM 1.03");
}

#[test]
fn pci_and_bus_text() {
    let ids = PciIdentifiers { device_id: 0x1b8010de, subsystem_id: 0x37331458, revision_id: 0xa1, ext_device_id: 0x1b80 };
    assert_eq!(ids.to_string(), "1b8010de - 37331458 - 00001b80 - a1");
    assert_eq!(Bus::PciExpress { ids, lanes: 16 }.to_string(), "PCIe x16");
    assert_eq!(Bus::PciExpress { ids, lanes: 0 }.to_string(), "PCIe");
    assert_eq!(Bus::Pci { ids }.to_string(), "PCI");
    assert_eq!(Bus::Other(2).to_string(), "AGP");
    assert_eq!(Bus::Other(9).to_string(), "9");
    assert_eq!(bus_type_text(0), "Unknown");
    let info = BusInfo { id: 1, slot_id: 0, irq: 16, bus: Bus::PciExpress { ids, lanes: 8 } };
    assert_eq!(info.to_string(), "PCIe x8 (1:0 routed to IRQ 16)");
}

#[test]
fn status_and_error_texts() {
    use_status_texts();
}

fn use_status_texts() {
    assert_eq!(Status::Success.to_string(), "Ok");
    assert_eq!(Status::NvidiaDeviceNotFound.to_string(), "NvidiaDeviceNotFound");
    assert_eq!(NvAPI_Status::with_repr(-5).to_string(), "InvalidArgument");
    assert_eq!(NvAPI_Status::with_repr(-12345).to_string(), "-12345");
    let e = NvapiError::new(NvAPI_Status::new(Status::NotSupported), Api::NvAPI_GPU_GetTachReading);
    assert_eq!(e.to_string(), "NvAPI_GPU_GetTachReading failed: NotSupported");
    assert_eq!(Error::Nvapi(e).to_string(), "NvAPI_GPU_GetTachReading failed: NotSupported");
    assert_eq!(Error::ArgumentRange(ArgumentRangeError).to_string(), "received data out of range");
    assert_eq!(Api::NvAPI_GetErrorMessage.name(), "NvAPI_GetErrorMessage");
}
