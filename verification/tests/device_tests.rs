use voxel_engine::device::{create_device, get_hardware_adapter, AdapterInfo};
use voxel_engine::error::RenderError;

fn hardware() -> AdapterInfo {
    AdapterInfo { software: false, supports_feature_level: true }
}

fn software() -> AdapterInfo {
    AdapterInfo { software: true, supports_feature_level: true }
}

fn old_hardware() -> AdapterInfo {
    AdapterInfo { software: false, supports_feature_level: false }
}

#[test]
fn no_adapters_is_fatal() {
    let adapters: Vec<AdapterInfo> = vec![];
    assert_eq!(get_hardware_adapter(&adapters), Err(RenderError::NoSuitableAdapter));
}

#[test]
fn software_adapter_is_skipped() {
    let adapters = vec![software(), hardware()];
    assert_eq!(get_hardware_adapter(&adapters), Ok(1));
}

#[test]
fn unsupported_feature_level_is_skipped() {
    let adapters = vec![old_hardware(), software(), hardware(), hardware()];
    assert_eq!(get_hardware_adapter(&adapters), Ok(2));
}

#[test]
fn only_unsuitable_adapters_is_fatal() {
    let adapters = vec![software(), old_hardware()];
    assert_eq!(get_hardware_adapter(&adapters), Err(RenderError::NoSuitableAdapter));
}

#[test]
fn create_device_selects_first_suitable() {
    let adapters = vec![software(), hardware()];
    let device = create_device(&adapters).unwrap();
    assert_eq!(device.adapter_index, 1);
}

#[test]
fn create_device_no_adapter() {
    let adapters = vec![software()];
    assert_eq!(create_device(&adapters), Err(RenderError::NoSuitableAdapter));
}
