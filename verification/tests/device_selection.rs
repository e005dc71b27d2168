//! Tests for queue-family lookup, extension checks and physical-device
//! selection.

use frameloop::device::{
    check_physical_device, check_physical_device_extensions, max_msaa_samples,
    pick_physical_device, DeviceFacts, QueueFamilyIndices,
};
use frameloop::error::RenderError;

fn good_device() -> DeviceFacts {
    DeviceFacts {
        queue_flags: vec![0b1100, 0b0001],
        present_support: vec![true, false],
        available_extensions: vec![10, 20, 30],
        format_count: 2,
        present_mode_count: 2,
        sampler_anisotropy: true,
    }
}

#[test]
fn queue_family_selection_takes_the_first_of_each_kind() {
    let q = QueueFamilyIndices::select(&vec![0b10, 0b01, 0b11], &vec![false, false, true]).unwrap();
    assert_eq!(q.graphics, 1);
    assert_eq!(q.present, 2);
}

#[test]
fn missing_either_queue_family_is_reported() {
    let r = QueueFamilyIndices::select(&vec![0b10, 0b10], &vec![true, true]);
    assert_eq!(r, Err(RenderError::MissingQueueFamily));
    let r = QueueFamilyIndices::select(&vec![0b1, 0b1], &vec![false, false]);
    assert_eq!(r, Err(RenderError::MissingQueueFamily));
    let r = QueueFamilyIndices::select(&vec![], &vec![]);
    assert_eq!(r, Err(RenderError::MissingQueueFamily));
}

#[test]
fn unique_families_lists_each_family_once() {
    let q = QueueFamilyIndices { graphics: 2, present: 2 };
    assert_eq!(q.unique_families(), vec![2]);
    let q = QueueFamilyIndices { graphics: 0, present: 3 };
    assert_eq!(q.unique_families(), vec![0, 3]);
}

#[test]
fn extension_check_is_a_subset_test() {
    assert_eq!(check_physical_device_extensions(&vec![10, 20, 30], &vec![20]), Ok(()));
    assert_eq!(check_physical_device_extensions(&vec![10, 20, 30], &vec![]), Ok(()));
    assert_eq!(
        check_physical_device_extensions(&vec![10, 30], &vec![20]),
        Err(RenderError::MissingRequiredExtension)
    );
    assert_eq!(
        check_physical_device_extensions(&vec![], &vec![20]),
        Err(RenderError::MissingRequiredExtension)
    );
}

#[test]
fn suitable_device_passes_every_check() {
    assert_eq!(check_physical_device(&good_device(), &vec![10, 20]), Ok(()));
}

#[test]
fn each_requirement_failure_maps_to_its_error() {
    let mut d = good_device();
    d.present_support = vec![false, false];
    assert_eq!(
        check_physical_device(&d, &vec![10]),
        Err(RenderError::MissingQueueFamily)
    );

    let d = good_device();
    assert_eq!(
        check_physical_device(&d, &vec![99]),
        Err(RenderError::MissingRequiredExtension)
    );

    let mut d = good_device();
    d.format_count = 0;
    assert_eq!(
        check_physical_device(&d, &vec![10]),
        Err(RenderError::InsufficientSwapchainSupport)
    );

    let mut d = good_device();
    d.present_mode_count = 0;
    assert_eq!(
        check_physical_device(&d, &vec![10]),
        Err(RenderError::InsufficientSwapchainSupport)
    );

    let mut d = good_device();
    d.sampler_anisotropy = false;
    assert_eq!(
        check_physical_device(&d, &vec![10]),
        Err(RenderError::MissingDeviceFeature)
    );
}

#[test]
fn requirements_are_checked_in_order() {
    // A device failing several checks reports the first failure: missing
    // extensions take precedence over missing anisotropy.
    let mut d = good_device();
    d.available_extensions = vec![];
    d.sampler_anisotropy = false;
    assert_eq!(
        check_physical_device(&d, &vec![10]),
        Err(RenderError::MissingRequiredExtension)
    );
}

#[test]
fn first_suitable_device_wins() {
    let mut bad = good_device();
    bad.sampler_anisotropy = false;
    let devices = vec![bad, good_device(), good_device()];
    assert_eq!(pick_physical_device(&devices, &vec![10]), Ok(1));
}

#[test]
fn multisample_count_is_the_largest_supported() {
    assert_eq!(max_msaa_samples(0b1111111), 64);
    assert_eq!(max_msaa_samples(0b0001111), 8);
    assert_eq!(max_msaa_samples(0b0000101), 4);
    assert_eq!(max_msaa_samples(0b0000001), 1);
    assert_eq!(max_msaa_samples(0), 1);
}

#[test]
fn no_suitable_device_is_fatal() {
    let mut bad = good_device();
    bad.format_count = 0;
    assert_eq!(
        pick_physical_device(&vec![bad], &vec![10]),
        Err(RenderError::NoSuitableGpu)
    );
    assert_eq!(
        pick_physical_device(&vec![], &vec![10]),
        Err(RenderError::NoSuitableGpu)
    );
    assert!(RenderError::NoSuitableGpu.is_fatal_initialization());
}
