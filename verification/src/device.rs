//! Decisions made while acquiring a device: which physical device to open,
//! which queue family to take a queue from, and which extensions to request.
//!
//! The policy is deliberately simple: the first enumerated physical device is
//! taken, and the first queue family that supports graphics work.  Enumeration
//! itself talks to the driver and lives outside this crate; these functions
//! receive the enumerated facts as plain values and make every choice.

use vstd::prelude::*;

verus! {

/// What one queue family advertises, as reported by device enumeration.
#[derive(Clone, Copy, PartialEq, Eq, Structural, Debug)]
pub struct QueueFamilyInfo {
    pub id: u32,
    pub queues_count: u32,
    pub graphics: bool,
    pub compute: bool,
    pub transfers: bool,
    pub sparse_binding: bool,
}

/// Why device acquisition gave up.
#[derive(Clone, Copy, PartialEq, Eq, Structural, Debug)]
pub enum AcquireError {
    /// Enumeration returned no physical device at all.
    NoDevice,
    /// No enumerated queue family supports graphics work.
    NoGraphicsQueueFamily,
}

/// Select the physical device to open: the first enumerated one.
/// Fails exactly when enumeration came back empty.
pub fn pick_physical_device(device_count: usize) -> (r: Result<usize, AcquireError>)
    ensures
        device_count == 0 <==> r is Err,
        r matches Ok(i) ==> i == 0,
        r matches Err(e) ==> e is NoDevice,
{
    if device_count == 0 {
        Err(AcquireError::NoDevice)
    } else {
        Ok(0)
    }
}

/// What the logical device is created with: one queue from the chosen
/// family, no optional features, and only the extensions the active path
/// needs.
#[derive(Clone, Copy, PartialEq, Eq, Structural, Debug)]
pub struct DeviceRequest {
    pub queue_family_index: u32,
    pub queue_count: u32,
    pub khr_swapchain: bool,
    pub any_optional_features: bool,
}

/// Decide the device-creation request for the chosen queue family: exactly
/// one queue, no optional features, and the swapchain extension exactly when
/// the windowed path runs.
pub fn device_request(queue_family_index: u32, windowed: bool) -> (r: DeviceRequest)
    ensures
        r.queue_family_index == queue_family_index,
        r.queue_count == 1,
        r.khr_swapchain == windowed,
        !r.any_optional_features,
{
    DeviceRequest {
        queue_family_index,
        queue_count: 1,
        khr_swapchain: windowed,
        any_optional_features: false,
    }
}

/// Select the queue family to request a queue from: the first one whose
/// capability flags include graphics support.  Fails exactly when no family
/// supports graphics.
pub fn pick_queue_family(fams: &Vec<QueueFamilyInfo>) -> (r: Result<usize, AcquireError>)
    ensures
        r matches Ok(i) ==> {
            &&& i < fams@.len()
            &&& fams@[i as int].graphics
            &&& forall|j: int| 0 <= j < i ==> !fams@[j].graphics
        },
        r is Err <==> (forall|j: int| 0 <= j < fams@.len() ==> !fams@[j].graphics),
        r matches Err(e) ==> e is NoGraphicsQueueFamily,
{
    let mut k: usize = 0;
    while k < fams.len()
        invariant
            k <= fams@.len(),
            forall|j: int| 0 <= j < k ==> !fams@[j].graphics,
        decreases fams@.len() - k,
    {
        if fams[k].graphics {
            return Ok(k);
        }
        k = k + 1;
    }
    Err(AcquireError::NoGraphicsQueueFamily)
}

} // verus!
