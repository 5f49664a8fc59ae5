use vstd::prelude::*;

verus! {

/// The lowest graphics API version a device must offer: 1.3, packed as the
/// API packs versions (major in the bits from 22, minor from 12, patch below).
pub const MIN_API_VERSION: u32 = (1 << 22) | (3 << 12);

/// The kind of a physical device.
#[derive(Debug, Copy, Clone, PartialEq, Eq, Structural)]
pub enum DeviceKind {
    Other,
    IntegratedGpu,
    DiscreteGpu,
    VirtualGpu,
    Cpu,
}

/// What device selection reads of a physical device.
#[derive(Debug, Copy, Clone, PartialEq, Eq, Structural)]
pub struct DeviceInfo {
    pub kind: DeviceKind,
    pub api_version: u32,
}

/// What queue-family selection reads of a queue family.
#[derive(Debug, Copy, Clone, PartialEq, Eq, Structural)]
pub struct QueueFamily {
    pub queue_count: u32,
    pub graphics: bool,
}

/// Device `d` is of kind `k` and offers the minimum API version.
pub open spec fn qualifies(d: DeviceInfo, k: DeviceKind) -> bool {
    d.kind == k && d.api_version >= MIN_API_VERSION
}

/// `i` is the first device of `devices` that qualifies as kind `k`.
pub open spec fn first_of_kind(devices: Seq<DeviceInfo>, k: DeviceKind, i: int) -> bool {
    &&& 0 <= i < devices.len()
    &&& qualifies(devices[i], k)
    &&& forall|j: int| 0 <= j < i ==> !qualifies(#[trigger] devices[j], k)
}

/// No device of `devices` qualifies as kind `k`.
pub open spec fn none_of_kind(devices: Seq<DeviceInfo>, k: DeviceKind) -> bool {
    forall|j: int| 0 <= j < devices.len() ==> !qualifies(#[trigger] devices[j], k)
}

/// The first device of kind `k` offering the minimum API version.
fn first_qualifying(devices: &Vec<DeviceInfo>, k: DeviceKind) -> (r: Option<usize>)
    ensures
        match r {
            Some(i) => first_of_kind(devices@, k, i as int),
            None => none_of_kind(devices@, k),
        },
{
    let mut i: usize = 0;
    while i < devices.len()
        invariant
            i <= devices@.len(),
            forall|j: int| 0 <= j < i ==> !qualifies(#[trigger] devices@[j], k),
        decreases devices@.len() - i,
    {
        let d = devices[i];
        if d.kind == k && d.api_version >= MIN_API_VERSION {
            return Some(i);
        }
        i = i + 1;
    }
    None
}

/// Picks the device to render with: the first discrete GPU offering the
/// minimum API version, else the first such integrated GPU, else none, which
/// is fatal to start-up.
pub fn select_physical_device(devices: &Vec<DeviceInfo>) -> (r: Option<usize>)
    ensures
        match r {
            Some(i) => first_of_kind(devices@, DeviceKind::DiscreteGpu, i as int)
                || (none_of_kind(devices@, DeviceKind::DiscreteGpu)
                    && first_of_kind(devices@, DeviceKind::IntegratedGpu, i as int)),
            None => none_of_kind(devices@, DeviceKind::DiscreteGpu)
                && none_of_kind(devices@, DeviceKind::IntegratedGpu),
        },
{
    match first_qualifying(devices, DeviceKind::DiscreteGpu) {
        Some(i) => Some(i),
        None => first_qualifying(devices, DeviceKind::IntegratedGpu),
    }
}

/// Family `f` has queues that can do graphics work.
pub open spec fn graphics_capable(f: QueueFamily) -> bool {
    f.queue_count > 0 && f.graphics
}

/// Picks the queue family for the one graphics queue: the last family that
/// has queues and supports graphics.
pub fn graphics_queue_family(families: &Vec<QueueFamily>) -> (r: Option<usize>)
    ensures
        match r {
            Some(i) => i < families@.len() && graphics_capable(families@[i as int])
                && forall|j: int| i < j < families@.len() ==> !graphics_capable(#[trigger] families@[j]),
            None => forall|j: int| 0 <= j < families@.len() ==> !graphics_capable(#[trigger] families@[j]),
        },
{
    let mut found: Option<usize> = None;
    let mut i: usize = 0;
    while i < families.len()
        invariant
            i <= families@.len(),
            match found {
                Some(f) => f < i && graphics_capable(families@[f as int])
                    && forall|j: int| f < j < i ==> !graphics_capable(#[trigger] families@[j]),
                None => forall|j: int| 0 <= j < i ==> !graphics_capable(#[trigger] families@[j]),
            },
        decreases families@.len() - i,
    {
        let f = families[i];
        if f.queue_count > 0 && f.graphics {
            found = Some(i);
        }
        i = i + 1;
    }
    found
}

} // verus!
