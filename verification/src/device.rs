//! Choice of the physical device and of the queue family to render with.
//!
//! A device qualifies when it supports the required device extensions
//! (only the swapchain extension) and has a queue family that can do graphics
//! and can present to the window's surface.  Among the qualifying devices
//! the one of the best kind wins (discrete GPU, then integrated, virtual,
//! CPU, other); between devices of the same kind the first one listed wins.

use vstd::prelude::*;

verus! {

/// The graphics bit of a queue family's flags.
pub const QUEUE_GRAPHICS_BIT: u32 = 1;

/// The kind of a physical device as the driver reports it.
#[derive(Clone, Copy, PartialEq, Eq, Structural, Debug)]
pub enum DeviceKind {
    IntegratedGpu,
    DiscreteGpu,
    VirtualGpu,
    Cpu,
    Other,
    /// A kind that this library does not know by name.
    Unlisted,
}

/// Preference of a device kind: the lower, the better.
pub open spec fn kind_rank(kind: DeviceKind) -> u8 {
    match kind {
        DeviceKind::DiscreteGpu => 0,
        DeviceKind::IntegratedGpu => 1,
        DeviceKind::VirtualGpu => 2,
        DeviceKind::Cpu => 3,
        DeviceKind::Other => 4,
        DeviceKind::Unlisted => 5,
    }
}

/// One queue family of a physical device.
#[derive(Clone, Copy, PartialEq, Eq, Structural, Debug)]
pub struct QueueFamilyInfo {
    /// The raw queue flags of the family.
    pub queue_flags: u32,
    /// Whether queues of this family can present to the window's surface.
    pub presentation_support: bool,
}

/// What the selection reads of a physical device.
#[derive(Clone, Debug)]
pub struct PhysicalDeviceInfo {
    /// Whether the device supports the swapchain extension, the one device
    /// extension the engine requires.
    pub khr_swapchain_supported: bool,
    pub kind: DeviceKind,
    /// The device's queue families, in the driver's order.
    pub queue_families: Vec<QueueFamilyInfo>,
}

/// The selected device (an index into the list that was searched) and
/// the index of the queue family to create the queue from.
#[derive(Clone, Copy, PartialEq, Eq, Structural, Debug)]
pub struct DeviceChoice {
    pub device_index: usize,
    pub queue_family_index: u32,
}

/// A queue family fit for rendering: it has the graphics bit and can present.
pub open spec fn family_suitable(family: QueueFamilyInfo) -> bool {
    (family.queue_flags & QUEUE_GRAPHICS_BIT) != 0 && family.presentation_support
}

/// `i` is the position of the first suitable family of `families`.
pub open spec fn is_first_suitable(families: Seq<QueueFamilyInfo>, i: int) -> bool {
    &&& 0 <= i < families.len()
    &&& family_suitable(families[i])
    &&& forall|j: int| 0 <= j < i ==> !family_suitable(#[trigger] families[j])
}

/// Some family of `families` is suitable.
pub open spec fn has_suitable_family(families: Seq<QueueFamilyInfo>) -> bool {
    exists|i: int| 0 <= i < families.len() && family_suitable(#[trigger] families[i])
}

/// The position of the first suitable family (meaningful when there is one).
pub open spec fn first_suitable_family(families: Seq<QueueFamilyInfo>) -> int {
    choose|i: int| is_first_suitable(families, i)
}

/// A device that may be selected.
pub open spec fn device_qualifies(device: PhysicalDeviceInfo) -> bool {
    device.khr_swapchain_supported && has_suitable_family(device.queue_families@)
}

/// Among the first `upto` devices, `d` qualifies, no qualifying device has
/// a better kind, and every qualifying device before it has a worse kind.
pub open spec fn best_among(devices: Seq<PhysicalDeviceInfo>, d: int, upto: int) -> bool {
    &&& 0 <= d < upto
    &&& device_qualifies(devices[d])
    &&& forall|j: int|
        0 <= j < upto && device_qualifies(#[trigger] devices[j]) ==> kind_rank(devices[d].kind)
            <= kind_rank(devices[j].kind)
    &&& forall|j: int|
        0 <= j < d && device_qualifies(#[trigger] devices[j]) ==> kind_rank(devices[d].kind)
            < kind_rank(devices[j].kind)
}

/// There is at most one first suitable family.
pub proof fn lemma_first_suitable_unique(families: Seq<QueueFamilyInfo>, i: int)
    requires
        is_first_suitable(families, i),
    ensures
        first_suitable_family(families) == i,
{
    let k = first_suitable_family(families);
    assert(is_first_suitable(families, k));
    if k < i {
        assert(!family_suitable(families[k]));
    } else if i < k {
        assert(!family_suitable(families[i]));
    }
}

/// The preference of a device kind (discrete GPU 0, integrated GPU 1,
/// virtual GPU 2, CPU 3, other 4, any unlisted kind 5).
pub fn device_kind_rank(kind: DeviceKind) -> (rank: u8)
    ensures
        rank == kind_rank(kind),
{
    match kind {
        DeviceKind::DiscreteGpu => 0,
        DeviceKind::IntegratedGpu => 1,
        DeviceKind::VirtualGpu => 2,
        DeviceKind::Cpu => 3,
        DeviceKind::Other => 4,
        DeviceKind::Unlisted => 5,
    }
}

/// The position of the first queue family that has the graphics bit and
/// can present, or `None` when there is none.
pub fn graphics_queue_family(families: &Vec<QueueFamilyInfo>) -> (res: Option<usize>)
    ensures
        res matches Some(i) ==> is_first_suitable(families@, i as int),
        res is None <==> !has_suitable_family(families@),
{
    let n = families.len();
    let mut i: usize = 0;
    while i < n
        invariant
            n == families.len(),
            i <= n,
            forall|j: int| 0 <= j < i ==> !family_suitable(#[trigger] families@[j]),
        decreases n - i,
    {
        let family = families[i];
        if (family.queue_flags & QUEUE_GRAPHICS_BIT) != 0 && family.presentation_support {
            return Some(i);
        }
        i = i + 1;
    }
    None
}

/// Selects the device to render with and its queue family, or `None` when
/// no device qualifies.
pub fn select_device(devices: &Vec<PhysicalDeviceInfo>) -> (res: Option<DeviceChoice>)
    ensures
        res is None <==> forall|j: int|
            0 <= j < devices@.len() ==> !device_qualifies(#[trigger] devices@[j]),
        res matches Some(c) ==> {
            &&& best_among(devices@, c.device_index as int, devices@.len() as int)
            &&& c.queue_family_index == first_suitable_family(
                devices@[c.device_index as int].queue_families@,
            ) as u32
        },
{
    let n = devices.len();
    let mut best: Option<DeviceChoice> = None;
    let mut best_rank: u8 = 0;
    let mut k: usize = 0;
    while k < n
        invariant
            n == devices.len(),
            k <= n,
            best is None <==> forall|j: int|
                0 <= j < k ==> !device_qualifies(#[trigger] devices@[j]),
            best matches Some(c) ==> {
                &&& best_among(devices@, c.device_index as int, k as int)
                &&& best_rank == kind_rank(devices@[c.device_index as int].kind)
                &&& c.queue_family_index == first_suitable_family(
                    devices@[c.device_index as int].queue_families@,
                ) as u32
            },
        decreases n - k,
    {
        let device = &devices[k];
        if device.khr_swapchain_supported {
            match graphics_queue_family(&device.queue_families) {
                Some(i) => {
                    proof {
                        lemma_first_suitable_unique(devices@[k as int].queue_families@, i as int);
                    }
                    let rank = device_kind_rank(device.kind);
                    if best.is_none() || rank < best_rank {
                        best = Some(DeviceChoice { device_index: k, queue_family_index: i as u32 });
                        best_rank = rank;
                    }
                },
                None => {},
            }
        }
        k = k + 1;
    }
    best
}

/// When some family is suitable, the first suitable family is the one
/// named by [`first_suitable_family`]: it has the graphics bit and can
/// present, so the queue of a selected device is usable for rendering.
pub proof fn lemma_first_suitable_family_is_suitable(families: Seq<QueueFamilyInfo>)
    requires
        has_suitable_family(families),
    ensures
        is_first_suitable(families, first_suitable_family(families)),
        family_suitable(families[first_suitable_family(families)]),
    decreases families.len(),
{
    if family_suitable(families[0]) {
        assert(is_first_suitable(families, 0));
    } else {
        let rest = families.drop_first();
        let i = choose|i: int| 0 <= i < families.len() && family_suitable(#[trigger] families[i]);
        assert(family_suitable(rest[i - 1]));
        lemma_first_suitable_family_is_suitable(rest);
        let k = first_suitable_family(rest);
        assert forall|j: int| 0 <= j < k + 1 implies !family_suitable(#[trigger] families[j]) by {
            if j > 0 {
                assert(families[j] == rest[j - 1]);
            }
        }
        assert(is_first_suitable(families, k + 1));
    }
}

/// Whenever a discrete GPU qualifies, the best choice is a discrete GPU.
pub proof fn lemma_discrete_preferred(devices: Seq<PhysicalDeviceInfo>, d: int, j: int)
    requires
        best_among(devices, d, devices.len() as int),
        0 <= j < devices.len(),
        device_qualifies(devices[j]),
        devices[j].kind == DeviceKind::DiscreteGpu,
    ensures
        devices[d].kind == DeviceKind::DiscreteGpu,
{
    assert(kind_rank(devices[d].kind) <= kind_rank(devices[j].kind));
}

/// At most one device is the best choice: the selection is determined by
/// the list.
pub proof fn lemma_best_unique(devices: Seq<PhysicalDeviceInfo>, d1: int, d2: int, upto: int)
    requires
        best_among(devices, d1, upto),
        best_among(devices, d2, upto),
    ensures
        d1 == d2,
{
    if d1 < d2 {
        assert(kind_rank(devices[d2].kind) < kind_rank(devices[d1].kind));
    } else if d2 < d1 {
        assert(kind_rank(devices[d1].kind) < kind_rank(devices[d2].kind));
    }
}

/// Inserting a device that does not qualify, or has a worse kind, or has
/// the same kind but comes after the chosen one, keeps the same device the
/// best choice (its index moves up by one when the new device comes
/// before it).
pub proof fn lemma_insert_keeps_choice(
    devices: Seq<PhysicalDeviceInfo>,
    d: int,
    pos: int,
    extra: PhysicalDeviceInfo,
)
    requires
        best_among(devices, d, devices.len() as int),
        0 <= pos <= devices.len(),
        !device_qualifies(extra) || kind_rank(extra.kind) > kind_rank(devices[d].kind) || (pos
            > d && kind_rank(extra.kind) == kind_rank(devices[d].kind)),
    ensures
        ({
            let moved = if pos <= d {
                d + 1
            } else {
                d
            };
            &&& devices.insert(pos, extra)[moved] == devices[d]
            &&& best_among(devices.insert(pos, extra), moved, devices.len() + 1 as int)
        }),
{
    let more = devices.insert(pos, extra);
    let moved = if pos <= d {
        d + 1
    } else {
        d
    };
    assert(more[moved] == devices[d]);
    assert forall|j: int|
        0 <= j < devices.len() + 1 && device_qualifies(#[trigger] more[j]) implies kind_rank(
        more[moved].kind,
    ) <= kind_rank(more[j].kind) by {
        if j < pos {
            assert(more[j] == devices[j]);
        } else if j > pos {
            assert(more[j] == devices[j - 1]);
        }
    }
    assert forall|j: int|
        0 <= j < moved && device_qualifies(#[trigger] more[j]) implies kind_rank(
        more[moved].kind,
    ) < kind_rank(more[j].kind) by {
        if j < pos {
            assert(more[j] == devices[j]);
        } else if j > pos {
            assert(more[j] == devices[j - 1]);
        }
    }
}

/// `more` holds `devices` in their order, with other devices inserted
/// anywhere: `devices[i]` stands at `more[place[i]]`, and `place` grows.
pub open spec fn embeds(
    devices: Seq<PhysicalDeviceInfo>,
    more: Seq<PhysicalDeviceInfo>,
    place: Seq<int>,
) -> bool {
    &&& place.len() == devices.len()
    &&& forall|i: int|
        0 <= i < devices.len() ==> 0 <= #[trigger] place[i] < more.len() && more[place[i]]
            == devices[i]
    &&& forall|i: int, j: int| 0 <= i < j < devices.len() ==> place[i] < place[j]
}

/// Position `j` of `more` holds one of the original devices.
pub open spec fn is_placed(place: Seq<int>, j: int) -> bool {
    exists|i: int| 0 <= i < place.len() && #[trigger] place[i] == j
}

/// Inserting any number of devices, anywhere, each of which does not
/// qualify, or has a worse kind than the chosen device, or has the same
/// kind and stands after it, keeps the same device the best choice.
pub proof fn lemma_inserts_keep_choice(
    devices: Seq<PhysicalDeviceInfo>,
    more: Seq<PhysicalDeviceInfo>,
    place: Seq<int>,
    d: int,
)
    requires
        best_among(devices, d, devices.len() as int),
        embeds(devices, more, place),
        forall|j: int|
            0 <= j < more.len() && !is_placed(place, j) ==> !device_qualifies(#[trigger] more[j])
                || kind_rank(more[j].kind) > kind_rank(devices[d].kind) || (j > place[d]
                && kind_rank(more[j].kind) == kind_rank(devices[d].kind)),
    ensures
        more[place[d]] == devices[d],
        best_among(more, place[d], more.len() as int),
{
    let pd = place[d];
    assert(more[pd] == devices[d]);
    assert forall|j: int|
        0 <= j < more.len() && device_qualifies(#[trigger] more[j]) implies kind_rank(
        more[pd].kind,
    ) <= kind_rank(more[j].kind) && (j < pd ==> kind_rank(more[pd].kind) < kind_rank(
        more[j].kind,
    )) by {
        if is_placed(place, j) {
            let i = choose|i: int| 0 <= i < place.len() && #[trigger] place[i] == j;
            assert(more[place[i]] == devices[i]);
            assert(device_qualifies(devices[i]));
            if j < pd {
                if i >= d {
                    if i > d {
                        assert(place[d] < place[i]);
                    }
                }
                assert(i < d);
            }
        }
    }
}

/// A queue family is fit for rendering exactly when its flags hold the
/// graphics bit and it can present; no other flag bit matters.
pub proof fn lemma_suitable_is_graphics_and_present(family: QueueFamilyInfo, other: QueueFamilyInfo)
    ensures
        family_suitable(family) <==> ((family.queue_flags & 1u32) != 0
            && family.presentation_support),
        (family.queue_flags & 1u32) == (other.queue_flags & 1u32)
            && family.presentation_support == other.presentation_support ==> family_suitable(
            family,
        ) == family_suitable(other),
{
}

/// The first family with the graphics bit that can present is the one the
/// selection takes, whatever other flags it or the families before it
/// carry.
pub proof fn lemma_first_graphics_present_family(families: Seq<QueueFamilyInfo>, i: int)
    requires
        0 <= i < families.len(),
        (families[i].queue_flags & 1u32) != 0,
        families[i].presentation_support,
        forall|j: int|
            0 <= j < i ==> (#[trigger] families[j].queue_flags & 1u32) == 0
                || !families[j].presentation_support,
    ensures
        is_first_suitable(families, i),
        has_suitable_family(families),
        first_suitable_family(families) == i,
{
    lemma_first_suitable_unique(families, i);
}

/// Whether a device qualifies depends only on the swapchain extension and
/// its queue families, never on its kind; a device with the extension and
/// a family that has the graphics bit and can present qualifies.
pub proof fn lemma_qualifies_whatever_kind(
    device: PhysicalDeviceInfo,
    other: PhysicalDeviceInfo,
    i: int,
)
    ensures
        device.khr_swapchain_supported == other.khr_swapchain_supported
            && device.queue_families@ == other.queue_families@ ==> device_qualifies(device)
            == device_qualifies(other),
        device.khr_swapchain_supported && 0 <= i < device.queue_families@.len() && (
        device.queue_families@[i].queue_flags & 1u32) != 0
            && device.queue_families@[i].presentation_support ==> device_qualifies(device),
{
    if device.khr_swapchain_supported && 0 <= i < device.queue_families@.len() && (
    device.queue_families@[i].queue_flags & 1u32) != 0
        && device.queue_families@[i].presentation_support {
        assert(family_suitable(device.queue_families@[i]));
    }
}

/// A list whose only device has the extension and a graphics family that
/// presents yields that device, of any kind.
pub proof fn lemma_single_device_selected(devices: Seq<PhysicalDeviceInfo>, i: int)
    requires
        devices.len() == 1,
        devices[0].khr_swapchain_supported,
        0 <= i < devices[0].queue_families@.len(),
        (devices[0].queue_families@[i].queue_flags & 1u32) != 0,
        devices[0].queue_families@[i].presentation_support,
    ensures
        device_qualifies(devices[0]),
        best_among(devices, 0, 1),
        !(forall|j: int| 0 <= j < devices.len() ==> !device_qualifies(#[trigger] devices[j])),
{
    lemma_qualifies_whatever_kind(devices[0], devices[0], i);
}

} // verus!
