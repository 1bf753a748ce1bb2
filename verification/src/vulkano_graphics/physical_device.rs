use vstd::prelude::*;
use vulkano::device::DeviceExtensions;
use crate::render::vulkano_objects::physical_device::{
    answer, answers, extensions_superset, rank_of, supports_extensions, type_rank,
    PhysicalDeviceInfo, QueueFamilyInfo,
};

verus! {

/// Whether one of `families` can draw and present.
pub open spec fn can_draw(families: Seq<QueueFamilyInfo>) -> bool {
    exists|place: int|
        0 <= place < families.len() && (#[trigger] families[place]).supports_graphics
            && families[place].supports_surface
}

/// Whether one of `families` computes and does not draw.
pub open spec fn can_compute_apart(families: Seq<QueueFamilyInfo>) -> bool {
    exists|place: int|
        0 <= place < families.len() && (#[trigger] families[place]).supports_compute
            && !families[place].supports_graphics
}

/// Whether a device can be used, given whether it supports the extensions
/// asked for: it supports them, one of its families can draw and present, and
/// one computes without drawing.
pub open spec fn usable_if(device: PhysicalDeviceInfo, supported: bool) -> bool {
    &&& supported
    &&& can_draw(device.queue_families@)
    &&& can_compute_apart(device.queue_families@)
}

/// Whether `device` can be used: it supports every extension of
/// `device_extensions`, one of its families can draw and present, and one
/// computes without drawing.
pub open spec fn usable(device: PhysicalDeviceInfo, device_extensions: DeviceExtensions) -> bool {
    usable_if(device, extensions_superset(device.supported_extensions, device_extensions))
}

/// Whether the device at `place` is the one to take, given which devices
/// support the extensions asked for: it is usable, no usable device is of a
/// more preferred kind, and of those of its own kind it comes first.
pub open spec fn is_chosen_if(
    devices: Seq<PhysicalDeviceInfo>,
    supported: Seq<bool>,
    place: int,
) -> bool {
    &&& 0 <= place < devices.len()
    &&& usable_if(devices[place], answer(supported, place))
    &&& forall|other: int|
        0 <= other < devices.len() && usable_if(
            #[trigger] devices[other],
            answer(supported, other),
        ) ==> {
            &&& type_rank(devices[place].device_type) <= type_rank(devices[other].device_type)
            &&& other < place ==> type_rank(devices[place].device_type) < type_rank(
                devices[other].device_type,
            )
        }
}

/// Whether the device at `place` is the one to take where `device_extensions`
/// are asked for.
pub open spec fn is_chosen(
    devices: Seq<PhysicalDeviceInfo>,
    device_extensions: DeviceExtensions,
    place: int,
) -> bool {
    is_chosen_if(devices, answers(devices, device_extensions), place)
}

/// Whether one of `devices` can be used where `device_extensions` are asked
/// for.
pub open spec fn gettable(
    devices: Seq<PhysicalDeviceInfo>,
    device_extensions: DeviceExtensions,
) -> bool {
    exists|place: int|
        0 <= place < devices.len() && usable(#[trigger] devices[place], device_extensions)
}

/// Whether one of `families` can draw and present.
fn any_draws(families: &Vec<QueueFamilyInfo>) -> (found: bool)
    ensures
        found == can_draw(families@),
{
    let mut place: usize = 0;
    while place < families.len()
        invariant
            place <= families.len(),
            forall|before: int|
                0 <= before < place ==> !((#[trigger] families@[before]).supports_graphics
                    && families@[before].supports_surface),
        decreases families.len() - place,
    {
        if families[place].supports_graphics && families[place].supports_surface {
            return true;
        }
        place = place + 1;
    }
    false
}

/// Whether one of `families` computes and does not draw.
fn any_computes_apart(families: &Vec<QueueFamilyInfo>) -> (found: bool)
    ensures
        found == can_compute_apart(families@),
{
    let mut place: usize = 0;
    while place < families.len()
        invariant
            place <= families.len(),
            forall|before: int|
                0 <= before < place ==> !((#[trigger] families@[before]).supports_compute
                    && !families@[before].supports_graphics),
        decreases families.len() - place,
    {
        if families[place].supports_compute && !families[place].supports_graphics {
            return true;
        }
        place = place + 1;
    }
    false
}

/// The physical device to use, given which of the devices support the
/// extensions asked for: of those that support them, can draw to the surface
/// and have a family that computes without drawing, the first of the most
/// preferred kind. Where no device can be used there is none.
pub fn get_supported(devices: &Vec<PhysicalDeviceInfo>, supported: &Vec<bool>) -> (chosen: Option<
    usize,
>)
    ensures
        match chosen {
            Some(place) => is_chosen_if(devices@, supported@, place as int),
            None => forall|place: int|
                0 <= place < devices@.len() ==> !usable_if(
                    #[trigger] devices@[place],
                    answer(supported@, place),
                ),
        },
{
    let mut chosen: Option<usize> = None;
    let mut place: usize = 0;
    while place < devices.len()
        invariant
            place <= devices.len(),
            match chosen {
                Some(best) => is_chosen_if(
                    devices@.subrange(0, place as int),
                    supported@,
                    best as int,
                ),
                None => forall|before: int|
                    0 <= before < place ==> !usable_if(
                        #[trigger] devices@[before],
                        answer(supported@, before),
                    ),
            },
        decreases devices.len() - place,
    {
        let device = &devices[place];
        let fits = place < supported.len() && supported[place] && any_draws(
            &device.queue_families,
        ) && any_computes_apart(&device.queue_families);
        let ghost before = devices@.subrange(0, place as int);
        let ghost now = devices@.subrange(0, place as int + 1);
        assert(forall|other: int| 0 <= other < place ==> before[other] == now[other]);
        assert(now[place as int] == devices@[place as int]);
        let better = fits && match chosen {
            Some(best) => rank_of(device.device_type) < rank_of(devices[best].device_type),
            None => true,
        };
        if better {
            chosen = Some(place);
        }
        proof {
            if chosen is Some {
                let best = chosen->0 as int;
                assert forall|other: int|
                    0 <= other < now.len() && usable_if(
                        #[trigger] now[other],
                        answer(supported@, other),
                    ) implies {
                    &&& type_rank(now[best].device_type) <= type_rank(now[other].device_type)
                    &&& other < best ==> type_rank(now[best].device_type) < type_rank(
                        now[other].device_type,
                    )
                } by {
                    if other < place {
                        assert(usable_if(before[other], answer(supported@, other)));
                    }
                }
            }
        }
        place = place + 1;
    }
    assert(devices@.subrange(0, devices@.len() as int) =~= devices@);
    chosen
}

/// Whether one of `devices` can be used where `device_extensions` are asked
/// for.
pub fn has_usable_device(
    devices: &Vec<PhysicalDeviceInfo>,
    device_extensions: &DeviceExtensions,
) -> (found: bool)
    ensures
        found == gettable(devices@, *device_extensions),
{
    let supported = supports_extensions(devices, device_extensions);
    get_supported(devices, &supported).is_some()
}

/// The physical device to use: of those that support `device_extensions`,
/// can draw to the surface and have a family that computes without drawing,
/// the first of the most preferred kind.
///
/// There has to be a device that can be used: [`has_usable_device`] tells.
pub fn get(devices: &Vec<PhysicalDeviceInfo>, device_extensions: &DeviceExtensions) -> (chosen:
    usize)
    requires
        gettable(devices@, *device_extensions),
    ensures
        is_chosen(devices@, *device_extensions, chosen as int),
{
    let supported = supports_extensions(devices, device_extensions);
    match get_supported(devices, &supported) {
        Some(chosen) => chosen,
        None => vstd::pervasive::unreached(),
    }
}

/// Chooses as [`get`] does where a device can be used, and says so where
/// none can.
pub fn try_get(devices: &Vec<PhysicalDeviceInfo>, device_extensions: &DeviceExtensions) -> (chosen:
    Option<usize>)
    ensures
        chosen is Some <==> gettable(devices@, *device_extensions),
        chosen matches Some(place) ==> is_chosen(devices@, *device_extensions, place as int),
{
    if has_usable_device(devices, device_extensions) {
        Some(get(devices, device_extensions))
    } else {
        None
    }
}

} // verus!
