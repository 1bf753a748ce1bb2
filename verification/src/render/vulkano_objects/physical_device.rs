use vstd::prelude::*;
use vulkano::device::DeviceExtensions;

verus! {

/// A set of device extensions, as vulkano keeps it: one flag per extension.
#[verifier::external_type_specification]
#[verifier::external_body]
pub struct ExDeviceExtensions(vulkano::device::DeviceExtensions);

/// Whether every extension of `required` is also one of `supported`, as
/// vulkano's `DeviceExtensions::is_superset_of` tells it.
pub uninterp spec fn extensions_superset(
    supported: DeviceExtensions,
    required: DeviceExtensions,
) -> bool;

/// Calls `DeviceExtensions::is_superset_of` of vulkano on `supported`, with
/// `required` as its argument. The result is taken to depend on the two sets
/// alone, and nothing more is claimed of it: the method compares them flag by
/// flag and reads nothing else.
#[verifier::external_body]
pub(crate) fn is_superset_of(supported: &DeviceExtensions, required: &DeviceExtensions) -> (superset: bool)
    ensures
        superset == extensions_superset(*supported, *required),
{
    supported.is_superset_of(required)
}

/// What kind of device a physical device is.
#[derive(Clone, Copy, Debug, PartialEq, Eq, Structural)]
pub enum PhysicalDeviceType {
    IntegratedGpu,
    DiscreteGpu,
    VirtualGpu,
    Cpu,
    Other,
}

/// What the renderer has to know of one queue family of a device.
#[derive(Clone, Copy, Debug, PartialEq, Eq, Structural)]
pub struct QueueFamilyInfo {
    pub queues_count: usize,
    pub supports_graphics: bool,
    /// Whether the family can present to the surface that is drawn to.
    pub supports_surface: bool,
    pub supports_compute: bool,
    pub explicitly_supports_transfers: bool,
}

/// What the renderer has to know of one physical device. Its queue families
/// stand in the order of their ids.
pub struct PhysicalDeviceInfo {
    pub supported_extensions: DeviceExtensions,
    pub device_type: PhysicalDeviceType,
    pub queue_families: Vec<QueueFamilyInfo>,
}

/// The queue families that the renderer takes its three queues from, each by
/// its place among the families of the device.
#[derive(Clone, Copy, Debug, PartialEq, Eq, Structural)]
pub struct QueueFamilies {
    pub graphics: usize,
    pub compute: usize,
    pub transfers: usize,
}

/// A family that can draw and present.
pub open spec fn draws_to_surface(family: QueueFamilyInfo) -> bool {
    family.supports_graphics && family.supports_surface
}

/// A family that computes and is not taken for drawing.
pub open spec fn computes_only(family: QueueFamilyInfo) -> bool {
    !draws_to_surface(family) && family.supports_compute
}

/// A family that is there for transfers: it neither is taken for drawing nor
/// computes.
pub open spec fn transfers_only(family: QueueFamilyInfo) -> bool {
    !draws_to_surface(family) && !family.supports_compute
        && family.explicitly_supports_transfers
}

/// The place of the last of `items` that `wanted` holds of, if there is one.
pub open spec fn last_where<T>(items: Seq<T>, wanted: spec_fn(T) -> bool) -> Option<usize>
    decreases items.len(),
{
    if items.len() == 0 {
        None
    } else if wanted(items.last()) {
        Some((items.len() - 1) as usize)
    } else {
        last_where(items.drop_last(), wanted)
    }
}

/// What `last_where` finds is the last item of its kind, and where it finds
/// nothing there is none.
pub proof fn lemma_last_where<T>(items: Seq<T>, wanted: spec_fn(T) -> bool)
    requires
        items.len() <= usize::MAX,
    ensures
        match last_where(items, wanted) {
            Some(place) => {
                &&& place < items.len()
                &&& wanted(items[place as int])
                &&& forall|later: int| place < later < items.len() ==> !wanted(items[later])
            },
            None => forall|place: int| 0 <= place < items.len() ==> !wanted(items[place]),
        },
    decreases items.len(),
{
    if items.len() > 0 && !wanted(items.last()) {
        lemma_last_where(items.drop_last(), wanted);
        assert forall|place: int| 0 <= place < items.len() - 1 implies items.drop_last()[place]
            == items[place] by {}
    }
}

/// The families that the renderer takes of a device with the given families:
/// for drawing the last family that can draw and present; for computing the
/// last that computes only, and for transfers the last that transfers only,
/// each falling back on the family for drawing. A device without a family for
/// drawing has none.
pub open spec fn families_of(families: Seq<QueueFamilyInfo>) -> Option<QueueFamilies> {
    match last_where(families, |family: QueueFamilyInfo| draws_to_surface(family)) {
        Some(graphics) => Some(
            QueueFamilies {
                graphics,
                compute: match last_where(families, |family: QueueFamilyInfo| computes_only(family)) {
                    Some(compute) => compute,
                    None => graphics,
                },
                transfers: match last_where(
                    families,
                    |family: QueueFamilyInfo| transfers_only(family),
                ) {
                    Some(transfers) => transfers,
                    None => graphics,
                },
            },
        ),
        None => None,
    }
}

/// How much a kind of device is preferred: the less, the more.
pub open spec fn type_rank(device_type: PhysicalDeviceType) -> int {
    match device_type {
        PhysicalDeviceType::DiscreteGpu => 0,
        PhysicalDeviceType::IntegratedGpu => 1,
        PhysicalDeviceType::VirtualGpu => 2,
        PhysicalDeviceType::Cpu => 3,
        PhysicalDeviceType::Other => 4,
    }
}

/// The families taken of a device, if it can be used at all, given whether
/// it supports the extensions asked for: it has to support them and to have
/// a family for drawing.
pub open spec fn usable_if(device: PhysicalDeviceInfo, supported: bool) -> Option<QueueFamilies> {
    if supported {
        families_of(device.queue_families@)
    } else {
        None
    }
}

/// The families taken of `device`, if it can be used at all: it has to
/// support every extension of `device_extensions` and to have a family for
/// drawing.
pub open spec fn usable(device: PhysicalDeviceInfo, device_extensions: DeviceExtensions) -> Option<
    QueueFamilies,
> {
    usable_if(device, extensions_superset(device.supported_extensions, device_extensions))
}

/// Whether the device at `place` supports the extensions asked for, by a list
/// of answers that has one answer per device. A device without an answer
/// counts as one that does not.
pub open spec fn answer(supported: Seq<bool>, place: int) -> bool {
    0 <= place < supported.len() && supported[place]
}

/// The answers for `devices` where `device_extensions` are asked for.
pub open spec fn answers(
    devices: Seq<PhysicalDeviceInfo>,
    device_extensions: DeviceExtensions,
) -> Seq<bool> {
    Seq::new(
        devices.len(),
        |place: int| extensions_superset(devices[place].supported_extensions, device_extensions),
    )
}

/// Whether the device at `place` is the one to select, given which devices
/// support the extensions asked for: it is usable, no usable device is of a
/// more preferred kind, and of those of its own kind it comes first.
pub open spec fn is_selected_if(
    devices: Seq<PhysicalDeviceInfo>,
    supported: Seq<bool>,
    place: int,
) -> bool {
    &&& 0 <= place < devices.len()
    &&& usable_if(devices[place], answer(supported, place)) is Some
    &&& forall|other: int|
        0 <= other < devices.len() && usable_if(
            #[trigger] devices[other],
            answer(supported, other),
        ) is Some ==> {
            &&& type_rank(devices[place].device_type) <= type_rank(devices[other].device_type)
            &&& other < place ==> type_rank(devices[place].device_type) < type_rank(
                devices[other].device_type,
            )
        }
}

/// Whether the device at `place` is the one to select where
/// `device_extensions` are asked for.
pub open spec fn is_selected(
    devices: Seq<PhysicalDeviceInfo>,
    device_extensions: DeviceExtensions,
    place: int,
) -> bool {
    is_selected_if(devices, answers(devices, device_extensions), place)
}

/// Whether one of `devices` can be used where `device_extensions` are asked
/// for.
pub open spec fn selectable(
    devices: Seq<PhysicalDeviceInfo>,
    device_extensions: DeviceExtensions,
) -> bool {
    exists|place: int|
        0 <= place < devices.len() && usable(#[trigger] devices[place], device_extensions) is Some
}

/// How much a kind of device is preferred: the less, the more.
pub(crate) fn rank_of(device_type: PhysicalDeviceType) -> (rank: u8)
    ensures
        rank == type_rank(device_type),
{
    match device_type {
        PhysicalDeviceType::DiscreteGpu => 0,
        PhysicalDeviceType::IntegratedGpu => 1,
        PhysicalDeviceType::VirtualGpu => 2,
        PhysicalDeviceType::Cpu => 3,
        PhysicalDeviceType::Other => 4,
    }
}

/// The families that the renderer takes of a device with the given families.
/// There are some if and only if one of the families can draw and present,
/// and each family taken is one of the device.
pub fn choose_families(families: &Vec<QueueFamilyInfo>) -> (chosen: Option<QueueFamilies>)
    ensures
        chosen == families_of(families@),
        chosen is Some <==> exists|place: int|
            0 <= place < families@.len() && draws_to_surface(#[trigger] families@[place]),
        chosen matches Some(chosen) ==> {
            &&& chosen.graphics < families@.len()
            &&& chosen.compute < families@.len()
            &&& chosen.transfers < families@.len()
            &&& draws_to_surface(families@[chosen.graphics as int])
        },
{
    let count: usize = families.len();
    proof {
        assert(families@.len() == count);
        lemma_last_where(families@, |family: QueueFamilyInfo| draws_to_surface(family));
        lemma_last_where(families@, |family: QueueFamilyInfo| computes_only(family));
        lemma_last_where(families@, |family: QueueFamilyInfo| transfers_only(family));
    }
    let mut graphics: Option<usize> = None;
    let mut compute: Option<usize> = None;
    let mut transfers: Option<usize> = None;
    let mut place: usize = 0;
    assert(families@.subrange(0, 0) =~= Seq::<QueueFamilyInfo>::empty());
    while place < count
        invariant
            place <= count == families.len(),
            graphics == last_where(
                families@.subrange(0, place as int),
                |family: QueueFamilyInfo| draws_to_surface(family),
            ),
            compute == last_where(
                families@.subrange(0, place as int),
                |family: QueueFamilyInfo| computes_only(family),
            ),
            transfers == last_where(
                families@.subrange(0, place as int),
                |family: QueueFamilyInfo| transfers_only(family),
            ),
        decreases count - place,
    {
        let family = families[place];
        assert(families@.subrange(0, place as int + 1).drop_last() =~= families@.subrange(
            0,
            place as int,
        ));
        if family.supports_graphics && family.supports_surface {
            graphics = Some(place);
        } else if family.supports_compute {
            compute = Some(place);
        } else if family.explicitly_supports_transfers {
            transfers = Some(place);
        }
        place = place + 1;
    }
    assert(families@.subrange(0, families@.len() as int) =~= families@);
    match graphics {
        Some(graphics) => Some(
            QueueFamilies {
                graphics,
                compute: match compute {
                    Some(compute) => compute,
                    None => graphics,
                },
                transfers: match transfers {
                    Some(transfers) => transfers,
                    None => graphics,
                },
            },
        ),
        None => None,
    }
}

/// Which of `devices` support every extension of `device_extensions`: one
/// answer per device, in order.
pub fn supports_extensions(
    devices: &Vec<PhysicalDeviceInfo>,
    device_extensions: &DeviceExtensions,
) -> (supported: Vec<bool>)
    ensures
        supported@ == answers(devices@, *device_extensions),
{
    let mut supported: Vec<bool> = Vec::new();
    let mut place: usize = 0;
    while place < devices.len()
        invariant
            place <= devices.len(),
            supported@.len() == place,
            forall|before: int|
                0 <= before < place ==> supported@[before] == extensions_superset(
                    devices@[before].supported_extensions,
                    *device_extensions,
                ),
        decreases devices.len() - place,
    {
        supported.push(is_superset_of(&devices[place].supported_extensions, device_extensions));
        place = place + 1;
    }
    assert(supported@ =~= answers(devices@, *device_extensions));
    supported
}

/// Selects the physical device to render with, and the queue families to take
/// of it, given which of the devices support the extensions asked for: of the
/// devices that support them and can draw to the surface, the first of the
/// most preferred kind. Where no device can be used there is none.
pub fn select_supported(devices: &Vec<PhysicalDeviceInfo>, supported: &Vec<bool>) -> (selected:
    Option<(usize, QueueFamilies)>)
    ensures
        match selected {
            Some((place, families)) => {
                &&& is_selected_if(devices@, supported@, place as int)
                &&& usable_if(devices@[place as int], answer(supported@, place as int)) == Some(
                    families,
                )
            },
            None => forall|place: int|
                0 <= place < devices@.len() ==> usable_if(
                    #[trigger] devices@[place],
                    answer(supported@, place),
                ) is None,
        },
{
    let mut selected: Option<(usize, QueueFamilies)> = None;
    let mut place: usize = 0;
    while place < devices.len()
        invariant
            place <= devices.len(),
            match selected {
                Some((best, families)) => {
                    &&& is_selected_if(devices@.subrange(0, place as int), supported@, best as int)
                    &&& usable_if(devices@[best as int], answer(supported@, best as int)) == Some(
                        families,
                    )
                },
                None => forall|before: int|
                    0 <= before < place ==> usable_if(
                        #[trigger] devices@[before],
                        answer(supported@, before),
                    ) is None,
            },
        decreases devices.len() - place,
    {
        let device = &devices[place];
        let families = if place < supported.len() && supported[place] {
            choose_families(&device.queue_families)
        } else {
            None
        };
        let ghost before = devices@.subrange(0, place as int);
        let ghost now = devices@.subrange(0, place as int + 1);
        assert(forall|other: int| 0 <= other < place ==> before[other] == now[other]);
        assert(now[place as int] == devices@[place as int]);
        let better = match (families, selected) {
            (Some(_), Some((best, _))) => rank_of(device.device_type) < rank_of(
                devices[best].device_type,
            ),
            (Some(_), None) => true,
            (None, _) => false,
        };
        if better {
            match families {
                Some(families) => {
                    selected = Some((place, families));
                },
                None => {},
            }
        }
        proof {
            if selected is Some {
                let best = (selected->0).0 as int;
                assert forall|other: int|
                    0 <= other < now.len() && usable_if(
                        #[trigger] now[other],
                        answer(supported@, other),
                    ) is Some implies {
                    &&& type_rank(now[best].device_type) <= type_rank(now[other].device_type)
                    &&& other < best ==> type_rank(now[best].device_type) < type_rank(
                        now[other].device_type,
                    )
                } by {
                    if other < place {
                        assert(usable_if(before[other], answer(supported@, other)) is Some);
                    }
                }
            }
        }
        place = place + 1;
    }
    assert(devices@.subrange(0, devices@.len() as int) =~= devices@);
    selected
}

/// Whether one of `devices` can be used where `device_extensions` are asked
/// for.
pub fn has_usable_device(
    devices: &Vec<PhysicalDeviceInfo>,
    device_extensions: &DeviceExtensions,
) -> (found: bool)
    ensures
        found == selectable(devices@, *device_extensions),
{
    let supported = supports_extensions(devices, device_extensions);
    select_supported(devices, &supported).is_some()
}

/// Selects the physical device to render with, and the queue families to take
/// of it: of the devices that support `device_extensions` and can draw to the
/// surface, the first of the most preferred kind.
///
/// There has to be a device that can be used: [`has_usable_device`] tells.
pub fn select(devices: &Vec<PhysicalDeviceInfo>, device_extensions: &DeviceExtensions) -> (selected:
    (usize, QueueFamilies))
    requires
        selectable(devices@, *device_extensions),
    ensures
        is_selected(devices@, *device_extensions, selected.0 as int),
        usable(devices@[selected.0 as int], *device_extensions) == Some(selected.1),
{
    let supported = supports_extensions(devices, device_extensions);
    match select_supported(devices, &supported) {
        Some(selected) => selected,
        None => vstd::pervasive::unreached(),
    }
}

/// Selects as [`select`] does where a device can be used, and says so where
/// none can.
pub fn try_select(devices: &Vec<PhysicalDeviceInfo>, device_extensions: &DeviceExtensions) -> (selected:
    Option<(usize, QueueFamilies)>)
    ensures
        selected is Some <==> selectable(devices@, *device_extensions),
        selected matches Some((place, families)) ==> {
            &&& is_selected(devices@, *device_extensions, place as int)
            &&& usable(devices@[place as int], *device_extensions) == Some(families)
        },
{
    if has_usable_device(devices, device_extensions) {
        Some(select(devices, device_extensions))
    } else {
        None
    }
}

impl QueueFamilies {
    /// The families to create queues of, in the order in which the device
    /// hands the queues out: graphics, compute, transfers.
    pub fn get_queue_create_info(&self) -> (families: Vec<usize>)
        ensures
            families@ == seq![self.graphics, self.compute, self.transfers],
    {
        let mut families: Vec<usize> = Vec::new();
        families.push(self.graphics);
        families.push(self.compute);
        families.push(self.transfers);
        assert(families@ =~= seq![self.graphics, self.compute, self.transfers]);
        families
    }
}

} // verus!
