use vstd::prelude::*;
use vulkano::device::DeviceExtensions;
use crate::render::vulkano_objects::physical_device::{PhysicalDeviceInfo, QueueFamilyInfo};
use crate::vulkano_graphics::physical_device;
use crate::vulkano_graphics::physical_device::{gettable, is_chosen};
use crate::vulkano_graphics::queue_families::QueueFamilies;

verus! {

/// A family that draws.
pub open spec fn for_graphics(family: QueueFamilyInfo) -> bool {
    family.supports_graphics
}

/// A family that computes and does not draw.
pub open spec fn for_compute(family: QueueFamilyInfo) -> bool {
    !family.supports_graphics && family.supports_compute
}

/// A family that says of itself that it does transfers.
pub open spec fn for_transfers(family: QueueFamilyInfo) -> bool {
    family.explicitly_supports_transfers
}

/// A family that does nothing but transfers.
pub open spec fn dedicated(family: QueueFamilyInfo) -> bool {
    !family.supports_graphics && !family.supports_compute
}

/// Whether `family` is the better choice for drawing or computing than
/// `other`: it has more queues.
pub open spec fn has_more_queues(family: QueueFamilyInfo, other: QueueFamilyInfo) -> bool {
    other.queues_count < family.queues_count
}

/// Whether `family` is the better choice for transfers than `other`: a
/// family that does nothing else is better than one that does, and of two of
/// a kind the one with more queues.
pub open spec fn transfers_better(family: QueueFamilyInfo, other: QueueFamilyInfo) -> bool {
    if dedicated(family) == dedicated(other) {
        other.queues_count < family.queues_count
    } else {
        dedicated(family)
    }
}

/// Whether the family at `place` is the one taken for drawing: it draws, no
/// family that draws has more queues, and of those with as many it comes
/// first.
pub open spec fn is_graphics_choice(families: Seq<QueueFamilyInfo>, place: int) -> bool {
    &&& 0 <= place < families.len()
    &&& for_graphics(families[place])
    &&& forall|other: int|
        0 <= other < families.len() && for_graphics(#[trigger] families[other]) ==> {
            &&& !has_more_queues(families[other], families[place])
            &&& other < place ==> has_more_queues(families[place], families[other])
        }
}

/// Whether the family at `place` is the one taken for computing: it computes
/// without drawing, no such family has more queues, and of those with as many
/// it comes first.
pub open spec fn is_compute_choice(families: Seq<QueueFamilyInfo>, place: int) -> bool {
    &&& 0 <= place < families.len()
    &&& for_compute(families[place])
    &&& forall|other: int|
        0 <= other < families.len() && for_compute(#[trigger] families[other]) ==> {
            &&& !has_more_queues(families[other], families[place])
            &&& other < place ==> has_more_queues(families[place], families[other])
        }
}

/// Whether the family at `place` is the one taken for transfers: it does
/// transfers, no family that does is a better choice, and of those as good
/// it comes first.
pub open spec fn is_transfers_choice(families: Seq<QueueFamilyInfo>, place: int) -> bool {
    &&& 0 <= place < families.len()
    &&& for_transfers(families[place])
    &&& forall|other: int|
        0 <= other < families.len() && for_transfers(#[trigger] families[other]) ==> {
            &&& !transfers_better(families[other], families[place])
            &&& other < place ==> transfers_better(families[place], families[other])
        }
}

/// Whether `families` has a family of each of the three kinds.
pub open spec fn has_all_kinds(families: Seq<QueueFamilyInfo>) -> bool {
    &&& exists|place: int| 0 <= place < families.len() && for_graphics(#[trigger] families[place])
    &&& exists|place: int| 0 <= place < families.len() && for_compute(#[trigger] families[place])
    &&& exists|place: int| 0 <= place < families.len() && for_transfers(#[trigger] families[place])
}

/// The physical device to use: see [`physical_device::get`].
pub fn get_physical_device(
    devices: &Vec<PhysicalDeviceInfo>,
    device_extensions: &DeviceExtensions,
) -> (chosen: usize)
    requires
        gettable(devices@, *device_extensions),
    ensures
        is_chosen(devices@, *device_extensions, chosen as int),
{
    physical_device::get(devices, device_extensions)
}

/// The choice of [`get_queue_families`], where there is one.
fn choose_by_queues(families: &Vec<QueueFamilyInfo>) -> (chosen: Option<QueueFamilies>)
    ensures
        chosen is Some <==> has_all_kinds(families@),
        chosen matches Some(chosen) ==> {
            &&& is_graphics_choice(families@, chosen.graphical as int)
            &&& is_compute_choice(families@, chosen.compute as int)
            &&& is_transfers_choice(families@, chosen.transfers as int)
        },
{
    let mut g_candidate: Option<usize> = None;
    let mut c_candidate: Option<usize> = None;
    let mut t_candidate: Option<usize> = None;
    let mut place: usize = 0;
    while place < families.len()
        invariant
            place <= families.len(),
            match g_candidate {
                Some(best) => is_graphics_choice(families@.subrange(0, place as int), best as int),
                None => forall|before: int|
                    0 <= before < place ==> !for_graphics(#[trigger] families@[before]),
            },
            match c_candidate {
                Some(best) => is_compute_choice(families@.subrange(0, place as int), best as int),
                None => forall|before: int|
                    0 <= before < place ==> !for_compute(#[trigger] families@[before]),
            },
            match t_candidate {
                Some(best) => is_transfers_choice(families@.subrange(0, place as int), best as int),
                None => forall|before: int|
                    0 <= before < place ==> !for_transfers(#[trigger] families@[before]),
            },
        decreases families.len() - place,
    {
        let queue_family = families[place];
        let queues_count: usize = queue_family.queues_count;
        let supports_graphics = queue_family.supports_graphics;
        let supports_compute = queue_family.supports_compute;
        let supports_transfers = queue_family.explicitly_supports_transfers;
        let ghost before = families@.subrange(0, place as int);
        let ghost now = families@.subrange(0, place as int + 1);
        assert(forall|other: int| 0 <= other < place ==> before[other] == now[other]);
        assert(now[place as int] == families@[place as int]);

        if supports_graphics {
            match g_candidate {
                Some(held) => {
                    if families[held].queues_count < queues_count {
                        g_candidate = Some(place);
                    }
                },
                None => {
                    g_candidate = Some(place);
                },
            }
        } else if supports_compute {
            match c_candidate {
                Some(held) => {
                    if families[held].queues_count < queues_count {
                        c_candidate = Some(place);
                    }
                },
                None => {
                    c_candidate = Some(place);
                },
            }
        }
        if supports_transfers {
            match t_candidate {
                Some(held) => {
                    let old_only_transfers = !families[held].supports_graphics
                        && !families[held].supports_compute;
                    let cur_only_transfers = !supports_graphics && !supports_compute;
                    let old_less_queues = families[held].queues_count < queues_count;
                    if old_only_transfers {
                        if cur_only_transfers && old_less_queues {
                            t_candidate = Some(place);
                        }
                    } else {
                        if cur_only_transfers || old_less_queues {
                            t_candidate = Some(place);
                        }
                    }
                },
                None => {
                    t_candidate = Some(place);
                },
            }
        }
        proof {
            if g_candidate is Some {
                let best = g_candidate->0 as int;
                assert forall|other: int|
                    0 <= other < now.len() && for_graphics(#[trigger] now[other]) implies {
                    &&& !has_more_queues(now[other], now[best])
                    &&& other < best ==> has_more_queues(now[best], now[other])
                } by {
                    if other < place {
                        assert(for_graphics(before[other]));
                    }
                }
            }
            if c_candidate is Some {
                let best = c_candidate->0 as int;
                assert forall|other: int|
                    0 <= other < now.len() && for_compute(#[trigger] now[other]) implies {
                    &&& !has_more_queues(now[other], now[best])
                    &&& other < best ==> has_more_queues(now[best], now[other])
                } by {
                    if other < place {
                        assert(for_compute(before[other]));
                    }
                }
            }
            if t_candidate is Some {
                let best = t_candidate->0 as int;
                assert forall|other: int|
                    0 <= other < now.len() && for_transfers(#[trigger] now[other]) implies {
                    &&& !transfers_better(now[other], now[best])
                    &&& other < best ==> transfers_better(now[best], now[other])
                } by {
                    if other < place {
                        assert(for_transfers(before[other]));
                    }
                }
            }
        }
        place = place + 1;
    }
    assert(families@.subrange(0, families@.len() as int) =~= families@);
    match (g_candidate, c_candidate, t_candidate) {
        (Some(graphical), Some(compute), Some(transfers)) => {
            assert(for_graphics(families@[graphical as int]));
            assert(for_compute(families@[compute as int]));
            assert(for_transfers(families@[transfers as int]));
            Some(QueueFamilies { graphical, compute, transfers })
        },
        _ => None,
    }
}

/// Whether a device with the given families has a family of each of the
/// three kinds, which is what [`get_queue_families`] needs.
pub fn covers_all_kinds(families: &Vec<QueueFamilyInfo>) -> (covers: bool)
    ensures
        covers == has_all_kinds(families@),
{
    choose_by_queues(families).is_some()
}

/// Chooses a family for each of the three queues by what the families are
/// there for and by how many queues they have.
///
/// For drawing it takes the family with the most queues of those that draw,
/// for computing the one with the most queues of those that compute without
/// drawing, and for transfers, of the families that do transfers, one that
/// does nothing else before one that does, and of those the one with the most
/// queues. Among equals the first wins.
///
/// The device has to have a family of each of the three kinds:
/// [`covers_all_kinds`] tells.
pub fn get_queue_families(families: &Vec<QueueFamilyInfo>) -> (chosen: QueueFamilies)
    requires
        has_all_kinds(families@),
    ensures
        is_graphics_choice(families@, chosen.graphical as int),
        is_compute_choice(families@, chosen.compute as int),
        is_transfers_choice(families@, chosen.transfers as int),
{
    match choose_by_queues(families) {
        Some(chosen) => chosen,
        None => vstd::pervasive::unreached(),
    }
}

} // verus!
