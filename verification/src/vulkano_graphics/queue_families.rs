use vstd::prelude::*;
use crate::render::vulkano_objects::physical_device::{
    last_where, lemma_last_where, QueueFamilyInfo,
};

verus! {

/// The queue families that the three queues are taken from, each by its place
/// among the families of the device.
#[derive(Clone, Copy, Debug, PartialEq, Eq, Structural)]
pub struct QueueFamilies {
    pub graphical: usize,
    pub compute: usize,
    pub transfers: usize,
}

/// A family that draws.
pub open spec fn draws(family: QueueFamilyInfo) -> bool {
    family.supports_graphics
}

/// A family that computes and does not draw.
pub open spec fn computes(family: QueueFamilyInfo) -> bool {
    !family.supports_graphics && family.supports_compute
}

/// A family that is there for transfers: it neither draws nor computes.
pub open spec fn transfers(family: QueueFamilyInfo) -> bool {
    !family.supports_graphics && !family.supports_compute && family.explicitly_supports_transfers
}

/// The families taken of a device with the given families: the last that
/// draws, the last that computes and does not draw, and the last that only
/// transfers, or in its place the one that draws. A device that lacks a
/// family that draws, or one that computes without drawing, has none.
pub open spec fn families_of(families: Seq<QueueFamilyInfo>) -> Option<QueueFamilies> {
    match (
        last_where(families, |family: QueueFamilyInfo| draws(family)),
        last_where(families, |family: QueueFamilyInfo| computes(family)),
    ) {
        (Some(graphical), Some(compute)) => Some(
            QueueFamilies {
                graphical,
                compute,
                transfers: match last_where(families, |family: QueueFamilyInfo| transfers(family)) {
                    Some(transfers) => transfers,
                    None => graphical,
                },
            },
        ),
        _ => None,
    }
}

/// The families of a device, where it has what is needed.
fn pick(families: &Vec<QueueFamilyInfo>) -> (chosen: Option<QueueFamilies>)
    ensures
        chosen == families_of(families@),
{
    let mut g_candidate: Option<usize> = None;
    let mut c_candidate: Option<usize> = None;
    let mut t_candidate: Option<usize> = None;
    let mut place: usize = 0;
    assert(families@.subrange(0, 0) =~= Seq::<QueueFamilyInfo>::empty());
    while place < families.len()
        invariant
            place <= families.len(),
            g_candidate == last_where(
                families@.subrange(0, place as int),
                |family: QueueFamilyInfo| draws(family),
            ),
            c_candidate == last_where(
                families@.subrange(0, place as int),
                |family: QueueFamilyInfo| computes(family),
            ),
            t_candidate == last_where(
                families@.subrange(0, place as int),
                |family: QueueFamilyInfo| transfers(family),
            ),
        decreases families.len() - place,
    {
        let queue_family = families[place];
        assert(families@.subrange(0, place as int + 1).drop_last() =~= families@.subrange(
            0,
            place as int,
        ));
        if queue_family.supports_graphics {
            g_candidate = Some(place);
        } else if queue_family.supports_compute {
            c_candidate = Some(place);
        } else if queue_family.explicitly_supports_transfers {
            t_candidate = Some(place);
        }
        place = place + 1;
    }
    assert(families@.subrange(0, families@.len() as int) =~= families@);
    match (g_candidate, c_candidate) {
        (Some(graphical), Some(compute)) => Some(
            QueueFamilies {
                graphical,
                compute,
                transfers: match t_candidate {
                    Some(transfers) => transfers,
                    None => graphical,
                },
            },
        ),
        _ => None,
    }
}

impl QueueFamilies {
    /// Whether a device with the given families has what [`init`] needs: a
    /// family that draws, and one that computes without drawing.
    ///
    /// [`init`]: QueueFamilies::init
    pub fn can_init(families: &Vec<QueueFamilyInfo>) -> (can: bool)
        ensures
            can == (families_of(families@) is Some),
            can <==> {
                &&& exists|place: int|
                    0 <= place < families@.len() && draws(#[trigger] families@[place])
                &&& exists|place: int|
                    0 <= place < families@.len() && computes(#[trigger] families@[place])
            },
    {
        let count: usize = families.len();
        proof {
            assert(families@.len() == count);
            lemma_last_where(families@, |family: QueueFamilyInfo| draws(family));
            lemma_last_where(families@, |family: QueueFamilyInfo| computes(family));
        }
        pick(families).is_some()
    }

    /// Chooses the families of a device with the given families: the last
    /// that draws, the last that computes and does not draw, and the last
    /// that only transfers, or in its place the one that draws.
    ///
    /// The device has to have a family that draws and one that computes
    /// without drawing: [`can_init`] tells.
    ///
    /// [`can_init`]: QueueFamilies::can_init
    pub fn init(families: &Vec<QueueFamilyInfo>) -> (chosen: QueueFamilies)
        requires
            families_of(families@) is Some,
        ensures
            Some(chosen) == families_of(families@),
    {
        match pick(families) {
            Some(chosen) => chosen,
            None => vstd::pervasive::unreached(),
        }
    }
}

} // verus!
