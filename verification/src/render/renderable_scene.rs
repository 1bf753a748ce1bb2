use vstd::prelude::*;
use crate::scene::{Scene, SceneView};

verus! {

/// The kinds of model that the renderer draws, in the order in which they are
/// registered. The draws of a command sequence and the instance data of a
/// frame slot both follow this order.
#[derive(Clone, Copy, Debug, PartialEq, Eq, Structural)]
pub enum ModelKind {
    Cube,
    Square,
}

/// The registered models, in order.
pub open spec fn registered_models() -> Seq<ModelKind> {
    seq![ModelKind::Cube, ModelKind::Square]
}

/// The instances that `scene` has of one kind of model.
pub open spec fn instances_of<Inst>(scene: SceneView<Inst>, kind: ModelKind) -> Seq<Inst> {
    match kind {
        ModelKind::Cube => scene.cubes,
        ModelKind::Square => scene.squares,
    }
}

/// The instance data of every object of `scene`: model after model in
/// registration order, and within a model in scene order.
pub open spec fn scene_instances<Inst>(scene: SceneView<Inst>) -> Seq<Inst> {
    scene.cubes + scene.squares
}

/// How many instances `scene` has of each registered model.
pub open spec fn scene_instance_counts<Inst>(scene: SceneView<Inst>) -> Seq<usize> {
    seq![scene.cubes.len() as usize, scene.squares.len() as usize]
}

/// The scene as the renderer reads it: all objects in one fixed order.
pub struct RenderableScene;

impl RenderableScene {
    /// The instance data of every object, in the order in which the draws
    /// read it.
    pub fn into_matrices<Inst: Copy>(scene: &Scene<Inst>) -> (matrices: Vec<Inst>)
        ensures
            matrices@ == scene_instances(scene@),
    {
        let mut matrices: Vec<Inst> = Vec::new();
        let mut i: usize = 0;
        while i < scene.cubes.len()
            invariant
                i <= scene.cubes.len(),
                matrices@ == scene.cubes@.subrange(0, i as int),
            decreases scene.cubes.len() - i,
        {
            matrices.push(scene.cubes[i]);
            i = i + 1;
        }
        assert(scene.cubes@.subrange(0, scene.cubes.len() as int) =~= scene.cubes@);
        let mut j: usize = 0;
        while j < scene.squares.len()
            invariant
                j <= scene.squares.len(),
                matrices@ == scene.cubes@ + scene.squares@.subrange(0, j as int),
            decreases scene.squares.len() - j,
        {
            matrices.push(scene.squares[j]);
            j = j + 1;
            assert(matrices@ =~= scene.cubes@ + scene.squares@.subrange(0, j as int));
        }
        assert(scene.squares@.subrange(0, scene.squares.len() as int) =~= scene.squares@);
        matrices
    }

    /// How many instances the scene has of each registered model.
    pub fn instance_count_per_model<Inst>(scene: &Scene<Inst>) -> (counts: Vec<usize>)
        ensures
            counts@ == scene_instance_counts(scene@),
    {
        let mut counts: Vec<usize> = Vec::new();
        counts.push(scene.cubes.len());
        counts.push(scene.squares.len());
        assert(counts@ =~= scene_instance_counts(scene@));
        counts
    }

    /// The registered models, in order.
    pub fn get_models() -> (models: Vec<ModelKind>)
        ensures
            models@ == registered_models(),
    {
        let mut models: Vec<ModelKind> = Vec::new();
        models.push(ModelKind::Cube);
        models.push(ModelKind::Square);
        assert(models@ =~= registered_models());
        models
    }
}

/// The instance data of a scene is the instances of each registered model laid
/// end to end, and the instance counts are their lengths, in the same order.
pub proof fn lemma_scene_follows_registration<Inst>(scene: SceneView<Inst>)
    requires
        scene.cubes.len() <= usize::MAX,
        scene.squares.len() <= usize::MAX,
    ensures
        scene_instances(scene) == Seq::new(
            registered_models().len(),
            |k: int| instances_of(scene, registered_models()[k]),
        ).flatten(),
        scene_instance_counts(scene).len() == registered_models().len(),
        forall|k: int|
            0 <= k < registered_models().len() ==> (#[trigger] scene_instance_counts(scene)[k])
                == instances_of(scene, registered_models()[k]).len(),
{
    let lists = Seq::new(
        registered_models().len(),
        |k: int| instances_of(scene, registered_models()[k]),
    );
    assert(lists =~= seq![scene.cubes].push(scene.squares));
    seq![scene.cubes].lemma_flatten_push(scene.squares);
    seq![scene.cubes].lemma_flatten_one_element();
    assert(seq![scene.cubes].first() == scene.cubes);
}

} // verus!
