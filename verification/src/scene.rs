use vstd::prelude::*;

verus! {

/// The objects to draw. Of each object the scene keeps what the renderer
/// uploads for it, its instance data; what that is made of is the caller's
/// business.
pub struct Scene<Inst> {
    pub cubes: Vec<Inst>,
    pub squares: Vec<Inst>,
    /// Set whenever an object may have been changed. Nothing in this crate
    /// clears it: while it is up, every frame writes the instance data anew.
    pub objects_changed: bool,
    pub total_object_count: usize,
}

/// The contents of a [`Scene`].
pub struct SceneView<Inst> {
    pub cubes: Seq<Inst>,
    pub squares: Seq<Inst>,
    pub objects_changed: bool,
    pub total_object_count: nat,
}

impl<Inst> View for Scene<Inst> {
    type V = SceneView<Inst>;

    open spec fn view(&self) -> SceneView<Inst> {
        SceneView {
            cubes: self.cubes@,
            squares: self.squares@,
            objects_changed: self.objects_changed,
            total_object_count: self.total_object_count as nat,
        }
    }
}

/// How many cubes the starting scene has: a block of `generate_cubes` cubes
/// along each of its three edges where one is asked for, and else two.
pub open spec fn starting_cubes(generate_cubes: Option<usize>) -> int {
    match generate_cubes {
        Some(edge) => edge * edge * edge,
        None => 2,
    }
}

/// How many squares the starting scene has.
pub open spec fn starting_squares() -> int {
    1
}

/// Where in a block of cubes with `edge` cubes along each edge the cube with
/// the given index lies, counted along the three edges. The cubes are counted
/// through the block edge by edge, the last coordinate running fastest.
pub open spec fn grid_place_of(index: int, edge: int) -> (int, int, int) {
    (index / (edge * edge), (index / edge) % edge, index % edge)
}

impl<Inst: Copy> Scene<Inst> {
    /// The starting scene: a block of `generate_cubes` cubes along each edge
    /// where one is asked for and else two cubes, and one square, every object
    /// holding `fill`. It counts as changed: no renderer has seen it yet.
    pub fn load(generate_cubes: Option<usize>, fill: Inst) -> (scene: Self)
        requires
            starting_cubes(generate_cubes) + starting_squares() <= usize::MAX,
        ensures
            scene@ == (SceneView {
                cubes: Seq::new(starting_cubes(generate_cubes) as nat, |i: int| fill),
                squares: Seq::new(starting_squares() as nat, |i: int| fill),
                objects_changed: true,
                total_object_count: (starting_cubes(generate_cubes) + starting_squares()) as nat,
            }),
    {
        let cube_count: usize = match generate_cubes {
            Some(edge) => {
                assert(edge * edge * edge <= usize::MAX);
                assert(0 <= edge * edge <= edge * edge * edge) by (nonlinear_arith)
                    requires
                        0 <= edge,
                ;
                edge * edge * edge
            },
            None => 2,
        };
        let mut cubes: Vec<Inst> = Vec::new();
        let mut i: usize = 0;
        while i < cube_count
            invariant
                i <= cube_count,
                cubes@ == Seq::new(i as nat, |k: int| fill),
            decreases cube_count - i,
        {
            cubes.push(fill);
            i = i + 1;
            assert(cubes@ =~= Seq::new(i as nat, |k: int| fill));
        }
        let mut squares: Vec<Inst> = Vec::new();
        squares.push(fill);
        assert(squares@ =~= Seq::new(1, |k: int| fill));
        Scene { cubes, squares, objects_changed: true, total_object_count: cube_count + 1 }
    }
}

/// Where in a block of cubes with `edge` cubes along each edge the cube with
/// the given index lies.
pub fn grid_place(index: usize, edge: usize) -> (place: (usize, usize, usize))
    requires
        edge > 0,
        edge * edge <= usize::MAX,
    ensures
        (place.0 as int, place.1 as int, place.2 as int) == grid_place_of(
            index as int,
            edge as int,
        ),
{
    assert(edge * edge > 0) by (nonlinear_arith)
        requires
            edge > 0,
    ;
    (index / (edge * edge), (index / edge) % edge, index % edge)
}

impl<Inst> Scene<Inst> {
    /// A scene of the given objects. It counts as changed: no renderer has
    /// seen it yet.
    pub fn new(cubes: Vec<Inst>, squares: Vec<Inst>) -> (scene: Self)
        requires
            cubes@.len() + squares@.len() <= usize::MAX,
        ensures
            scene@ == (SceneView {
                cubes: cubes@,
                squares: squares@,
                objects_changed: true,
                total_object_count: cubes@.len() + squares@.len(),
            }),
    {
        let total_object_count: usize = cubes.len() + squares.len();
        Scene { cubes, squares, objects_changed: true, total_object_count }
    }

    /// Hands out cube `i` for changing, and marks the scene as changed.
    pub fn get_cube_mut(&mut self, i: usize) -> (cube: &mut Inst)
        requires
            i < old(self)@.cubes.len(),
        ensures
            *cube == old(self)@.cubes[i as int],
            final(self)@ == (SceneView {
                cubes: old(self)@.cubes.update(i as int, *final(cube)),
                objects_changed: true,
                ..old(self)@
            }),
    {
        self.objects_changed = true;
        &mut self.cubes[i]
    }

    /// Hands out square `i` for changing, and marks the scene as changed.
    pub fn get_square_mut(&mut self, i: usize) -> (square: &mut Inst)
        requires
            i < old(self)@.squares.len(),
        ensures
            *square == old(self)@.squares[i as int],
            final(self)@ == (SceneView {
                squares: old(self)@.squares.update(i as int, *final(square)),
                objects_changed: true,
                ..old(self)@
            }),
    {
        self.objects_changed = true;
        &mut self.squares[i]
    }
}

} // verus!
