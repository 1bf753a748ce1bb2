use vstd::prelude::*;

verus! {

/// So many bytes, all zero.
fn zero_bytes(count: usize) -> (bytes: Vec<u8>)
    ensures
        bytes@ == Seq::new(count as nat, |place: int| 0u8),
{
    let mut bytes: Vec<u8> = Vec::new();
    let mut place: usize = 0;
    while place < count
        invariant
            place <= count,
            bytes@ == Seq::new(place as nat, |k: int| 0u8),
        decreases count - place,
    {
        bytes.push(0);
        place = place + 1;
        assert(bytes@ =~= Seq::new(place as nat, |k: int| 0u8));
    }
    bytes
}

/// A shader that reads a uniform of type `U`.
pub trait UniformShader<U> {
    /// What the uniform holds before anything is written to it.
    fn get_initial_uniform_data() -> U;

    /// As many zero bytes as a uniform takes up.
    fn get_initial_uniform_bytes() -> (bytes: Vec<u8>)
        ensures
            bytes@ == Seq::new(vstd::layout::size_of::<U>(), |place: int| 0u8),
    {
        zero_bytes(core::mem::size_of::<U>())
    }
}

} // verus!
