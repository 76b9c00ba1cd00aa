use vstd::prelude::*;

verus! {

/// Registers `texture`: puts it at the end of the registry and returns the
/// index under which it is found from now on.
///
/// The registry only grows at its end, so every index handed out earlier
/// still names the texture it was handed out for.
pub fn insert_texture<T>(texture: T, texture_vec: &mut Vec<T>) -> (idx: usize)
    ensures
        final(texture_vec)@ == old(texture_vec)@.push(texture),
        idx == old(texture_vec)@.len(),
        final(texture_vec)@[idx as int] == texture,
        forall|i: int|
            0 <= i < old(texture_vec)@.len() ==> final(texture_vec)@[i] == old(texture_vec)@[i],
{
    texture_vec.push(texture);
    texture_vec.len() - 1
}

} // verus!
