use vstd::prelude::*;

verus! {

/// Appends the line terminator that separates snapshots on the serial link.
pub fn frame_line(payload: &String) -> (r: String)
    ensures
        r@ == payload@ + seq!['\n'],
{
    let mut line = payload.clone();
    line.append("\n");
    proof {
        reveal_strlit("\n");
    }
    line
}

} // verus!
