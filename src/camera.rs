use vstd::prelude::*;

verus! {

/// Every camera's horizontal coordinate after following the characters at
/// `players`: the last character's coordinate when there is one, the
/// camera's own otherwise.
pub open spec fn follow_x<T>(camera: T, players: Seq<T>) -> T {
    if players.len() == 0 {
        camera
    } else {
        players.last()
    }
}

/// Camera follow: sets the horizontal coordinate of every camera to that of
/// the character, with no smoothing or clamping. Vertical coordinates are
/// not part of the call and stay where they are.
pub fn camera_follow_player<T: Copy>(cameras: &mut Vec<T>, players: &Vec<T>)
    ensures
        final(cameras)@.len() == old(cameras)@.len(),
        forall|i: int|
            0 <= i < old(cameras)@.len() ==> #[trigger] final(cameras)@[i] == follow_x(
                old(cameras)@[i],
                players@,
            ),
{
    if players.len() == 0 {
        return;
    }
    let x = players[players.len() - 1];
    let mut i: usize = 0;
    while i < cameras.len()
        invariant
            i <= cameras.len(),
            cameras@.len() == old(cameras)@.len(),
            players@.len() > 0,
            x == players@.last(),
            forall|k: int| 0 <= k < i ==> #[trigger] cameras@[k] == x,
            forall|k: int| i <= k < cameras@.len() ==> #[trigger] cameras@[k] == old(cameras)@[k],
        decreases cameras.len() - i,
    {
        cameras.set(i, x);
        i = i + 1;
    }
}

} // verus!
