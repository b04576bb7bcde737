use vstd::prelude::*;

verus! {

/// Colour channels are drawn as a level `c < COLOR_LEVELS`, standing for the
/// intensity `c / COLOR_LEVELS` in `[0, 1)`.
pub const COLOR_LEVELS: u32 = 65536;

/// Relies on rand::random, a draw from the thread-local generator: any value
/// of the type may come back.
pub assume_specification<T>[ rand::random::<T> ]() -> (r: T)
    where
        rand::distributions::Standard: rand::distributions::Distribution<T>,
;

/// Draws the static per-disk colours: three channel levels (red, green, blue)
/// for each of `disk_num` disks, each below `COLOR_LEVELS`.
pub fn random_colors(disk_num: u32) -> (colors: Vec<u32>)
    ensures
        colors@.len() == 3 * disk_num,
        forall|k: int| 0 <= k < colors@.len() ==> colors@[k] < COLOR_LEVELS,
{
    let mut colors: Vec<u32> = Vec::new();
    let mut i: u32 = 0;
    while i < disk_num
        invariant
            i <= disk_num,
            colors@.len() == 3 * i,
            forall|k: int| 0 <= k < colors@.len() ==> colors@[k] < COLOR_LEVELS,
        decreases disk_num - i,
    {
        let mut channel: u32 = 0;
        while channel < 3
            invariant
                channel <= 3,
                colors@.len() == 3 * i + channel,
                forall|k: int| 0 <= k < colors@.len() ==> colors@[k] < COLOR_LEVELS,
            decreases 3 - channel,
        {
            let draw: u32 = rand::random::<u32>();
            colors.push(draw % COLOR_LEVELS);
            channel = channel + 1;
        }
        i = i + 1;
    }
    colors
}

} // verus!
