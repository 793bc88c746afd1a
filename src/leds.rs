//! The colors shown on the RGB LEDs and their on/off channel levels.
use vstd::prelude::*;
use crate::scoreboard::ShotResult;

verus! {

/// A channel whose value is strictly above this is switched on.
pub const CHANNEL_ON_ABOVE: u8 = 128;

/// The color that shows an outcome: red for `Miss`, blue for `Good`,
/// green for `Perfect`.
pub open spec fn color_of(o: ShotResult) -> Seq<u8> {
    match o {
        ShotResult::Miss => seq![255u8, 0u8, 0u8],
        ShotResult::Good => seq![0u8, 0u8, 255u8],
        ShotResult::Perfect => seq![0u8, 255u8, 0u8],
    }
}

/// The color of an outcome, as red, green and blue values.
pub fn outcome_color(o: ShotResult) -> (c: [u8; 3])
    ensures
        c@ == color_of(o),
{
    let c: [u8; 3] = match o {
        ShotResult::Miss => [255, 0, 0],
        ShotResult::Good => [0, 0, 255],
        ShotResult::Perfect => [0, 255, 0],
    };
    assert(c@ =~= color_of(o));
    c
}

/// The color shown once at start-up, before the first outcome: purple.
pub fn startup_color() -> (c: [u8; 3])
    ensures
        c@ == seq![128u8, 0u8, 128u8],
{
    let c: [u8; 3] = [128, 0, 128];
    assert(c@ =~= seq![128u8, 0u8, 128u8]);
    c
}

/// The color that switches every channel off.
pub fn dark() -> (c: [u8; 3])
    ensures
        c@ == seq![0u8, 0u8, 0u8],
{
    let c: [u8; 3] = [0, 0, 0];
    assert(c@ =~= seq![0u8, 0u8, 0u8]);
    c
}

/// The on/off level of each channel of a color: on where its value is
/// strictly above the threshold.
pub fn channel_levels(rgb: [u8; 3]) -> (l: [bool; 3])
    ensures
        forall|i: int| 0 <= i < 3 ==> l@[i] == (rgb@[i] > CHANNEL_ON_ABOVE),
{
    [rgb[0] > CHANNEL_ON_ABOVE, rgb[1] > CHANNEL_ON_ABOVE, rgb[2] > CHANNEL_ON_ABOVE]
}

} // verus!
