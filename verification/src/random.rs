//! The source of the random bytes that `CXNN` asks for.

use vstd::prelude::*;

verus! {

/// Draws a byte from `macroquad::rand::gen_range`, called with the bounds 0
/// and 255. That function reads and advances one generator shared by the
/// whole process, so nothing is known of the byte beyond its range: the
/// upper bound itself never comes out.
#[verifier::external_body]
pub(crate) fn random_byte() -> (byte: u8)
    ensures
        byte < 255,
{
    macroquad::rand::gen_range(0u8, 255u8)
}

} // verus!
