//! The chip cores themselves: one module per chip, each an implementation of
//! [`ChipCore`](crate::chip::ChipCore) and nothing else.

pub mod ay8910;
pub mod sn76489;
pub mod huc6280;
pub mod okim;
pub mod gb_dmg;
pub mod pwm;
pub mod nes_apu;
pub mod k051649;
pub mod rf5c68;
pub mod saa1099;
pub mod wonderswan;
pub mod c140;
pub mod es5503;
pub mod ga20;
pub mod k053260;
pub mod qsound;
pub mod vsu;
pub mod upd7759;
pub mod ymz280b;
pub mod ymf278b;
pub mod segapcm;
pub mod x1010;
pub mod multipcm;
pub mod k054539;
pub mod c352;
