pub mod vg;
pub mod vgm;
