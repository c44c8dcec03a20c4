//! Integer and decision side of a small Monte Carlo sphere renderer: which root and
//! which scene member an intersection reports, when a material scatters and which way
//! glass sends a ray, the bounce-depth cutoff of the integrator, the order in which
//! pixels are emitted, how quantized channels become bytes, and the quantization
//! capability that colour channels offer.
pub mod bounce;
pub mod channel;
pub mod hit;
pub mod raster;
pub mod scatter;

pub use bounce::{step, Step, MAX_DEPTH};
pub use channel::Upscale;
pub use hit::{closest_member, pick_root, Root};
pub use raster::{pack_rgb16, pack_rgb8, scan_order, split_channel16};
pub use scatter::{dielectric_outgoing, medium_side, scatters, MaterialKind, Outgoing, Side};
