use vstd::prelude::*;

verus! {

/// Quantization of a gamma-corrected colour channel into an integer sample of type `T`
/// (8 or 16 bits): the channel, taken to lie in `[0, 1]`, is scaled to the sample's
/// range and truncated.
pub trait Upscale<T> {
    fn upscale(&self) -> T;
}

} // verus!
