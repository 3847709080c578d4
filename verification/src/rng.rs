use vstd::prelude::*;

verus! {

/// Relies on rand::random: one value of the requested type, drawn from rand's
/// `Standard` distribution. Nothing is assumed about which value comes back.
pub assume_specification<T>[ rand::random::<T> ]() -> (r: T)
    where
        rand::distributions::Standard: rand::distributions::Distribution<T>,
;

/// One roll for the stochastic decisions: a value below 100, close to
/// uniformly distributed. Which value comes back is left open.
pub fn draw_roll() -> (r: u8)
    ensures
        r < 100,
{
    let v: u16 = rand::random::<u16>();
    (v % 100) as u8
}

/// A random coordinate in `[lo, hi]`, close to uniformly distributed. Which
/// value comes back is left open.
pub fn random_coord(lo: usize, hi: usize) -> (r: usize)
    requires
        lo <= hi,
        hi < usize::MAX,
    ensures
        lo <= r <= hi,
{
    let span: usize = hi - lo + 1;
    let v: usize = rand::random::<usize>();
    lo + v % span
}

} // verus!
