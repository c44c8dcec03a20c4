use vstd::prelude::*;

verus! {

/// A root of the quadratic that a ray and a sphere define.
#[derive(Debug, Clone, Copy, PartialEq, Eq, Structural)]
pub enum Root {
    /// The smaller root, `(-b - sqrt(disc)) / a`.
    Near,
    /// The larger root, `(-b + sqrt(disc)) / a`.
    Far,
}

/// Which root, if any, a sphere reports for a ray. `disc_positive` says whether the
/// discriminant is strictly positive; `near_inside` and `far_inside` whether each root
/// lies strictly inside the open interval `(t_min, t_max)`. A tangent ray (discriminant
/// zero) misses, and the nearer root wins whenever it is inside.
pub fn pick_root(disc_positive: bool, near_inside: bool, far_inside: bool) -> (r: Option<Root>)
    ensures
        !disc_positive ==> r is None,
        disc_positive && near_inside ==> r == Some(Root::Near),
        disc_positive && !near_inside && far_inside ==> r == Some(Root::Far),
        disc_positive && !near_inside && !far_inside ==> r is None,
{
    if !disc_positive {
        None
    } else if near_inside {
        Some(Root::Near)
    } else if far_inside {
        Some(Root::Far)
    } else {
        None
    }
}

/// The member of a scene list whose hit is kept. `reports[i]` says whether member `i`
/// reported a hit when queried, in list order, with the upper bound shrunk to the
/// distance of the last hit kept; under that bound each report is nearer than every
/// earlier one, so the last member to report is the nearest. No report gives `None`.
pub fn closest_member(reports: &Vec<bool>) -> (r: Option<usize>)
    ensures
        r is None <==> forall|j: int| 0 <= j < reports@.len() ==> !#[trigger] reports@[j],
        r matches Some(i) ==> {
            &&& i < reports@.len()
            &&& reports@[i as int]
            &&& forall|j: int| i < j < reports@.len() ==> !#[trigger] reports@[j]
        },
{
    let mut best: Option<usize> = None;
    let mut i: usize = 0;
    while i < reports.len()
        invariant
            i <= reports@.len(),
            best is None <==> forall|j: int| 0 <= j < i ==> !#[trigger] reports@[j],
            best matches Some(b) ==> {
                &&& b < i
                &&& reports@[b as int]
                &&& forall|j: int| b < j < i ==> !#[trigger] reports@[j]
            },
        decreases reports@.len() - i,
    {
        if reports[i] {
            best = Some(i);
        }
        i = i + 1;
    }
    best
}

} // verus!
