//! The image selector's draw: one path of the catalog, picked at random.

use rand::seq::IndexedMutRandom;
use vstd::prelude::*;
use crate::catalog::ImagePath;

verus! {

/// `rand::rngs::ThreadRng`: the handle of a thread's random number
/// generator.
#[verifier::external_type_specification]
#[verifier::external_body]
pub struct ExThreadRng(rand::rngs::ThreadRng);

/// `rand::rng` hands out the calling thread's generator, seeded by the
/// operating system on the thread's first call. Nothing is claimed of it.
pub assume_specification[ rand::rng ]() -> (rng: rand::rngs::ThreadRng)
;

/// Calls `choose_mut` of `rand::seq::IndexedMutRandom` on the catalog and
/// copies the entry that it points at. The catalog stays as it was. There is
/// no entry exactly where the catalog is empty; otherwise the entry is one
/// of the catalog's, and which one is the generator's choice.
#[verifier::external_body]
fn choose_mut(catalog: &mut Vec<ImagePath>, rng: &mut rand::rngs::ThreadRng) -> (chosen: Option<
    ImagePath,
>)
    ensures
        final(catalog)@ == old(catalog)@,
        chosen is None <==> old(catalog)@.len() == 0,
        chosen matches Some(image) ==> exists|i: int|
            0 <= i < old(catalog)@.len() && #[trigger] old(catalog)@[i] == image,
{
    catalog.choose_mut(rng).cloned()
}

/// Picks one path of `catalog` at random. There is none exactly where the
/// catalog is empty. Any path may come, also the one that came last time.
pub fn choose_image(catalog: Vec<ImagePath>) -> (chosen: Option<ImagePath>)
    ensures
        chosen is None <==> catalog@.len() == 0,
        chosen matches Some(image) ==> catalog@.contains(image),
{
    let mut catalog = catalog;
    let mut rng = rand::rng();
    choose_mut(&mut catalog, &mut rng)
}

} // verus!
