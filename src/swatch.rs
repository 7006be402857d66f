//! Color swatches: the colors a new swatch may take, picked at random.
use crate::theme::colors::Rgb;
use rand::seq::SliceRandom;
use vstd::prelude::*;

verus! {

/// The swatch colors: tone 500 of each palette color, from slate to rose.
pub open spec fn swatch_colors() -> Seq<Rgb> {
    seq![
        Rgb { r: 100, g: 116, b: 139 },
        Rgb { r: 107, g: 114, b: 128 },
        Rgb { r: 113, g: 113, b: 122 },
        Rgb { r: 115, g: 115, b: 115 },
        Rgb { r: 120, g: 113, b: 108 },
        Rgb { r: 239, g: 68, b: 68 },
        Rgb { r: 249, g: 115, b: 22 },
        Rgb { r: 245, g: 158, b: 11 },
        Rgb { r: 234, g: 179, b: 8 },
        Rgb { r: 132, g: 204, b: 22 },
        Rgb { r: 34, g: 197, b: 94 },
        Rgb { r: 16, g: 185, b: 129 },
        Rgb { r: 20, g: 184, b: 166 },
        Rgb { r: 6, g: 182, b: 212 },
        Rgb { r: 14, g: 165, b: 233 },
        Rgb { r: 59, g: 130, b: 246 },
        Rgb { r: 99, g: 102, b: 241 },
        Rgb { r: 139, g: 92, b: 246 },
        Rgb { r: 168, g: 85, b: 247 },
        Rgb { r: 217, g: 70, b: 239 },
        Rgb { r: 236, g: 72, b: 153 },
        Rgb { r: 244, g: 63, b: 94 },
    ]
}

/// The swatch colors, in palette order.
pub fn swatch_color_list() -> (r: Vec<Rgb>)
    ensures
        r@ == swatch_colors(),
{
    let r = vec![
        Rgb { r: 100, g: 116, b: 139 },
        Rgb { r: 107, g: 114, b: 128 },
        Rgb { r: 113, g: 113, b: 122 },
        Rgb { r: 115, g: 115, b: 115 },
        Rgb { r: 120, g: 113, b: 108 },
        Rgb { r: 239, g: 68, b: 68 },
        Rgb { r: 249, g: 115, b: 22 },
        Rgb { r: 245, g: 158, b: 11 },
        Rgb { r: 234, g: 179, b: 8 },
        Rgb { r: 132, g: 204, b: 22 },
        Rgb { r: 34, g: 197, b: 94 },
        Rgb { r: 16, g: 185, b: 129 },
        Rgb { r: 20, g: 184, b: 166 },
        Rgb { r: 6, g: 182, b: 212 },
        Rgb { r: 14, g: 165, b: 233 },
        Rgb { r: 59, g: 130, b: 246 },
        Rgb { r: 99, g: 102, b: 241 },
        Rgb { r: 139, g: 92, b: 246 },
        Rgb { r: 168, g: 85, b: 247 },
        Rgb { r: 217, g: 70, b: 239 },
        Rgb { r: 236, g: 72, b: 153 },
        Rgb { r: 244, g: 63, b: 94 },
    ];
    assert(r@ =~= swatch_colors());
    r
}

/// Relies on rand's `SliceRandom::choose` with the thread-local generator:
/// `None` for an empty slice, otherwise one of its elements.
#[verifier::external_body]
fn choose_one(choices: &Vec<Rgb>) -> (r: Option<Rgb>)
    ensures
        r is None <==> choices@.len() == 0,
        r is Some ==> choices@.contains(r.unwrap()),
{
    choices.as_slice().choose(&mut rand::thread_rng()).copied()
}

/// Relies on rand's `SliceRandom::choose_multiple` with the thread-local
/// generator: `amount` elements, or all of them if there are fewer, taken
/// from distinct positions of the slice.
#[verifier::external_body]
fn choose_several(choices: &Vec<Rgb>, amount: usize) -> (r: Vec<Rgb>)
    ensures
        r@.len() == if amount < choices@.len() {
            amount as int
        } else {
            choices@.len() as int
        },
        forall|k: int| 0 <= k < r@.len() ==> choices@.contains(#[trigger] r@[k]),
        choices@.no_duplicates() ==> r@.no_duplicates(),
{
    choices.as_slice().choose_multiple(&mut rand::thread_rng(), amount).copied().collect()
}

/// A swatch color picked at random.
pub fn random_color() -> (r: Rgb)
    ensures
        swatch_colors().contains(r),
{
    let colors = swatch_color_list();
    choose_one(&colors).unwrap()
}

/// `count` different swatch colors picked at random (all of them if `count`
/// is larger than the palette).
pub fn random_colors(count: usize) -> (r: Vec<Rgb>)
    ensures
        r@.len() == if count < swatch_colors().len() {
            count as int
        } else {
            swatch_colors().len() as int
        },
        r@.no_duplicates(),
        forall|k: int| 0 <= k < r@.len() ==> swatch_colors().contains(#[trigger] r@[k]),
{
    let colors = swatch_color_list();
    assert(swatch_colors().no_duplicates());
    choose_several(&colors, count)
}

} // verus!
