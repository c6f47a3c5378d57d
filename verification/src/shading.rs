use crate::color::clamp_channel;
use crate::color::Color;
use crate::cube::Cube;
use crate::visibility::lemma_opaque_occluder_blocks;
use crate::visibility::met_before;
use crate::visibility::shadow_of;
use crate::visibility::Shadow;
use vstd::prelude::*;

verus! {

/// The sums of the red, green and blue channels of `colors`, without any
/// limit.
pub open spec fn channel_sums(colors: Seq<Color>) -> (int, int, int)
    decreases colors.len(),
{
    if colors.len() == 0 {
        (0, 0, 0)
    } else {
        let rest = channel_sums(colors.drop_last());
        let c = colors.last();
        (rest.0 + c.r, rest.1 + c.g, rest.2 + c.b)
    }
}

/// The light that reaches a point: `base` and every colour of `terms`
/// added up channel by channel, each channel limited to 255.
pub open spec fn accumulated(base: Color, terms: Seq<Color>) -> Color {
    let sums = channel_sums(terms);
    Color {
        r: clamp_channel(base.r + sums.0) as u8,
        g: clamp_channel(base.g + sums.1) as u8,
        b: clamp_channel(base.b + sums.2) as u8,
    }
}

/// No channel sum is negative.
pub proof fn lemma_channel_sums_nonnegative(colors: Seq<Color>)
    ensures
        channel_sums(colors).0 >= 0,
        channel_sums(colors).1 >= 0,
        channel_sums(colors).2 >= 0,
    decreases colors.len(),
{
    if colors.len() > 0 {
        lemma_channel_sums_nonnegative(colors.drop_last());
    }
}

/// Taking one colour out of a sequence takes its channels out of the sums.
pub proof fn lemma_channel_sums_remove(colors: Seq<Color>, i: int)
    requires
        0 <= i < colors.len(),
    ensures
        channel_sums(colors).0 == channel_sums(colors.remove(i)).0 + colors[i].r,
        channel_sums(colors).1 == channel_sums(colors.remove(i)).1 + colors[i].g,
        channel_sums(colors).2 == channel_sums(colors.remove(i)).2 + colors[i].b,
    decreases colors.len(),
{
    if i == colors.len() - 1 {
        assert(colors.remove(i) =~= colors.drop_last());
    } else {
        lemma_channel_sums_remove(colors.drop_last(), i);
        assert(colors.remove(i).drop_last() =~= colors.drop_last().remove(i));
        assert(colors.remove(i).last() == colors.last());
    }
}

/// The order in which lights are added up does not matter: two sequences
/// that hold the same colours the same number of times accumulate to the
/// same colour.
pub proof fn lemma_accumulated_any_order(base: Color, a: Seq<Color>, b: Seq<Color>)
    requires
        a.to_multiset() == b.to_multiset(),
    ensures
        accumulated(base, a) == accumulated(base, b),
{
    lemma_channel_sums_any_order(a, b);
}

/// The channel sums of a sequence depend only on which colours it holds
/// and how often.
pub proof fn lemma_channel_sums_any_order(a: Seq<Color>, b: Seq<Color>)
    requires
        a.to_multiset() == b.to_multiset(),
    ensures
        channel_sums(a) == channel_sums(b),
    decreases a.len(),
{
    broadcast use {
        vstd::seq_lib::to_multiset_len,
        vstd::seq_lib::to_multiset_remove,
        vstd::seq_lib::to_multiset_contains,
    };

    assert(a.len() == a.to_multiset().len());
    assert(b.len() == b.to_multiset().len());
    if a.len() > 0 {
        let c = a.last();
        let last = a.len() - 1;
        assert(a.contains(c));
        assert(a.to_multiset().count(c) > 0);
        assert(b.contains(c));
        let j = choose|j: int| 0 <= j < b.len() && b[j] == c;
        assert(a.remove(last).to_multiset() == a.to_multiset().remove(c));
        assert(b.remove(j).to_multiset() == b.to_multiset().remove(c));
        lemma_channel_sums_any_order(a.remove(last), b.remove(j));
        lemma_channel_sums_remove(a, last);
        lemma_channel_sums_remove(b, j);
    }
}

/// Light only adds: no channel of the accumulated colour is below that of
/// `base`.
pub proof fn lemma_accumulated_brightens(base: Color, terms: Seq<Color>)
    ensures
        accumulated(base, terms).r >= base.r,
        accumulated(base, terms).g >= base.g,
        accumulated(base, terms).b >= base.b,
{
    lemma_channel_sums_nonnegative(terms);
}

/// Terms that are all black add nothing: what is left is `base`.
pub proof fn lemma_accumulated_black_terms(base: Color, terms: Seq<Color>)
    requires
        forall|i: int| 0 <= i < terms.len() ==> terms[i] == (Color { r: 0, g: 0, b: 0 }),
    ensures
        accumulated(base, terms) == base,
    decreases terms.len(),
{
    if terms.len() > 0 {
        lemma_accumulated_black_terms(base, terms.drop_last());
    }
}

/// Adds `terms` to `base` one after the other with saturating addition.
/// Because a saturated channel stays saturated, the result is the true sum
/// of each channel limited to 255.
pub fn accumulate(base: Color, terms: &[Color]) -> (total: Color)
    ensures
        total == accumulated(base, terms@),
{
    let mut total = base;
    let mut i: usize = 0;
    while i < terms.len()
        invariant
            i <= terms.len(),
            total == accumulated(base, terms@.take(i as int)),
        decreases terms.len() - i,
    {
        proof {
            let before = terms@.take(i as int);
            let after = terms@.take(i + 1);
            assert(after.drop_last() =~= before);
            assert(after.last() == terms@[i as int]);
            lemma_channel_sums_nonnegative(before);
        }
        total = total.add(&terms[i]);
        i += 1;
    }
    assert(terms@.take(i as int) =~= terms@);
    total
}

/// One more term adds to the accumulated colour as saturating addition
/// does.
pub proof fn lemma_accumulated_push(base: Color, terms: Seq<Color>, term: Color)
    ensures
        accumulated(base, terms.push(term)) == accumulated(base, terms).plus(term),
{
    assert(terms.push(term).drop_last() =~= terms);
    lemma_channel_sums_nonnegative(terms);
}

/// What one light would add to the colour of a point, and what stands
/// between the light and the point.
#[derive(Debug, Clone, Copy, PartialEq, Eq, Structural)]
pub struct LightTerms {
    pub shadow: Shadow,
    pub diffuse: Color,
    pub specular: Color,
}

/// The terms that the lights add to a point: the diffuse and the specular
/// term of every light, in list order, but for the lights that an opaque
/// object blocks, which add nothing.
pub open spec fn direct_terms(lights: Seq<LightTerms>) -> Seq<Color>
    decreases lights.len(),
{
    if lights.len() == 0 {
        Seq::empty()
    } else {
        let rest = direct_terms(lights.drop_last());
        let light = lights.last();
        if light.shadow is Opaque {
            rest
        } else {
            rest.push(light.diffuse).push(light.specular)
        }
    }
}

/// The colour of a point under direct light: the ambient term and the
/// terms of the lights that reach it.
pub open spec fn direct(ambient: Color, lights: Seq<LightTerms>) -> Color {
    accumulated(ambient, direct_terms(lights))
}

/// A light that an opaque object blocks adds neither diffuse nor specular
/// light: the colour of the point is what it is without that light.
pub proof fn lemma_shadowed_light_adds_nothing(ambient: Color, lights: Seq<LightTerms>, k: int)
    requires
        0 <= k < lights.len(),
        lights[k].shadow is Opaque,
    ensures
        direct_terms(lights) == direct_terms(lights.remove(k)),
        direct(ambient, lights) == direct(ambient, lights.remove(k)),
    decreases lights.len(),
{
    if k == lights.len() - 1 {
        assert(lights.remove(k) =~= lights.drop_last());
    } else {
        lemma_shadowed_light_adds_nothing(ambient, lights.drop_last(), k);
        assert(lights.remove(k).drop_last() =~= lights.drop_last().remove(k));
        assert(lights.remove(k).last() == lights.last());
    }
}

/// Where every light is blocked by an opaque object, the point keeps the
/// ambient term alone.
pub proof fn lemma_all_lights_shadowed(ambient: Color, lights: Seq<LightTerms>)
    requires
        forall|k: int| 0 <= k < lights.len() ==> lights[k].shadow is Opaque,
    ensures
        direct_terms(lights).len() == 0,
        direct(ambient, lights) == ambient,
    decreases lights.len(),
{
    if lights.len() > 0 {
        lemma_all_lights_shadowed(ambient, lights.drop_last());
    }
}

/// The shadow test end to end: where an object that gives off no light is
/// met on the way from the point to light `k`, nearer than the light, and
/// no emissive object earlier in the list is, light `k` changes nothing in
/// the colour of the point. `distances` gives, for each object, how far
/// along the shadow ray toward light `k` it is met.
pub proof fn lemma_occluded_light_adds_nothing<V, S>(
    objects: Seq<Cube<V, S>>,
    distances: Seq<Option<u32>>,
    light_distance: u32,
    occluder: int,
    ambient: Color,
    lights: Seq<LightTerms>,
    k: int,
)
    requires
        objects.len() == distances.len(),
        met_before(distances, occluder, light_distance as int),
        forall|j: int|
            0 <= j <= occluder && met_before(distances, j, light_distance as int)
                ==> objects[j].material.emission_color is None,
        0 <= k < lights.len(),
        lights[k].shadow == shadow_of(objects, distances, light_distance),
    ensures
        direct(ambient, lights) == direct(ambient, lights.remove(k)),
        lights.len() == 1 ==> direct(ambient, lights) == ambient,
{
    lemma_opaque_occluder_blocks(objects, distances, light_distance, occluder);
    lemma_shadowed_light_adds_nothing(ambient, lights, k);
    if lights.len() == 1 {
        lemma_all_lights_shadowed(ambient, lights);
    }
}

/// The colour of a point under direct light: starts from `ambient` and
/// adds the diffuse and the specular term of every light that no opaque
/// object blocks.
pub fn direct_light(ambient: Color, lights: &[LightTerms]) -> (total: Color)
    ensures
        total == direct(ambient, lights@),
{
    let mut total = ambient;
    let mut i: usize = 0;
    while i < lights.len()
        invariant
            i <= lights.len(),
            total == direct(ambient, lights@.take(i as int)),
        decreases lights.len() - i,
    {
        let light = lights[i];
        proof {
            let before = lights@.take(i as int);
            let after = lights@.take(i + 1);
            assert(after.drop_last() =~= before);
            assert(after.last() == light);
            lemma_accumulated_push(ambient, direct_terms(before), light.diffuse);
            lemma_accumulated_push(
                ambient,
                direct_terms(before).push(light.diffuse),
                light.specular,
            );
        }
        match light.shadow {
            Shadow::Opaque => {},
            _ => {
                total = total.add(&light.diffuse).add(&light.specular);
            },
        }
        i += 1;
    }
    assert(lights@.take(i as int) =~= lights@);
    total
}

/// Limits every channel of a colour to `0..=255`. A colour's channels are
/// bytes, so this changes nothing.
pub fn clamp_color(color: Color) -> (c: Color)
    ensures
        c == color,
{
    Color::new(color.r as i32, color.g as i32, color.b as i32)
}

} // verus!
