use crate::color::Color;
use crate::texture::Texture;
use crate::texture::TextureGrid;
use std::sync::Arc;
use vstd::prelude::*;

verus! {

/// The shading parameters of a surface. The scalar type `S` of the weights
/// is the caller's: the library carries the weights and never reads them.
///
/// `albedo` holds the diffuse, specular, reflective and transmissive
/// weights, in that order.
#[derive(Debug, Clone)]
pub struct Material<S> {
    pub diffuse: Color,
    pub specular: S,
    pub albedo: [S; 4],
    pub refractive_index: S,
    pub has_texture: bool,
    pub texture: Option<Arc<Texture>>,
    pub emission_color: Option<Color>,
    pub emission_intensity: S,
}

impl<S> Material<S> {
    /// The colour of the surface at texture pixel `(x, y)`: the texture's
    /// colour there where the material has a texture, else the flat diffuse
    /// colour.
    pub open spec fn color_at(&self, x: int, y: int) -> Color {
        match self.sampled() {
            Some(texture) => texture.color_at(x, y),
            None => self.diffuse,
        }
    }

    /// The texture that gives the surface its colour, if it has one.
    pub open spec fn sampled(&self) -> Option<TextureGrid> {
        match self.texture {
            Some(texture) if self.has_texture => Some(texture@),
            _ => None,
        }
    }

    /// A material of one flat colour, without a texture.
    pub fn new(
        diffuse: Color,
        specular: S,
        albedo: [S; 4],
        refractive_index: S,
        emission_color: Option<Color>,
        emission_intensity: S,
    ) -> (m: Material<S>)
        ensures
            m == (Material {
                diffuse,
                specular,
                albedo,
                refractive_index,
                has_texture: false,
                texture: None,
                emission_color,
                emission_intensity,
            }),
    {
        Material {
            diffuse,
            specular,
            albedo,
            refractive_index,
            has_texture: false,
            texture: None,
            emission_color,
            emission_intensity,
        }
    }

    /// A textured material. Its flat colour is white.
    pub fn new_with_texture(
        specular: S,
        albedo: [S; 4],
        refractive_index: S,
        texture: Arc<Texture>,
        emission_color: Option<Color>,
        emission_intensity: S,
    ) -> (m: Material<S>)
        ensures
            m == (Material {
                diffuse: Color { r: 255, g: 255, b: 255 },
                specular,
                albedo,
                refractive_index,
                has_texture: true,
                texture: Some(texture),
                emission_color,
                emission_intensity,
            }),
    {
        Material {
            diffuse: Color::new(255, 255, 255),
            specular,
            albedo,
            refractive_index,
            has_texture: true,
            texture: Some(texture),
            emission_color,
            emission_intensity,
        }
    }

    /// The colour of the surface at texture pixel `(x, y)`. A textured
    /// material answers from its texture, with the sentinel outside it; any
    /// other material answers with its flat colour, wherever it is asked.
    pub fn diffuse_color_at(&self, x: usize, y: usize) -> (c: Color)
        ensures
            c == self.color_at(x as int, y as int),
    {
        if self.has_texture {
            if let Some(texture) = &self.texture {
                return texture.get_color(x, y);
            }
        }
        self.diffuse
    }

    /// The size of the texture that `diffuse_color_at` samples, if the
    /// material has one.
    pub fn texture_size(&self) -> (size: Option<(usize, usize)>)
        ensures
            match (size, self.sampled()) {
                (Some((w, h)), Some(texture)) => texture.width == w && texture.height == h,
                (None, None) => true,
                _ => false,
            },
    {
        if self.has_texture {
            if let Some(texture) = &self.texture {
                return Some((texture.width(), texture.height()));
            }
        }
        None
    }

    /// Whether the surface gives off light of its own.
    pub fn is_emissive(&self) -> (emissive: bool)
        ensures
            emissive == self.emission_color is Some,
    {
        self.emission_color.is_some()
    }
}

impl<S: Copy> Material<S> {
    /// The unlit black material: no texture, no emission, and every weight
    /// equal to `zero`.
    pub fn black(zero: S) -> (m: Material<S>)
        ensures
            m.diffuse == (Color { r: 0, g: 0, b: 0 }),
            m.specular == zero,
            m.albedo@ == seq![zero, zero, zero, zero],
            m.refractive_index == zero,
            !m.has_texture,
            m.texture is None,
            m.emission_color is None,
            m.emission_intensity == zero,
    {
        let m = Material {
            diffuse: Color::new(0, 0, 0),
            specular: zero,
            albedo: [zero, zero, zero, zero],
            refractive_index: zero,
            has_texture: false,
            texture: None,
            emission_color: None,
            emission_intensity: zero,
        };
        assert(m.albedo@ =~= seq![zero, zero, zero, zero]);
        m
    }
}

} // verus!
