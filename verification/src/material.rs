//! Materials and the Phong illumination model.
//!
//! A material is a closed union, currently with one member. `lighting`
//! combines the base color (flat or from a pattern) with ambient, diffuse
//! and specular contributions; a shadowed point keeps only the ambient
//! term. The specular exponent is the whole-unit part of the shininess
//! scalar.

use vstd::prelude::*;
use crate::body::{Body, body_transform, Intersectable};
use crate::color::{Color, Trip, col, cadd, cmul, cscale, cfuzzy, black_spec};
use crate::fuzzy_eq::FuzzyEq;
use crate::lights::PointLight;
use crate::matrix::mwf;
use crate::pattern::{Pattern, pattern_color_at, pattern_transform};
use crate::scalar::{fpow, fx_fuzzy, fx_pow, ONE};
use crate::tuple::{Tuple, Quad, tup, qdot, qneg, qnormalize, qreflect, qsub};

verus! {

/// Ambient coefficient of the default material (0.1).
pub const DEFAULT_AMBIENT: i64 = 429496729;

/// Diffuse and specular coefficient of the default material (0.9).
pub const DEFAULT_DIFFUSE: i64 = 3865470566;

/// Shininess of the default material (200).
pub const DEFAULT_SHINE: i64 = 858993459200;

#[derive(Clone, Copy, Debug)]
pub enum Material {
    Phong(Phong)}

#[derive(Clone, Copy, Debug)]
pub struct Phong {
    pub color: Color,
    pub pattern: Option<Pattern>,
    pub ambient: i64,
    pub diffuse: i64,
    pub specular: i64,
    pub shine: i64,
    pub reflective: i64}

/// The one Phong record inside a material.
pub open spec fn phong_of(m: Material) -> Phong {
    match m {
        Material::Phong(p) => p}
}

/// The reflective coefficient a material reports.
pub open spec fn reflectiveness_of(m: Material) -> int {
    phong_of(m).reflective as int
}

/// The whole-unit part of the shininess scalar, the integer specular
/// exponent.
pub open spec fn shine_exp(s: int) -> nat {
    if s < 0 {
        0
    } else {
        (s / (ONE as int)) as nat
    }
}

/// The base color the model starts from: the pattern's lookup when one is
/// attached, the flat color otherwise.
pub open spec fn base_color(ph: Phong, body: Body, position: Quad) -> Trip {
    match ph.pattern {
        Some(p) => pattern_color_at(p, position, body),
        None => col(ph.color)}
}

/// The full Phong lighting computation, step for step.
pub open spec fn lighting_spec(
    ph: Phong,
    body: Body,
    light: PointLight,
    position: Quad,
    eyev: Quad,
    normalv: Quad,
    in_shadow: bool,
) -> Trip {
    let effective = cmul(base_color(ph, body, position), col(light.intensity));
    let lightv = qnormalize(qsub(tup(light.position), position));
    let ambient = cscale(effective, ph.ambient as int);
    if in_shadow {
        ambient
    } else {
        let light_dot_normal = qdot(lightv, normalv);
        if light_dot_normal < 0 {
            cadd(cadd(ambient, black_spec()), black_spec())
        } else {
            let diffuse = cscale(cscale(effective, ph.diffuse as int), light_dot_normal);
            let reflectv = qneg(qreflect(lightv, normalv));
            let reflect_dot_eye = qdot(reflectv, eyev);
            if reflect_dot_eye <= 0 {
                cadd(cadd(ambient, diffuse), black_spec())
            } else {
                let factor = fx_pow(reflect_dot_eye, shine_exp(ph.shine as int));
                let specular = cscale(
                    cscale(col(light.intensity), ph.specular as int),
                    factor,
                );
                cadd(cadd(ambient, diffuse), specular)
            }
        }
    }
}

/// What the material's lighting returns, dispatched over the union.
pub open spec fn material_lighting_spec(
    m: Material,
    body: Body,
    light: PointLight,
    position: Quad,
    eyev: Quad,
    normalv: Quad,
    in_shadow: bool,
) -> Trip {
    lighting_spec(phong_of(m), body, light, position, eyev, normalv, in_shadow)
}

/// Whether the transforms a lighting call reads are well-formed: the body's,
/// and the pattern's if one is attached.
pub open spec fn lighting_wf(ph: Phong, body: Body) -> bool {
    mwf(body_transform(body)) && match ph.pattern {
        Some(p) => mwf(pattern_transform(p)),
        None => true}
}

/// Local shading given geometry and one light.
pub trait Illuminated {
    fn lighting(
        &self,
        body: &Body,
        light: PointLight,
        position: Tuple,
        eyev: Tuple,
        normalv: Tuple,
        in_shadow: bool,
    ) -> Color;
}

/// Exposes a reflective coefficient for the world's recursive trace.
pub trait Reflective {
    fn reflectiveness(&self) -> i64;
}

impl Phong {
    pub fn lighting(
        &self,
        body: &Body,
        light: PointLight,
        position: Tuple,
        eyev: Tuple,
        normalv: Tuple,
        in_shadow: bool,
    ) -> (r: Color)
        requires
            lighting_wf(*self, *body),
        ensures
            col(r) == lighting_spec(
                *self,
                *body,
                light,
                tup(position),
                tup(eyev),
                tup(normalv),
                in_shadow,
            ),
    {
        let mut color = self.color;
        if let Some(pattern) = self.pattern {
            color = pattern.color_at(position, body);
        }
        let effective_color = color.mul(&light.intensity);
        let lightv = light.position.sub(&position).normalize();
        let ambient = effective_color.scale(self.ambient);
        if in_shadow {
            return ambient;
        }
        let diffuse: Color;
        let specular: Color;
        let light_dot_normal = lightv.dot(&normalv);
        if light_dot_normal < 0 {
            diffuse = Color::black();
            specular = Color::black();
        } else {
            diffuse = effective_color.scale(self.diffuse).scale(light_dot_normal);
            let reflectv = lightv.reflect(&normalv).neg();
            let reflect_dot_eye = reflectv.dot(&eyev);
            if reflect_dot_eye <= 0 {
                specular = Color::black();
            } else {
                let e: u32 = shine_exponent(self.shine);
                let factor = fpow(reflect_dot_eye, e);
                specular = light.intensity.scale(self.specular).scale(factor);
            }
        }
        ambient.add(&diffuse).add(&specular)
    }

    pub fn with_color(self, color: Color) -> (r: Self)
        ensures
            r == (Phong { color, ..self }),
    {
        Phong { color, ..self }
    }

    pub fn with_ambient(self, ambient: i64) -> (r: Self)
        ensures
            r == (Phong { ambient, ..self }),
    {
        Phong { ambient, ..self }
    }

    pub fn with_diffuse(self, diffuse: i64) -> (r: Self)
        ensures
            r == (Phong { diffuse, ..self }),
    {
        Phong { diffuse, ..self }
    }

    pub fn with_specular(self, specular: i64) -> (r: Self)
        ensures
            r == (Phong { specular, ..self }),
    {
        Phong { specular, ..self }
    }

    pub fn with_shininess(self, shininess: i64) -> (r: Self)
        ensures
            r == (Phong { shine: shininess, ..self }),
    {
        Phong { shine: shininess, ..self }
    }

    pub fn with_pattern(self, pattern: Pattern) -> (r: Self)
        ensures
            r == (Phong { pattern: Some(pattern), ..self }),
    {
        Phong { pattern: Some(pattern), ..self }
    }

    pub fn with_reflective(self, reflective: i64) -> (r: Self)
        ensures
            r == (Phong { reflective, ..self }),
    {
        Phong { reflective, ..self }
    }
}

/// The decidable check behind `lighting_wf`: the body's transform, and
/// the pattern's if one is attached, are in range.
pub fn lighting_wf_check(ph: &Phong, body: &Body) -> (r: bool)
    ensures
        r == lighting_wf(*ph, *body),
{
    let bt = body.transform().is_wf();
    match ph.pattern {
        Some(p) => bt && p.transform().is_wf(),
        None => bt}
}

/// The integer exponent used for the specular highlight.
fn shine_exponent(shine: i64) -> (e: u32)
    ensures
        e as nat == shine_exp(shine as int),
{
    if shine < 0 {
        0
    } else {
        ((shine as u64) / (ONE as u64)) as u32
    }
}

/// The default Phong material: white, ambient 0.1, diffuse and specular
/// 0.9, shininess 200, not reflective, no pattern.
pub open spec fn default_phong() -> Phong {
    Phong {
        color: Color { red: ONE, green: ONE, blue: ONE },
        pattern: None,
        ambient: DEFAULT_AMBIENT,
        diffuse: DEFAULT_DIFFUSE,
        specular: DEFAULT_DIFFUSE,
        shine: DEFAULT_SHINE,
        reflective: 0}
}

impl Default for Phong {
    fn default() -> (r: Self)
        ensures
            r == default_phong(),
    {
        Phong {
            color: Color::white(),
            pattern: None,
            ambient: DEFAULT_AMBIENT,
            diffuse: DEFAULT_DIFFUSE,
            specular: DEFAULT_DIFFUSE,
            shine: DEFAULT_SHINE,
            reflective: 0}
    }
}

impl Default for Material {
    fn default() -> (r: Self)
        ensures
            r == Material::Phong(default_phong()),
    {
        Material::Phong(Phong::default())
    }
}

impl From<Phong> for Material {
    fn from(value: Phong) -> (r: Self) {
        Material::Phong(value)
    }
}

impl vstd::std_specs::convert::FromSpecImpl<Phong> for Material {
    open spec fn obeys_from_spec() -> bool {
        true
    }

    open spec fn from_spec(value: Phong) -> Material {
        Material::Phong(value)
    }
}

impl Material {
    pub fn lighting(
        &self,
        body: &Body,
        light: PointLight,
        position: Tuple,
        eyev: Tuple,
        normalv: Tuple,
        in_shadow: bool,
    ) -> (r: Color)
        requires
            lighting_wf(phong_of(*self), *body),
        ensures
            col(r) == material_lighting_spec(
                *self,
                *body,
                light,
                tup(position),
                tup(eyev),
                tup(normalv),
                in_shadow,
            ),
    {
        match *self {
            Material::Phong(ref m) => m.lighting(body, light, position, eyev, normalv, in_shadow)}
    }

    pub fn reflectiveness(&self) -> (r: i64)
        ensures
            r as int == reflectiveness_of(*self),
    {
        match *self {
            Material::Phong(ref m) => m.reflective}
    }
}

impl Illuminated for Material {
    /// The facade checks the transform ranges the verified method demands;
    /// a degenerate material shades to black.
    fn lighting(
        &self,
        body: &Body,
        light: PointLight,
        position: Tuple,
        eyev: Tuple,
        normalv: Tuple,
        in_shadow: bool,
    ) -> Color {
        match self {
            Material::Phong(ph) => {
                if lighting_wf_check(ph, body) {
                    Material::lighting(self, body, light, position, eyev, normalv, in_shadow)
                } else {
                    Color::black()
                }
            }}
    }
}

impl Illuminated for Phong {
    /// The facade checks the transform ranges the verified method demands;
    /// a degenerate material shades to black.
    fn lighting(
        &self,
        body: &Body,
        light: PointLight,
        position: Tuple,
        eyev: Tuple,
        normalv: Tuple,
        in_shadow: bool,
    ) -> Color {
        if lighting_wf_check(self, body) {
            Phong::lighting(self, body, light, position, eyev, normalv, in_shadow)
        } else {
            Color::black()
        }
    }
}

impl Reflective for Material {
    fn reflectiveness(&self) -> i64 {
        Material::reflectiveness(self)
    }
}

impl FuzzyEq<Phong> for Phong {
    open spec fn fuzzy_spec(&self, other: &Phong) -> bool {
        cfuzzy(col(self.color), col(other.color)) && fx_fuzzy(
            self.ambient as int,
            other.ambient as int,
        ) && fx_fuzzy(self.diffuse as int, other.diffuse as int) && fx_fuzzy(
            self.specular as int,
            other.specular as int,
        ) && fx_fuzzy(self.shine as int, other.shine as int)
    }

    fn fuzzy_eq(&self, other: &Phong) -> (r: bool) {
        self.color.fuzzy_eq(&other.color) && self.ambient.fuzzy_eq(&other.ambient)
            && self.diffuse.fuzzy_eq(&other.diffuse) && self.specular.fuzzy_eq(&other.specular)
            && self.shine.fuzzy_eq(&other.shine)
    }
}

impl FuzzyEq<Material> for Material {
    open spec fn fuzzy_spec(&self, other: &Material) -> bool {
        self.phong_fuzzy(other)
    }

    fn fuzzy_eq(&self, other: &Material) -> (r: bool) {
        match (self, other) {
            (Material::Phong(m), Material::Phong(o)) => m.fuzzy_eq(o)}
    }
}

impl Material {
    /// The fuzzy comparison the union delegates to its one member.
    pub open spec fn phong_fuzzy(&self, other: &Material) -> bool {
        phong_of(*self).fuzzy_spec(&phong_of(*other))
    }
}

} // verus!
