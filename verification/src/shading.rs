//! Which shading path a sphere takes: the sun's limb darkening, one of the
//! procedural textures, or a flat base colour.

use vstd::prelude::*;

verus! {

/// What a sphere is made of, which decides how it is shaded.
#[derive(Clone, Copy, Debug, PartialEq, Eq, Structural)]
pub enum Material {
    Sun,
    Earth,
    Jupiter,
    Solid,
}

/// The part of a sphere that shading reads: its material and its colour
/// channels (0 to 255 each, where set).
#[derive(Clone, Copy, Debug)]
pub struct Surface {
    pub material: Material,
    pub red: Option<usize>,
    pub green: Option<usize>,
    pub blue: Option<usize>,
}

/// The shading path chosen for a hit sphere.
#[derive(Clone, Copy, Debug, PartialEq, Eq, Structural)]
pub enum Shading {
    /// Emissive sun with limb darkening; no lighting.
    SunLimb,
    /// Lit, with the Earth noise texture as base colour.
    EarthTexture,
    /// Lit, with the banded Jupiter texture as base colour.
    JupiterTexture,
    /// Lit, with the given base colour.
    Flat(usize, usize, usize),
}

/// A surface can be shaded: a solid sphere has all three colour channels.
pub open spec fn shadeable(s: Surface) -> bool {
    s.material == Material::Solid ==> (s.red is Some && s.green is Some && s.blue is Some)
}

/// The shading path of a surface, by its material.
pub open spec fn shading_of(s: Surface) -> Shading {
    match s.material {
        Material::Sun => Shading::SunLimb,
        Material::Earth => Shading::EarthTexture,
        Material::Jupiter => Shading::JupiterTexture,
        Material::Solid => Shading::Flat(s.red->0, s.green->0, s.blue->0),
    }
}

/// The colours by which the single-image renderer recognises the sun.
pub open spec fn sun_colours(red: Option<usize>, green: Option<usize>, blue: Option<usize>) -> bool {
    red == Some(255usize) && green == Some(220usize) && blue == Some(50usize)
}

/// The shading path of a sphere in the single-image renderer, which has no
/// materials: the sun by its colours, every other sphere flat.
pub open spec fn shading_by_colours(
    red: Option<usize>,
    green: Option<usize>,
    blue: Option<usize>,
) -> Shading {
    if sun_colours(red, green, blue) {
        Shading::SunLimb
    } else {
        Shading::Flat(red->0, green->0, blue->0)
    }
}

impl Surface {
    /// The shading path for a hit on this surface.
    pub fn shading(&self) -> (sh: Shading)
        requires
            shadeable(*self),
        ensures
            sh == shading_of(*self),
            self.material == Material::Sun ==> sh == Shading::SunLimb,
            self.material == Material::Earth ==> sh == Shading::EarthTexture,
            self.material == Material::Jupiter ==> sh == Shading::JupiterTexture,
            self.material == Material::Solid ==> sh == Shading::Flat(
                self.red->0,
                self.green->0,
                self.blue->0,
            ),
    {
        match self.material {
            Material::Sun => Shading::SunLimb,
            Material::Earth => Shading::EarthTexture,
            Material::Jupiter => Shading::JupiterTexture,
            Material::Solid => Shading::Flat(
                self.red.unwrap(),
                self.green.unwrap(),
                self.blue.unwrap(),
            ),
        }
    }
}

/// Whether a sphere has the sun's colours (255, 220, 50).
pub fn is_sun_coloured(red: Option<usize>, green: Option<usize>, blue: Option<usize>) -> (b: bool)
    ensures
        b == sun_colours(red, green, blue),
        b <==> (red == Some(255usize) && green == Some(220usize) && blue == Some(50usize)),
{
    match (red, green, blue) {
        (Some(r), Some(g), Some(bl)) => r == 255 && g == 220 && bl == 50,
        _ => false,
    }
}

/// The shading path of a sphere in the single-image renderer.
pub fn shade_by_colours(red: Option<usize>, green: Option<usize>, blue: Option<usize>) -> (sh:
    Shading)
    requires
        sun_colours(red, green, blue) || (red is Some && green is Some && blue is Some),
    ensures
        sh == shading_by_colours(red, green, blue),
        sh == Shading::SunLimb <==> (red == Some(255usize) && green == Some(220usize) && blue
            == Some(50usize)),
        !(red == Some(255usize) && green == Some(220usize) && blue == Some(50usize)) ==> sh
            == Shading::Flat(red->0, green->0, blue->0),
{
    if is_sun_coloured(red, green, blue) {
        Shading::SunLimb
    } else {
        Shading::Flat(red.unwrap(), green.unwrap(), blue.unwrap())
    }
}

/// A sun surface that carries the sun's colours is shaded the same way by
/// both renderers, and only the sun takes the limb-darkening path in the
/// fly-through renderer.
pub proof fn lemma_sun_shading_agrees(s: Surface)
    requires
        shadeable(s),
    ensures
        s.material == Material::Sun && sun_colours(s.red, s.green, s.blue) ==> shading_of(s)
            == shading_by_colours(s.red, s.green, s.blue),
        shading_of(s) == Shading::SunLimb <==> s.material == Material::Sun,
{
}

/// The surfaces of the fly-through's bodies, in scene order: the sun, then
/// Mercury, Venus, Earth, Mars, Jupiter, Saturn, Uranus and Neptune.
pub open spec fn body_surface_table() -> Seq<Surface> {
    seq![
        Surface { material: Material::Sun, red: Some(255usize), green: Some(220usize), blue: Some(50usize) },
        Surface { material: Material::Solid, red: Some(169usize), green: Some(169usize), blue: Some(169usize) },
        Surface { material: Material::Solid, red: Some(255usize), green: Some(210usize), blue: Some(120usize) },
        Surface { material: Material::Earth, red: Some(50usize), green: Some(120usize), blue: Some(200usize) },
        Surface { material: Material::Solid, red: Some(188usize), green: Some(74usize), blue: Some(40usize) },
        Surface { material: Material::Jupiter, red: Some(220usize), green: Some(165usize), blue: Some(100usize) },
        Surface { material: Material::Solid, red: Some(210usize), green: Some(185usize), blue: Some(130usize) },
        Surface { material: Material::Solid, red: Some(130usize), green: Some(210usize), blue: Some(220usize) },
        Surface { material: Material::Solid, red: Some(50usize), green: Some(80usize), blue: Some(200usize) },
    ]
}

/// The colours of the single-image renderer's bodies, in scene order: the
/// sun, then Mercury to Neptune.
pub open spec fn still_colour_table() -> Seq<(usize, usize, usize)> {
    seq![
        (255usize, 220usize, 50usize),
        (169usize, 169usize, 169usize),
        (255usize, 210usize, 120usize),
        (50usize, 120usize, 200usize),
        (188usize, 74usize, 40usize),
        (220usize, 165usize, 100usize),
        (210usize, 185usize, 130usize),
        (130usize, 210usize, 220usize),
        (50usize, 80usize, 200usize),
    ]
}

fn surface(material: Material, red: usize, green: usize, blue: usize) -> (s: Surface)
    ensures
        s == (Surface { material, red: Some(red), green: Some(green), blue: Some(blue) }),
{
    Surface { material, red: Some(red), green: Some(green), blue: Some(blue) }
}

/// The surfaces of the fly-through's nine bodies, the sun first.
pub fn body_surfaces() -> (table: Vec<Surface>)
    ensures
        table@ == body_surface_table(),
{
    let mut table: Vec<Surface> = Vec::new();
    table.push(surface(Material::Sun, 255, 220, 50));
    table.push(surface(Material::Solid, 169, 169, 169));
    table.push(surface(Material::Solid, 255, 210, 120));
    table.push(surface(Material::Earth, 50, 120, 200));
    table.push(surface(Material::Solid, 188, 74, 40));
    table.push(surface(Material::Jupiter, 220, 165, 100));
    table.push(surface(Material::Solid, 210, 185, 130));
    table.push(surface(Material::Solid, 130, 210, 220));
    table.push(surface(Material::Solid, 50, 80, 200));
    assert(table@ =~= body_surface_table());
    table
}

/// The colours of the single-image renderer's nine bodies, the sun first.
pub fn still_body_colours() -> (table: Vec<(usize, usize, usize)>)
    ensures
        table@ == still_colour_table(),
{
    let mut table: Vec<(usize, usize, usize)> = Vec::new();
    table.push((255, 220, 50));
    table.push((169, 169, 169));
    table.push((255, 210, 120));
    table.push((50, 120, 200));
    table.push((188, 74, 40));
    table.push((220, 165, 100));
    table.push((210, 185, 130));
    table.push((130, 210, 220));
    table.push((50, 80, 200));
    assert(table@ =~= still_colour_table());
    table
}

/// In the fly-through's scene the first body is the sun (the light source
/// the shader reads from the first body), no other body is, and every body
/// can be shaded; exactly one body takes the Earth texture and one the
/// Jupiter texture.
pub proof fn lemma_body_table_sun_first()
    ensures
        body_surface_table().len() == 9,
        body_surface_table()[0].material == Material::Sun,
        forall|i: int|
            1 <= i < 9 ==> (#[trigger] body_surface_table()[i]).material != Material::Sun,
        forall|i: int| 0 <= i < 9 ==> shadeable(#[trigger] body_surface_table()[i]),
        forall|i: int|
            0 <= i < 9 && (#[trigger] body_surface_table()[i]).material == Material::Earth ==> i
                == 3,
        forall|i: int|
            0 <= i < 9 && (#[trigger] body_surface_table()[i]).material == Material::Jupiter ==> i
                == 5,
{
}

/// In the single-image renderer, which finds the sun by its colours, the
/// first body and only the first body has the sun's colours, so exactly the
/// sun takes the limb path and every other body is shaded flat with its own
/// colours.
pub proof fn lemma_still_table_sun_first()
    ensures
        still_colour_table().len() == 9,
        forall|i: int|
            0 <= i < 9 ==> (sun_colours(
                Some((#[trigger] still_colour_table()[i]).0),
                Some(still_colour_table()[i].1),
                Some(still_colour_table()[i].2),
            ) <==> i == 0),
{
}

/// Both renderers give the nine bodies the same colours, in the same order.
pub proof fn lemma_tables_agree_on_colours()
    ensures
        forall|i: int|
            0 <= i < 9 ==> {
                let s = #[trigger] body_surface_table()[i];
                let c = still_colour_table()[i];
                s.red == Some(c.0) && s.green == Some(c.1) && s.blue == Some(c.2)
            },
{
}

/// In the single-image renderer a sphere takes the limb-darkening path
/// exactly when its colours are the sun's, (255, 220, 50); every other sphere
/// is shaded flat with its own three channels. A single matching channel
/// (say a red of 255) is not enough.
pub proof fn lemma_shading_by_colours_characterised(
    red: Option<usize>,
    green: Option<usize>,
    blue: Option<usize>,
)
    ensures
        shading_by_colours(red, green, blue) == Shading::SunLimb <==> (red == Some(255usize)
            && green == Some(220usize) && blue == Some(50usize)),
        !(red == Some(255usize) && green == Some(220usize) && blue == Some(50usize))
            ==> shading_by_colours(red, green, blue) == Shading::Flat(
            red->0,
            green->0,
            blue->0,
        ),
        sun_colours(red, green, blue) <==> (red == Some(255usize) && green == Some(220usize)
            && blue == Some(50usize)),
{
}

/// Each material has its own shading path in the fly-through renderer: the
/// sun its limb darkening, Earth and Jupiter their textures, and a solid
/// body a flat shade of its own colours; no two materials share a path.
pub proof fn lemma_shading_by_material(s: Surface)
    ensures
        s.material == Material::Sun ==> shading_of(s) == Shading::SunLimb,
        s.material == Material::Earth ==> shading_of(s) == Shading::EarthTexture,
        s.material == Material::Jupiter ==> shading_of(s) == Shading::JupiterTexture,
        s.material == Material::Solid ==> shading_of(s) == Shading::Flat(
            s.red->0,
            s.green->0,
            s.blue->0,
        ),
{
}

/// The nine bodies' colours in scene order: the sun (255, 220, 50),
/// Mercury (169, 169, 169), Venus (255, 210, 120), Earth (50, 120, 200),
/// Mars (188, 74, 40), Jupiter (220, 165, 100), Saturn (210, 185, 130),
/// Uranus (130, 210, 220) and Neptune (50, 80, 200); the same in both
/// renderers.
pub proof fn lemma_body_colours()
    ensures
        still_colour_table().len() == 9,
        still_colour_table()[0] == (255usize, 220usize, 50usize),
        still_colour_table()[1] == (169usize, 169usize, 169usize),
        still_colour_table()[2] == (255usize, 210usize, 120usize),
        still_colour_table()[3] == (50usize, 120usize, 200usize),
        still_colour_table()[4] == (188usize, 74usize, 40usize),
        still_colour_table()[5] == (220usize, 165usize, 100usize),
        still_colour_table()[6] == (210usize, 185usize, 130usize),
        still_colour_table()[7] == (130usize, 210usize, 220usize),
        still_colour_table()[8] == (50usize, 80usize, 200usize),
        body_surface_table().len() == 9,
        forall|i: int|
            0 <= i < 9 ==> {
                let s = #[trigger] body_surface_table()[i];
                let c = still_colour_table()[i];
                s.red == Some(c.0) && s.green == Some(c.1) && s.blue == Some(c.2)
            },
{
}

/// The nine bodies' materials in the fly-through's scene order: the sun,
/// Mercury, Venus solid, Earth, Mars solid, Jupiter, then Saturn, Uranus and
/// Neptune solid.
pub proof fn lemma_body_materials()
    ensures
        body_surface_table()[0].material == Material::Sun,
        body_surface_table()[1].material == Material::Solid,
        body_surface_table()[2].material == Material::Solid,
        body_surface_table()[3].material == Material::Earth,
        body_surface_table()[4].material == Material::Solid,
        body_surface_table()[5].material == Material::Jupiter,
        body_surface_table()[6].material == Material::Solid,
        body_surface_table()[7].material == Material::Solid,
        body_surface_table()[8].material == Material::Solid,
{
}

/// In the single-image renderer the sun (the first body) takes the limb
/// path and every other body is shaded flat with its own colours: Venus, whose
/// red channel is the sun's, is not a second sun.
pub proof fn lemma_still_bodies_shading()
    ensures
        shading_by_colours(Some(255usize), Some(220usize), Some(50usize)) == Shading::SunLimb,
        forall|i: int|
            1 <= i < 9 ==> shading_by_colours(
                Some((#[trigger] still_colour_table()[i]).0),
                Some(still_colour_table()[i].1),
                Some(still_colour_table()[i].2),
            ) == Shading::Flat(
                still_colour_table()[i].0,
                still_colour_table()[i].1,
                still_colour_table()[i].2,
            ),
        shading_by_colours(Some(255usize), Some(210usize), Some(120usize)) == Shading::Flat(
            255,
            210,
            120,
        ),
{
    lemma_body_colours();
    assert forall|i: int| 1 <= i < 9 implies shading_by_colours(
        Some((#[trigger] still_colour_table()[i]).0),
        Some(still_colour_table()[i].1),
        Some(still_colour_table()[i].2),
    ) == Shading::Flat(
        still_colour_table()[i].0,
        still_colour_table()[i].1,
        still_colour_table()[i].2,
    ) by {
        lemma_shading_by_colours_characterised(
            Some(still_colour_table()[i].0),
            Some(still_colour_table()[i].1),
            Some(still_colour_table()[i].2),
        );
    }
    lemma_shading_by_colours_characterised(Some(255usize), Some(210usize), Some(120usize));
}

} // verus!
