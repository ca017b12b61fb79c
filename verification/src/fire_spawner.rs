//! The rules of the fire spawner that do not depend on the engine: a value that is set
//! once its node is ready, which parts the spawner still lacks, and whether a spawner
//! node is an instance inside another scene.

use vstd::prelude::*;

use crate::text::same_text;
use vstd::string::StrSliceExecFns;

verus! {

/// A value that is only there once its node is ready.
#[derive(Debug)]
pub struct OnReady<T>(Option<T>);

impl<T> View for OnReady<T> {
    type V = Option<T>;

    closed spec fn view(&self) -> Option<T> {
        self.0
    }
}

impl<T> Default for OnReady<T> {
    /// Not yet set.
    fn default() -> (r: Self)
        ensures
            r@ is None,
    {
        OnReady(None)
    }
}

impl<T> OnReady<T> {
    /// Sets the value.
    pub fn init(&mut self, value: T)
        ensures
            final(self)@ == Some(value),
    {
        self.0 = Some(value);
    }

    /// The value, once it is set.
    pub fn get(&self) -> (r: &T)
        requires
            self@ is Some,
        ensures
            *r == self@->0,
        decreases 0nat,
    {
        match &self.0 {
            Some(v) => v,
            None => {
                assert(false);
                self.get()
            },
        }
    }
}

/// Which of the nodes and textures of a fire spawner are assigned.
#[derive(Clone, Copy, Debug)]
pub struct FireSpawnerParts {
    pub fire: bool,
    pub smoke: bool,
    pub light_source: bool,
    pub emission_points: bool,
    pub emission_point_normals: bool,
    pub fire_sound: bool,
}

/// The warning for each part, in order, where the part is missing.
pub open spec fn part_warnings(p: FireSpawnerParts) -> Seq<Seq<char>> {
    (if p.fire { seq![] } else { seq!["Requires a GpuParticles3D node for the fire vfx"@] }) + (if p.smoke {
        seq![]
    } else {
        seq!["Requires a GpuParticles3D node for the smoke vfx"@]
    }) + (if p.light_source {
        seq![]
    } else {
        seq!["A light source must be assigned"@]
    }) + (if p.emission_points {
        seq![]
    } else {
        seq!["Emission points texture must be assinged"@]
    }) + (if p.emission_point_normals {
        seq![]
    } else {
        seq!["Emission point normals texture must be assinged"@]
    }) + (if p.fire_sound {
        seq![]
    } else {
        seq!["Fire audio source must be assigned"@]
    })
}

/// The views of a list of texts.
pub open spec fn texts(v: Seq<&'static str>) -> Seq<Seq<char>> {
    v.map_values(|t: &'static str| t@)
}

fn warn_unless(warnings: &mut Vec<&'static str>, present: bool, message: &'static str)
    ensures
        texts(final(warnings)@) == texts(old(warnings)@) + (if present {
            seq![]
        } else {
            seq![message@]
        }),
{
    let ghost before = warnings@;
    if !present {
        warnings.push(message);
        assert(texts(warnings@) =~= texts(before) + seq![message@]);
    } else {
        assert(texts(warnings@) =~= texts(before) + Seq::<Seq<char>>::empty());
    }
}

/// The warnings that the editor shows for a fire spawner: one for each missing part.
pub fn configuration_warnings(parts: FireSpawnerParts) -> (r: Vec<&'static str>)
    ensures
        texts(r@) == part_warnings(parts),
{
    let mut warnings: Vec<&'static str> = Vec::new();
    assert(texts(warnings@) =~= Seq::<Seq<char>>::empty());
    warn_unless(&mut warnings, parts.fire, "Requires a GpuParticles3D node for the fire vfx");
    warn_unless(&mut warnings, parts.smoke, "Requires a GpuParticles3D node for the smoke vfx");
    warn_unless(&mut warnings, parts.light_source, "A light source must be assigned");
    warn_unless(&mut warnings, parts.emission_points, "Emission points texture must be assinged");
    warn_unless(
        &mut warnings,
        parts.emission_point_normals,
        "Emission point normals texture must be assinged",
    );
    warn_unless(&mut warnings, parts.fire_sound, "Fire audio source must be assigned");
    assert(texts(warnings@) =~= part_warnings(parts));
    warnings
}

/// The parts that the spawner needs before it can start in the editor are assigned: the
/// fire, the smoke, both emission textures and the sound.
pub open spec fn editor_ready(p: FireSpawnerParts) -> bool {
    p.fire && p.smoke && p.emission_points && p.emission_point_normals && p.fire_sound
}

/// Whether a spawner in the editor lacks a part it needs to start.
pub fn lacks_editor_parts(parts: FireSpawnerParts) -> (r: bool)
    ensures
        r == !editor_ready(parts),
{
    !(parts.fire && parts.smoke && parts.emission_points && parts.emission_point_normals
        && parts.fire_sound)
}

/// A spawner node is an instance when it comes from no scene file of its own or from
/// another one than the scene at the root.
pub fn is_instance(own_scene_path: &str, root_scene_path: &str) -> (r: bool)
    ensures
        r == (own_scene_path@.len() == 0 || own_scene_path@ != root_scene_path@),
{
    own_scene_path.unicode_len() == 0 || !same_text(own_scene_path, root_scene_path)
}

} // verus!
