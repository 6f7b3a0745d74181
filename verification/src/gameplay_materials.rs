use vstd::prelude::*;

verus! {

/// The gameplay material of a sandbox body; it decides its physical defaults and
/// how easily it breaks.
#[derive(Clone, Copy, Debug, PartialEq, Eq, Structural)]
pub enum GameplayMaterial {
    Wood,
    Ceramic,
    Stone,
    Metal,
    Glass,
}

/// The defaults a material gives a body, each in thousandths of the value the physics
/// engine takes (a friction of 650 is a coefficient of 0.65), so that they are exact.
#[derive(Clone, Copy, Debug, PartialEq, Eq, Structural)]
pub struct GameplayMaterialDefaults {
    pub density: u32,
    pub friction: u32,
    pub restitution: u32,
    pub break_threshold: u32,
    pub wind_response: u32,
}

/// The materials in their usual order.
pub open spec fn materials_spec() -> Seq<GameplayMaterial> {
    seq![
        GameplayMaterial::Wood,
        GameplayMaterial::Ceramic,
        GameplayMaterial::Stone,
        GameplayMaterial::Metal,
        GameplayMaterial::Glass,
    ]
}

/// The table of material defaults, in thousandths.
pub open spec fn defaults_spec(material: GameplayMaterial) -> GameplayMaterialDefaults {
    match material {
        GameplayMaterial::Wood => GameplayMaterialDefaults {
            density: 700,
            friction: 650,
            restitution: 150,
            break_threshold: 35000,
            wind_response: 1000,
        },
        GameplayMaterial::Ceramic => GameplayMaterialDefaults {
            density: 2400,
            friction: 450,
            restitution: 100,
            break_threshold: 18000,
            wind_response: 250,
        },
        GameplayMaterial::Stone => GameplayMaterialDefaults {
            density: 2600,
            friction: 800,
            restitution: 50,
            break_threshold: 90000,
            wind_response: 100,
        },
        GameplayMaterial::Metal => GameplayMaterialDefaults {
            density: 7800,
            friction: 350,
            restitution: 200,
            break_threshold: 120000,
            wind_response: 50,
        },
        GameplayMaterial::Glass => GameplayMaterialDefaults {
            density: 2500,
            friction: 300,
            restitution: 250,
            break_threshold: 8000,
            wind_response: 200,
        },
    }
}

/// Physically meaningful defaults: positive density and break threshold, a restitution
/// between zero and one.
pub open spec fn physical_defaults(d: GameplayMaterialDefaults) -> bool {
    &&& d.density > 0
    &&& d.restitution <= 1000
    &&& d.break_threshold > 0
}

impl GameplayMaterial {
    pub open spec fn name_spec(self) -> Seq<char> {
        match self {
            GameplayMaterial::Wood => "Wood"@,
            GameplayMaterial::Ceramic => "Ceramic"@,
            GameplayMaterial::Stone => "Stone"@,
            GameplayMaterial::Metal => "Metal"@,
            GameplayMaterial::Glass => "Glass"@,
        }
    }

    /// Every material, in the usual order.
    pub fn all() -> (materials: Vec<GameplayMaterial>)
        ensures
            materials@ == materials_spec(),
    {
        let materials = vec![
            GameplayMaterial::Wood,
            GameplayMaterial::Ceramic,
            GameplayMaterial::Stone,
            GameplayMaterial::Metal,
            GameplayMaterial::Glass,
        ];
        proof {
            assert(materials@ =~= materials_spec());
        }
        materials
    }

    /// The physical and gameplay defaults of the material.
    pub fn defaults(self) -> (defaults: GameplayMaterialDefaults)
        ensures
            defaults == defaults_spec(self),
            physical_defaults(defaults),
    {
        match self {
            GameplayMaterial::Wood => GameplayMaterialDefaults {
                density: 700,
                friction: 650,
                restitution: 150,
                break_threshold: 35000,
                wind_response: 1000,
            },
            GameplayMaterial::Ceramic => GameplayMaterialDefaults {
                density: 2400,
                friction: 450,
                restitution: 100,
                break_threshold: 18000,
                wind_response: 250,
            },
            GameplayMaterial::Stone => GameplayMaterialDefaults {
                density: 2600,
                friction: 800,
                restitution: 50,
                break_threshold: 90000,
                wind_response: 100,
            },
            GameplayMaterial::Metal => GameplayMaterialDefaults {
                density: 7800,
                friction: 350,
                restitution: 200,
                break_threshold: 120000,
                wind_response: 50,
            },
            GameplayMaterial::Glass => GameplayMaterialDefaults {
                density: 2500,
                friction: 300,
                restitution: 250,
                break_threshold: 8000,
                wind_response: 200,
            },
        }
    }
}

/// Every material has physically meaningful defaults.
pub proof fn lemma_all_defaults_are_physical(material: GameplayMaterial)
    ensures
        physical_defaults(defaults_spec(material)),
{
}

/// No two materials share a break threshold, so identical bodies of different
/// materials break under different impacts.
pub proof fn lemma_break_thresholds_are_distinct(a: GameplayMaterial, b: GameplayMaterial)
    requires
        a != b,
    ensures
        defaults_spec(a).break_threshold != defaults_spec(b).break_threshold,
{
}

/// The material's display name.
pub fn material_kind_name(material: GameplayMaterial) -> (name: &'static str)
    ensures
        name@ == material.name_spec(),
{
    match material {
        GameplayMaterial::Wood => "Wood",
        GameplayMaterial::Ceramic => "Ceramic",
        GameplayMaterial::Stone => "Stone",
        GameplayMaterial::Metal => "Metal",
        GameplayMaterial::Glass => "Glass",
    }
}

} // verus!
