//! Ready-made missions.

use vstd::prelude::*;

use crate::mission::Mission;
use crate::stage::StageBuilder;
use crate::vec3::Vec3;

verus! {

/// The two-stage "Pathfinder" sounding rocket: a 40 kg / 25 kg booster at
/// 5 kN under a 8 kg / 6 kg sustainer at 1.2 kN.
pub fn pathfinder() -> (r: Mission)
    ensures
        r.stages@.len() == 2,
        r.stages@[0].dry_mass == 40_000_000i64,
        r.stages@[0].propellant_mass == 25_000_000i64,
        r.stages@[0].thrust == 5_000_000_000i64,
        r.stages@[0].isp == 220_000_000i64,
        r.stages@[0].cd == 350_000i64,
        r.stages@[0].area == 20_000i64,
        r.stages@[0].inertia == (Vec3 { x: 20_000_000, y: 20_000_000, z: 2_000_000 }),
        r.stages@[0].nozzle_offset == 1_500_000i64,
        r.stages@[0].cp_offset == 400_000i64,
        r.stages@[0].tvc_max == 100_000i64,
        r.stages@[1].dry_mass == 8_000_000i64,
        r.stages@[1].propellant_mass == 6_000_000i64,
        r.stages@[1].thrust == 1_200_000_000i64,
        r.stages@[1].isp == 250_000_000i64,
        r.stages@[1].cd == 280_000i64,
        r.stages@[1].area == 8_000i64,
        r.stages@[1].inertia == (Vec3 { x: 2_000_000, y: 2_000_000, z: 200_000 }),
        r.stages@[1].nozzle_offset == 600_000i64,
        r.stages@[1].cp_offset == 250_000i64,
        r.stages@[1].tvc_max == 80_000i64,
        crate::mission::spec_mission_wf(r),
{
    let booster = StageBuilder::new("S1-Booster".to_string())
        .dry_mass(40_000_000)
        .propellant_mass(25_000_000)
        .thrust(5_000_000_000)
        .isp(220_000_000)
        .cd(350_000)
        .area(20_000)
        .inertia(Vec3 { x: 20_000_000, y: 20_000_000, z: 2_000_000 })
        .nozzle_offset(1_500_000)
        .cp_offset(400_000)
        .tvc_max(100_000)
        .build();
    let sustainer = StageBuilder::new("S2-Sustainer".to_string())
        .dry_mass(8_000_000)
        .propellant_mass(6_000_000)
        .thrust(1_200_000_000)
        .isp(250_000_000)
        .cd(280_000)
        .area(8_000)
        .inertia(Vec3 { x: 2_000_000, y: 2_000_000, z: 200_000 })
        .nozzle_offset(600_000)
        .cp_offset(250_000)
        .tvc_max(80_000)
        .build();
    let mut stages: Vec<crate::stage::Stage> = Vec::new();
    stages.push(booster);
    stages.push(sustainer);
    Mission { name: "Pathfinder".to_string(), stages }
}

} // verus!
