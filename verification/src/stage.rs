//! A single rocket stage: immutable configuration plus derived quantities.

use vstd::prelude::*;

use crate::fixed::{fx_add, fx_div, fx_mul, fxdiv, fxmul, sat64};
use crate::state::G0;
use crate::trig::{ln_fx, spec_ln};
use crate::vec3::Vec3;

verus! {

/// One stage of a multi-stage rocket. All quantities at fixed scale:
/// kilograms, newtons, seconds, metres, square metres, kilogram-square-metres.
#[derive(Debug, Clone)]
pub struct Stage {
    pub name: String,
    pub dry_mass: i64,
    pub propellant_mass: i64,
    /// Rated thrust, N.
    pub thrust: i64,
    /// Specific impulse, s.
    pub isp: i64,
    /// Drag coefficient (dimensionless).
    pub cd: i64,
    /// Aerodynamic reference area, m^2.
    pub area: i64,
    /// Principal moments of inertia about the body axes, kg m^2.
    pub inertia: Vec3,
    /// Distance from the centre of gravity to the nozzle, m (nozzle behind).
    pub nozzle_offset: i64,
    /// Distance from the centre of gravity to the centre of pressure, m
    /// (positive: CP ahead, statically stable).
    pub cp_offset: i64,
    /// Maximum gimbal deflection, rad.
    pub tvc_max: i64,
}

/// Wet mass of the stage.
pub open spec fn spec_total_mass(st: Stage) -> int {
    sat64(st.dry_mass + st.propellant_mass)
}

/// Propellant mass flow at rated thrust: `thrust / (isp * g0)`.
pub open spec fn spec_mass_flow(st: Stage) -> int {
    fxdiv(st.thrust as int, fxmul(st.isp as int, G0 as int))
}

/// Burn time implied by propellant load and mass flow.
pub open spec fn spec_burn_time(st: Stage) -> int {
    if st.thrust > 0 {
        fxdiv(st.propellant_mass as int, spec_mass_flow(st))
    } else {
        0
    }
}

/// Ideal velocity gain of this stage carrying `payload` (the rocket
/// equation).
pub open spec fn spec_stage_dv(st: Stage, payload: int) -> int {
    let m0 = sat64(spec_total_mass(st) + payload);
    let mf = sat64(st.dry_mass + payload);
    fxmul(fxmul(st.isp as int, G0 as int), spec_ln(fxdiv(m0, mf)))
}

/// The stage parameters a simulation run relies on: positive structural
/// mass and impulse, non-negative propellant, thrust, aerodynamics and
/// gimbal travel, positive principal inertias.
pub open spec fn spec_stage_wf(st: Stage) -> bool {
    &&& st.dry_mass > 0
    &&& st.propellant_mass >= 0
    &&& st.thrust >= 0
    &&& st.isp > 0
    &&& st.cd >= 0
    &&& st.area >= 0
    &&& st.inertia.x > 0
    &&& st.inertia.y > 0
    &&& st.inertia.z > 0
    &&& st.tvc_max >= 0
}

impl Stage {
    /// Propellant mass flow rate at rated thrust, kg/s.
    pub fn mass_flow(&self) -> (r: i64)
        ensures
            r as int == spec_mass_flow(*self),
    {
        fx_div(self.thrust, fx_mul(self.isp, G0))
    }

    /// Wet mass, kg.
    pub fn total_mass(&self) -> (r: i64)
        ensures
            r as int == spec_total_mass(*self),
    {
        fx_add(self.dry_mass, self.propellant_mass)
    }

    /// Burn time from propellant and mass flow, s; 0 for an unpowered stage.
    pub fn burn_time(&self) -> (r: i64)
        ensures
            r as int == spec_burn_time(*self),
    {
        if self.thrust > 0 {
            let mf: i64 = self.mass_flow();
            fx_div(self.propellant_mass, mf)
        } else {
            0
        }
    }

    /// Ideal delta-v with `payload` kg carried on top (rocket equation).
    pub fn delta_v(&self, payload_mass: i64) -> (r: i64)
        ensures
            r as int == spec_stage_dv(*self, payload_mass as int),
    {
        let m0: i64 = fx_add(self.total_mass(), payload_mass);
        let mf: i64 = fx_add(self.dry_mass, payload_mass);
        fx_mul(fx_mul(self.isp, G0), ln_fx(fx_div(m0, mf)))
    }
}

/// Step-wise construction of a `Stage` with sensible sounding-rocket
/// defaults. Every setter stores its argument unchanged, and `build` hands
/// every field back exactly as supplied.
pub struct StageBuilder {
    pub name: String,
    pub dry_mass: i64,
    pub propellant_mass: i64,
    pub thrust: i64,
    pub isp: i64,
    pub cd: i64,
    pub area: i64,
    pub inertia: Vec3,
    pub nozzle_offset: i64,
    pub cp_offset: i64,
    pub tvc_max: i64,
}

impl StageBuilder {
    /// Defaults: 10 kg dry, 5 kg propellant, 1 kN at 220 s, cd 0.3 over
    /// 0.01 m^2, inertia (5, 5, 0.5), nozzle 1 m behind, CP 0.3 m ahead,
    /// 0.1 rad of gimbal.
    pub fn new(name: String) -> (r: StageBuilder)
        ensures
            r.name == name,
            r.dry_mass == 10_000_000i64,
            r.propellant_mass == 5_000_000i64,
            r.thrust == 1_000_000_000i64,
            r.isp == 220_000_000i64,
            r.cd == 300_000i64,
            r.area == 10_000i64,
            r.inertia == (Vec3 { x: 5_000_000, y: 5_000_000, z: 500_000 }),
            r.nozzle_offset == 1_000_000i64,
            r.cp_offset == 300_000i64,
            r.tvc_max == 100_000i64,
    {
        StageBuilder {
            name,
            dry_mass: 10_000_000,
            propellant_mass: 5_000_000,
            thrust: 1_000_000_000,
            isp: 220_000_000,
            cd: 300_000,
            area: 10_000,
            inertia: Vec3 { x: 5_000_000, y: 5_000_000, z: 500_000 },
            nozzle_offset: 1_000_000,
            cp_offset: 300_000,
            tvc_max: 100_000,
        }
    }

    pub fn dry_mass(self, v: i64) -> (r: Self)
        ensures
            r == (StageBuilder { dry_mass: v, ..self }),
    {
        StageBuilder { dry_mass: v, ..self }
    }

    pub fn propellant_mass(self, v: i64) -> (r: Self)
        ensures
            r == (StageBuilder { propellant_mass: v, ..self }),
    {
        StageBuilder { propellant_mass: v, ..self }
    }

    pub fn thrust(self, v: i64) -> (r: Self)
        ensures
            r == (StageBuilder { thrust: v, ..self }),
    {
        StageBuilder { thrust: v, ..self }
    }

    pub fn isp(self, v: i64) -> (r: Self)
        ensures
            r == (StageBuilder { isp: v, ..self }),
    {
        StageBuilder { isp: v, ..self }
    }

    pub fn cd(self, v: i64) -> (r: Self)
        ensures
            r == (StageBuilder { cd: v, ..self }),
    {
        StageBuilder { cd: v, ..self }
    }

    pub fn area(self, v: i64) -> (r: Self)
        ensures
            r == (StageBuilder { area: v, ..self }),
    {
        StageBuilder { area: v, ..self }
    }

    pub fn inertia(self, v: Vec3) -> (r: Self)
        ensures
            r == (StageBuilder { inertia: v, ..self }),
    {
        StageBuilder { inertia: v, ..self }
    }

    pub fn nozzle_offset(self, v: i64) -> (r: Self)
        ensures
            r == (StageBuilder { nozzle_offset: v, ..self }),
    {
        StageBuilder { nozzle_offset: v, ..self }
    }

    pub fn cp_offset(self, v: i64) -> (r: Self)
        ensures
            r == (StageBuilder { cp_offset: v, ..self }),
    {
        StageBuilder { cp_offset: v, ..self }
    }

    pub fn tvc_max(self, v: i64) -> (r: Self)
        ensures
            r == (StageBuilder { tvc_max: v, ..self }),
    {
        StageBuilder { tvc_max: v, ..self }
    }

    /// Hand back every configured field, exactly as supplied.
    pub fn build(self) -> (r: Stage)
        ensures
            r.name == self.name,
            r.dry_mass == self.dry_mass,
            r.propellant_mass == self.propellant_mass,
            r.thrust == self.thrust,
            r.isp == self.isp,
            r.cd == self.cd,
            r.area == self.area,
            r.inertia == self.inertia,
            r.nozzle_offset == self.nozzle_offset,
            r.cp_offset == self.cp_offset,
            r.tvc_max == self.tvc_max,
    {
        Stage {
            name: self.name,
            dry_mass: self.dry_mass,
            propellant_mass: self.propellant_mass,
            thrust: self.thrust,
            isp: self.isp,
            cd: self.cd,
            area: self.area,
            inertia: self.inertia,
            nozzle_offset: self.nozzle_offset,
            cp_offset: self.cp_offset,
            tvc_max: self.tvc_max,
        }
    }
}

} // verus!
