//! The entity records of the registry, the query filters, and the dashboard
//! aggregates. Records are flat values with integer identities and optional
//! foreign references; absent optional text is `None`, never an empty-string
//! stand-in.

use vstd::prelude::*;
use crate::dates::Date;

verus! {

/// Connection parameters for the backing relational store.
#[derive(Debug, Clone)]
pub struct DatabaseConfig {
    pub host: String,
    pub port: u16,
    pub username: String,
    pub password: String,
    pub database: String,
}

impl Default for DatabaseConfig {
    fn default() -> (r: Self)
        ensures
            r.host@ == "localhost"@,
            r.port == 5432,
            r.username@ == "postgres"@,
            r.password@.len() == 0,
            r.database@ == "comunidad"@,
    {
        DatabaseConfig {
            host: String::from_str("localhost"),
            port: 5432,
            username: String::from_str("postgres"),
            password: String::new(),
            database: String::from_str("comunidad"),
        }
    }
}

/// A district grouping neighborhood units.
#[derive(Debug, Clone)]
pub struct MacroSector {
    pub mac_id: i32,
    pub mac_nombre: String,
}

/// The smallest geographic subdivision; carries its macro sector's display
/// name when a read joins it in.
#[derive(Debug, Clone)]
pub struct UnidadVecinal {
    pub uv_id: i32,
    pub uv_nombre: String,
    pub uv_macid: i32,
    pub mac_nombre: Option<String>,
}

#[derive(Debug, Clone)]
pub struct Genero {
    pub gen_id: i32,
    pub gen_genero: String,
}

#[derive(Debug, Clone)]
pub struct Nacionalidad {
    pub nac_id: i32,
    pub nac_nacionalidad: String,
}

/// A community organization record.
#[derive(Debug, Clone)]
pub struct OrganizacionComunitaria {
    pub org_id: i32,
    pub org_nombre: String,
    pub org_direccion: String,
    pub org_uvid: i32,
    pub org_fechaconst: Date,
    pub org_perjuridica: String,
    pub org_email: Option<String>,
    pub uv_nombre: Option<String>,
}

/// An elderly-resident record.
#[derive(Debug, Clone)]
pub struct PersonaMayor {
    pub per_id: i32,
    pub per_rut: String,
    pub per_prinombre: String,
    pub per_segnombre: Option<String>,
    pub per_priapellido: String,
    pub per_segapellido: Option<String>,
    pub per_genid: i32,
    pub per_nacid: i32,
    pub per_fechadenac: Date,
    pub per_direccion: String,
    pub per_email: Option<String>,
    pub per_uvid: i32,
    pub gen_genero: Option<String>,
    pub nac_nacionalidad: Option<String>,
    pub uv_nombre: Option<String>,
}

#[derive(Debug, Clone)]
pub struct Taller {
    pub tal_id: i32,
    pub tal_nombre: String,
}

/// A community activity, scoped to a neighborhood unit.
#[derive(Debug, Clone)]
pub struct Actividad {
    pub act_id: i32,
    pub act_nombre: String,
    pub act_uvid: i32,
    pub act_fecha_ini: Date,
    pub act_fecha_fin: Option<Date>,
    pub act_descripcion: Option<String>,
    pub uv_nombre: Option<String>,
}

/// A trip record; declared but not yet wired to live queries.
#[derive(Debug, Clone)]
pub struct Viaje {
    pub via_id: i32,
    pub via_nombre: String,
    pub via_destino: String,
    pub via_fecha_salida: Date,
    pub via_fecha_regreso: Option<Date>,
    pub via_uvid: i32,
    pub uv_nombre: Option<String>,
}

#[derive(Debug, Clone)]
pub struct Beneficio {
    pub ben_id: i32,
    pub ben_codigo: String,
    pub ben_descripcion: String,
}

#[derive(Debug, Clone)]
pub struct CentroComunitario {
    pub cen_id: i32,
    pub cen_nombre: String,
    pub cen_direccion: String,
    pub cen_uvid: i32,
    pub uv_nombre: Option<String>,
}

#[derive(Debug, Clone)]
pub struct Telefono {
    pub id: i32,
    pub entity_id: i32,
    pub tipo: String,
    pub numero: String,
}

/// Person-query filter; an absent field means no constraint.
#[derive(Debug, Clone)]
pub struct PersonaFilter {
    pub nombre: String,
    pub apellido: String,
    pub rut: String,
    pub genero_id: Option<i32>,
    pub nacionalidad_id: Option<i32>,
    pub unidad_vecinal_id: Option<i32>,
    pub macro_sector_id: Option<i32>,
    pub edad_min: Option<i32>,
    pub edad_max: Option<i32>,
}

impl Default for PersonaFilter {
    fn default() -> (r: Self)
        ensures
            r.nombre@.len() == 0,
            r.apellido@.len() == 0,
            r.rut@.len() == 0,
            r.genero_id is None,
            r.nacionalidad_id is None,
            r.unidad_vecinal_id is None,
            r.macro_sector_id is None,
            r.edad_min is None,
            r.edad_max is None,
    {
        PersonaFilter {
            nombre: String::new(),
            apellido: String::new(),
            rut: String::new(),
            genero_id: None,
            nacionalidad_id: None,
            unidad_vecinal_id: None,
            macro_sector_id: None,
            edad_min: None,
            edad_max: None,
        }
    }
}

/// Organization-query filter; an absent field means no constraint.
#[derive(Debug, Clone)]
pub struct OrganizacionFilter {
    pub nombre: String,
    pub unidad_vecinal_id: Option<i32>,
    pub macro_sector_id: Option<i32>,
    pub fecha_const_desde: Option<Date>,
    pub fecha_const_hasta: Option<Date>,
}

impl Default for OrganizacionFilter {
    fn default() -> (r: Self)
        ensures
            r.nombre@.len() == 0,
            r.unidad_vecinal_id is None,
            r.macro_sector_id is None,
            r.fecha_const_desde is None,
            r.fecha_const_hasta is None,
    {
        OrganizacionFilter {
            nombre: String::new(),
            unidad_vecinal_id: None,
            macro_sector_id: None,
            fecha_const_desde: None,
            fecha_const_hasta: None,
        }
    }
}

/// Activity-query filter; an absent field means no constraint.
#[derive(Debug, Clone)]
pub struct ActividadFilter {
    pub nombre: String,
    pub unidad_vecinal_id: Option<i32>,
    pub macro_sector_id: Option<i32>,
    pub fecha_desde: Option<Date>,
    pub fecha_hasta: Option<Date>,
}

impl Default for ActividadFilter {
    fn default() -> (r: Self)
        ensures
            r.nombre@.len() == 0,
            r.unidad_vecinal_id is None,
            r.macro_sector_id is None,
            r.fecha_desde is None,
            r.fecha_hasta is None,
    {
        ActividadFilter {
            nombre: String::new(),
            unidad_vecinal_id: None,
            macro_sector_id: None,
            fecha_desde: None,
            fecha_hasta: None,
        }
    }
}

/// Aggregate counts shown on the dashboard; recomputed on demand, never
/// persisted. The per-macro-sector breakdown and the monthly aggregates are
/// placeholders that stay empty and zero.
#[derive(Debug, Clone)]
pub struct DashboardStats {
    pub total_personas: i64,
    pub total_organizaciones: i64,
    pub total_actividades: i64,
    pub total_viajes: i64,
    pub personas_por_macro: Vec<(String, i64)>,
    pub actividades_mes_actual: i64,
    pub nuevas_personas_mes: i64,
}

impl Default for DashboardStats {
    fn default() -> (r: Self)
        ensures
            r.total_personas == 0,
            r.total_organizaciones == 0,
            r.total_actividades == 0,
            r.total_viajes == 0,
            r.personas_por_macro@.len() == 0,
            r.actividades_mes_actual == 0,
            r.nuevas_personas_mes == 0,
    {
        DashboardStats {
            total_personas: 0,
            total_organizaciones: 0,
            total_actividades: 0,
            total_viajes: 0,
            personas_por_macro: Vec::new(),
            actividades_mes_actual: 0,
            nuevas_personas_mes: 0,
        }
    }
}

pub(crate) fn clone_opt_string(o: &Option<String>) -> (r: Option<String>)
    ensures
        r == *o,
{
    match o {
        Some(s) => Some(s.clone()),
        None => None,
    }
}

pub fn clone_persona_filter(f: &PersonaFilter) -> (r: PersonaFilter)
    ensures
        r == *f,
{
    PersonaFilter {
        nombre: f.nombre.clone(),
        apellido: f.apellido.clone(),
        rut: f.rut.clone(),
        genero_id: f.genero_id,
        nacionalidad_id: f.nacionalidad_id,
        unidad_vecinal_id: f.unidad_vecinal_id,
        macro_sector_id: f.macro_sector_id,
        edad_min: f.edad_min,
        edad_max: f.edad_max,
    }
}

pub fn clone_organizacion_filter(f: &OrganizacionFilter) -> (r: OrganizacionFilter)
    ensures
        r == *f,
{
    OrganizacionFilter {
        nombre: f.nombre.clone(),
        unidad_vecinal_id: f.unidad_vecinal_id,
        macro_sector_id: f.macro_sector_id,
        fecha_const_desde: f.fecha_const_desde,
        fecha_const_hasta: f.fecha_const_hasta,
    }
}

pub fn clone_actividad_filter(f: &ActividadFilter) -> (r: ActividadFilter)
    ensures
        r == *f,
{
    ActividadFilter {
        nombre: f.nombre.clone(),
        unidad_vecinal_id: f.unidad_vecinal_id,
        macro_sector_id: f.macro_sector_id,
        fecha_desde: f.fecha_desde,
        fecha_hasta: f.fecha_hasta,
    }
}

} // verus!
