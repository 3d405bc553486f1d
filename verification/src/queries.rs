//! The query screen controller: the selected query kind, the filters, the
//! last result set per kind, the filter catalogs, and the polling protocol
//! for at most one outstanding query.

use vstd::prelude::*;
use crate::models::{
    PersonaMayor, OrganizacionComunitaria, Actividad, Viaje, Genero, Nacionalidad, UnidadVecinal,
    MacroSector, PersonaFilter, OrganizacionFilter, ActividadFilter, clone_persona_filter,
    clone_organizacion_filter, clone_actividad_filter,
};
use crate::store::{
    DatabaseManager, personas_query_result, organizaciones_query_result, actividades_query_result,
};

verus! {

/// The entity kind a query runs over.
#[derive(Debug, Clone, Copy, PartialEq, Eq, Structural)]
pub enum QueryType {
    Personas,
    Organizaciones,
    Actividades,
    Viajes,
}

/// One query's aggregate outcome.
#[derive(Debug)]
pub enum QueryResult {
    Personas(Vec<PersonaMayor>),
    Organizaciones(Vec<OrganizacionComunitaria>),
    Actividades(Vec<Actividad>),
    Viajes(Vec<Viaje>),
}

/// A query for the background runner to perform: which kind, under which
/// filters, and whether to prove the connection first.
pub struct QueryRequest {
    pub seq: u64,
    pub kind: QueryType,
    pub persona_filter: PersonaFilter,
    pub organizacion_filter: OrganizacionFilter,
    pub actividad_filter: ActividadFilter,
    pub check_connection: bool,
}

/// Query screen state.
pub struct QueriesView {
    pub query_type: QueryType,
    pub persona_filter: PersonaFilter,
    pub organizacion_filter: OrganizacionFilter,
    pub actividad_filter: ActividadFilter,
    pub personas_results: Vec<PersonaMayor>,
    pub organizaciones_results: Vec<OrganizacionComunitaria>,
    pub actividades_results: Vec<Actividad>,
    pub viajes_results: Vec<Viaje>,
    pub generos: Vec<Genero>,
    pub nacionalidades: Vec<Nacionalidad>,
    pub unidades_vecinales: Vec<UnidadVecinal>,
    pub macro_sectores: Vec<MacroSector>,
    pub loading: bool,
    pub catalogs_loaded: bool,
    pub pending: Option<u64>,
    pub next_seq: u64,
}

impl QueriesView {
    /// A fresh query screen: person queries selected, nothing loaded, no
    /// query issued yet.
    pub fn new() -> (r: Self)
        ensures
            r.query_type == QueryType::Personas,
            r.personas_results@.len() == 0,
            r.organizaciones_results@.len() == 0,
            r.actividades_results@.len() == 0,
            r.viajes_results@.len() == 0,
            r.generos@.len() == 0,
            !r.loading,
            !r.catalogs_loaded,
            r.pending is None,
            r.next_seq == 1,
    {
        QueriesView {
            query_type: QueryType::Personas,
            persona_filter: PersonaFilter::default(),
            organizacion_filter: OrganizacionFilter::default(),
            actividad_filter: ActividadFilter::default(),
            personas_results: Vec::new(),
            organizaciones_results: Vec::new(),
            actividades_results: Vec::new(),
            viajes_results: Vec::new(),
            generos: Vec::new(),
            nacionalidades: Vec::new(),
            unidades_vecinales: Vec::new(),
            macro_sectores: Vec::new(),
            loading: false,
            catalogs_loaded: false,
            pending: None,
            next_seq: 1,
        }
    }

    /// Seeds the filter catalogs with the built-in demonstration rows.
    pub fn load_catalogs(&mut self)
        ensures
            final(self).catalogs_loaded,
            final(self).generos@.len() == 3,
            final(self).generos@[0].gen_id == 1 && final(self).generos@[0].gen_genero@
                == "Masculino"@,
            final(self).generos@[1].gen_id == 2 && final(self).generos@[1].gen_genero@
                == "Femenino"@,
            final(self).generos@[2].gen_id == 3 && final(self).generos@[2].gen_genero@ == "Otro"@,
            final(self).nacionalidades@.len() == 3,
            final(self).nacionalidades@[0].nac_id == 1 && final(self).nacionalidades@[0].nac_nacionalidad@ == "Chilena"@,
            final(self).nacionalidades@[1].nac_id == 2 && final(self).nacionalidades@[1].nac_nacionalidad@ == "Peruana"@,
            final(self).nacionalidades@[2].nac_id == 3 && final(self).nacionalidades@[2].nac_nacionalidad@ == "Boliviana"@,
            final(self).macro_sectores@.len() == 3,
            final(self).macro_sectores@[0].mac_id == 1 && final(self).macro_sectores@[0].mac_nombre@ == "Centro"@,
            final(self).macro_sectores@[1].mac_id == 2 && final(self).macro_sectores@[1].mac_nombre@ == "Norte"@,
            final(self).macro_sectores@[2].mac_id == 3 && final(self).macro_sectores@[2].mac_nombre@
                == "Sur"@,
            final(self).unidades_vecinales@.len() == 3,
            final(self).unidades_vecinales@[0].uv_id == 1 && final(self).unidades_vecinales@[0].uv_macid == 1,
            final(self).unidades_vecinales@[1].uv_id == 2 && final(self).unidades_vecinales@[1].uv_macid == 2,
            final(self).unidades_vecinales@[2].uv_id == 3 && final(self).unidades_vecinales@[2].uv_macid == 3,
            final(self).query_type == old(self).query_type,
            final(self).personas_results == old(self).personas_results,
            final(self).organizaciones_results == old(self).organizaciones_results,
            final(self).actividades_results == old(self).actividades_results,
            final(self).viajes_results == old(self).viajes_results,
            final(self).loading == old(self).loading,
            final(self).pending == old(self).pending,
            final(self).next_seq == old(self).next_seq,
    {
        self.catalogs_loaded = true;
        let mut generos: Vec<Genero> = Vec::new();
        generos.push(Genero { gen_id: 1, gen_genero: String::from_str("Masculino") });
        generos.push(Genero { gen_id: 2, gen_genero: String::from_str("Femenino") });
        generos.push(Genero { gen_id: 3, gen_genero: String::from_str("Otro") });
        self.generos = generos;
        let mut nacionalidades: Vec<Nacionalidad> = Vec::new();
        nacionalidades.push(Nacionalidad { nac_id: 1, nac_nacionalidad: String::from_str("Chilena") });
        nacionalidades.push(Nacionalidad { nac_id: 2, nac_nacionalidad: String::from_str("Peruana") });
        nacionalidades.push(
            Nacionalidad { nac_id: 3, nac_nacionalidad: String::from_str("Boliviana") },
        );
        self.nacionalidades = nacionalidades;
        let mut macro_sectores: Vec<MacroSector> = Vec::new();
        macro_sectores.push(MacroSector { mac_id: 1, mac_nombre: String::from_str("Centro") });
        macro_sectores.push(MacroSector { mac_id: 2, mac_nombre: String::from_str("Norte") });
        macro_sectores.push(MacroSector { mac_id: 3, mac_nombre: String::from_str("Sur") });
        self.macro_sectores = macro_sectores;
        let mut unidades: Vec<UnidadVecinal> = Vec::new();
        unidades.push(
            UnidadVecinal {
                uv_id: 1,
                uv_nombre: String::from_str("Villa Los Álamos"),
                uv_macid: 1,
                mac_nombre: Some(String::from_str("Centro")),
            },
        );
        unidades.push(
            UnidadVecinal {
                uv_id: 2,
                uv_nombre: String::from_str("Barrio Norte"),
                uv_macid: 2,
                mac_nombre: Some(String::from_str("Norte")),
            },
        );
        unidades.push(
            UnidadVecinal {
                uv_id: 3,
                uv_nombre: String::from_str("Villa Sur"),
                uv_macid: 3,
                mac_nombre: Some(String::from_str("Sur")),
            },
        );
        self.unidades_vecinales = unidades;
    }

    /// Starts a query over the current kind and filters. The fresh sequence
    /// number replaces any pending one, so the replaced query's late result
    /// will be dropped.
    pub fn execute_query(&mut self) -> (r: QueryRequest)
        requires
            old(self).next_seq < u64::MAX,
        ensures
            r.seq == old(self).next_seq,
            r.kind == old(self).query_type,
            r.persona_filter == old(self).persona_filter,
            r.organizacion_filter == old(self).organizacion_filter,
            r.actividad_filter == old(self).actividad_filter,
            !r.check_connection,
            final(self).pending == Some(r.seq),
            final(self).loading,
            final(self).next_seq == old(self).next_seq + 1,
            final(self).query_type == old(self).query_type,
            final(self).persona_filter == old(self).persona_filter,
            final(self).organizacion_filter == old(self).organizacion_filter,
            final(self).actividad_filter == old(self).actividad_filter,
            final(self).personas_results == old(self).personas_results,
            final(self).organizaciones_results == old(self).organizaciones_results,
            final(self).actividades_results == old(self).actividades_results,
            final(self).viajes_results == old(self).viajes_results,
            final(self).catalogs_loaded == old(self).catalogs_loaded,
            final(self).generos == old(self).generos,
            final(self).nacionalidades == old(self).nacionalidades,
            final(self).unidades_vecinales == old(self).unidades_vecinales,
            final(self).macro_sectores == old(self).macro_sectores,
    {
        let seq = self.next_seq;
        self.next_seq = seq + 1;
        self.pending = Some(seq);
        self.loading = true;
        QueryRequest {
            seq,
            kind: self.query_type,
            persona_filter: clone_persona_filter(&self.persona_filter),
            organizacion_filter: clone_organizacion_filter(&self.organizacion_filter),
            actividad_filter: clone_actividad_filter(&self.actividad_filter),
            check_connection: false,
        }
    }

    /// Starts the initial load after connecting: a person query under empty
    /// filters, proving the connection first.
    pub fn execute_initial_query(&mut self) -> (r: QueryRequest)
        requires
            old(self).next_seq < u64::MAX,
        ensures
            r.seq == old(self).next_seq,
            r.kind == QueryType::Personas,
            r.check_connection,
            final(self).pending == Some(r.seq),
            final(self).loading,
            final(self).next_seq == old(self).next_seq + 1,
            final(self).query_type == old(self).query_type,
            final(self).personas_results == old(self).personas_results,
            final(self).organizaciones_results == old(self).organizaciones_results,
            final(self).actividades_results == old(self).actividades_results,
            final(self).viajes_results == old(self).viajes_results,
            final(self).catalogs_loaded == old(self).catalogs_loaded,
            final(self).generos == old(self).generos,
            final(self).nacionalidades == old(self).nacionalidades,
            final(self).unidades_vecinales == old(self).unidades_vecinales,
            final(self).macro_sectores == old(self).macro_sectores,
    {
        let seq = self.next_seq;
        self.next_seq = seq + 1;
        self.pending = Some(seq);
        self.loading = true;
        QueryRequest {
            seq,
            kind: QueryType::Personas,
            persona_filter: PersonaFilter::default(),
            organizacion_filter: OrganizacionFilter::default(),
            actividad_filter: ActividadFilter::default(),
            check_connection: true,
        }
    }

    /// Starts the automatic query issued when the kind selector changes:
    /// the new kind under empty filters, proving the connection first.
    pub fn execute_auto_query(&mut self) -> (r: QueryRequest)
        requires
            old(self).next_seq < u64::MAX,
        ensures
            r.seq == old(self).next_seq,
            r.kind == old(self).query_type,
            r.check_connection,
            final(self).pending == Some(r.seq),
            final(self).loading,
            final(self).next_seq == old(self).next_seq + 1,
            final(self).query_type == old(self).query_type,
            final(self).personas_results == old(self).personas_results,
            final(self).organizaciones_results == old(self).organizaciones_results,
            final(self).actividades_results == old(self).actividades_results,
            final(self).viajes_results == old(self).viajes_results,
            final(self).catalogs_loaded == old(self).catalogs_loaded,
            final(self).generos == old(self).generos,
            final(self).nacionalidades == old(self).nacionalidades,
            final(self).unidades_vecinales == old(self).unidades_vecinales,
            final(self).macro_sectores == old(self).macro_sectores,
    {
        let seq = self.next_seq;
        self.next_seq = seq + 1;
        self.pending = Some(seq);
        self.loading = true;
        QueryRequest {
            seq,
            kind: self.query_type,
            persona_filter: PersonaFilter::default(),
            organizacion_filter: OrganizacionFilter::default(),
            actividad_filter: ActividadFilter::default(),
            check_connection: true,
        }
    }

    /// Loads the catalogs and starts the initial query; called once a
    /// connection is established.
    pub fn initialize_data(&mut self) -> (r: QueryRequest)
        requires
            old(self).next_seq < u64::MAX,
        ensures
            final(self).catalogs_loaded,
            r.kind == QueryType::Personas,
            r.check_connection,
            final(self).pending == Some(r.seq),
            final(self).loading,
    {
        self.load_catalogs();
        self.execute_initial_query()
    }

    /// Absorbs a query completion: taken only while its sequence number is
    /// the pending one. A success replaces the matching result set; an error
    /// clears every result set to empty.
    pub fn check_query_result(&mut self, event: Option<(u64, Result<QueryResult, String>)>) -> (r:
        bool)
        ensures
            ({
                let fresh = old(self).pending matches Some(s) && event matches Some((s2, _)) && s2
                    == s;
                &&& !fresh ==> *final(self) == *old(self) && r == false
                &&& fresh ==> {
                    &&& r == true
                    &&& final(self).pending is None
                    &&& !final(self).loading
                    &&& final(self).query_type == old(self).query_type
                    &&& final(self).persona_filter == old(self).persona_filter
                    &&& final(self).organizacion_filter == old(self).organizacion_filter
                    &&& final(self).actividad_filter == old(self).actividad_filter
                    &&& final(self).next_seq == old(self).next_seq
                }
                &&& fresh ==> (match event {
                    Some((_, Ok(QueryResult::Personas(v)))) => final(self).personas_results == v
                        && final(self).organizaciones_results == old(self).organizaciones_results
                        && final(self).actividades_results == old(self).actividades_results
                        && final(self).viajes_results == old(self).viajes_results,
                    Some((_, Ok(QueryResult::Organizaciones(v)))) => final(self).organizaciones_results == v && final(self).personas_results == old(self).personas_results && final(self).actividades_results == old(self).actividades_results && final(self).viajes_results == old(self).viajes_results,
                    Some((_, Ok(QueryResult::Actividades(v)))) => final(self).actividades_results
                        == v && final(self).personas_results == old(self).personas_results && final(self).organizaciones_results == old(self).organizaciones_results && final(self).viajes_results == old(self).viajes_results,
                    Some((_, Ok(QueryResult::Viajes(v)))) => final(self).viajes_results == v
                        && final(self).personas_results == old(self).personas_results && final(self).organizaciones_results == old(self).organizaciones_results && final(self).actividades_results == old(self).actividades_results,
                    Some((_, Err(_))) => final(self).personas_results@.len() == 0 && final(self).organizaciones_results@.len() == 0 && final(self).actividades_results@.len()
                        == 0 && final(self).viajes_results@.len() == 0,
                    None => true,
                })
            }),
    {
        match event {
            None => false,
            Some((seq, result)) => {
                let fresh = match self.pending {
                    Some(s) => s == seq,
                    None => false,
                };
                if !fresh {
                    return false;
                }
                self.pending = None;
                self.loading = false;
                match result {
                    Ok(query_result) => {
                        match query_result {
                            QueryResult::Personas(personas) => {
                                self.personas_results = personas;
                            },
                            QueryResult::Organizaciones(organizaciones) => {
                                self.organizaciones_results = organizaciones;
                            },
                            QueryResult::Actividades(actividades) => {
                                self.actividades_results = actividades;
                            },
                            QueryResult::Viajes(viajes) => {
                                self.viajes_results = viajes;
                            },
                        }
                    },
                    Err(_) => {
                        self.personas_results = Vec::new();
                        self.organizaciones_results = Vec::new();
                        self.actividades_results = Vec::new();
                        self.viajes_results = Vec::new();
                    },
                }
                true
            },
        }
    }

    /// Resets every filter to its empty default.
    pub fn clear_filters(&mut self)
        ensures
            final(self).persona_filter.nombre@.len() == 0,
            final(self).persona_filter.apellido@.len() == 0,
            final(self).persona_filter.rut@.len() == 0,
            final(self).persona_filter.genero_id is None,
            final(self).persona_filter.unidad_vecinal_id is None,
            final(self).persona_filter.macro_sector_id is None,
            final(self).organizacion_filter.nombre@.len() == 0,
            final(self).organizacion_filter.unidad_vecinal_id is None,
            final(self).actividad_filter.nombre@.len() == 0,
            final(self).actividad_filter.unidad_vecinal_id is None,
            final(self).query_type == old(self).query_type,
            final(self).personas_results == old(self).personas_results,
            final(self).organizaciones_results == old(self).organizaciones_results,
            final(self).actividades_results == old(self).actividades_results,
            final(self).viajes_results == old(self).viajes_results,
            final(self).loading == old(self).loading,
            final(self).pending == old(self).pending,
            final(self).next_seq == old(self).next_seq,
    {
        self.persona_filter = PersonaFilter::default();
        self.organizacion_filter = OrganizacionFilter::default();
        self.actividad_filter = ActividadFilter::default();
    }
}

/// The query a background unit performs against the store: prove the
/// connection when asked, run the selected listing, and hand back one
/// terminal outcome. Trip queries return the empty placeholder without a
/// store call.
pub fn perform_query(db: &DatabaseManager, req: &QueryRequest) -> (r: Result<QueryResult, String>)
    requires
        db.wf(),
    ensures
        r is Ok <==> db.is_connected() || (req.kind == QueryType::Viajes && !req.check_connection),
        r matches Ok(q) ==> (match req.kind {
            QueryType::Personas => q matches QueryResult::Personas(v) && v@
                == personas_query_result(*db, req.persona_filter),
            QueryType::Organizaciones => q matches QueryResult::Organizaciones(v) && v@
                == organizaciones_query_result(*db, req.organizacion_filter),
            QueryType::Actividades => q matches QueryResult::Actividades(v) && v@
                == actividades_query_result(*db, req.actividad_filter),
            QueryType::Viajes => q matches QueryResult::Viajes(v) && v@.len() == 0,
        }),
        req.check_connection && !db.is_connected() ==> (r matches Err(m) && m@
            == "No hay conexión a la base de datos"@),
{
    if req.check_connection {
        let alive = match db.test_connection() {
            Ok(b) => b,
            Err(_) => false,
        };
        if !alive {
            return Err(String::from_str("No hay conexión a la base de datos"));
        }
    }
    match req.kind {
        QueryType::Personas => {
            match db.get_personas_mayores(&req.persona_filter) {
                Ok(personas) => Ok(QueryResult::Personas(personas)),
                Err(e) => Err(
                    String::from_str("Error al consultar personas: ").concat(e.message().as_str()),
                ),
            }
        },
        QueryType::Organizaciones => {
            match db.get_organizaciones(&req.organizacion_filter) {
                Ok(organizaciones) => Ok(QueryResult::Organizaciones(organizaciones)),
                Err(e) => Err(
                    String::from_str("Error al consultar organizaciones: ").concat(
                        e.message().as_str(),
                    ),
                ),
            }
        },
        QueryType::Actividades => {
            match db.get_actividades(&req.actividad_filter) {
                Ok(actividades) => Ok(QueryResult::Actividades(actividades)),
                Err(e) => Err(
                    String::from_str("Error al consultar actividades: ").concat(
                        e.message().as_str(),
                    ),
                ),
            }
        },
        QueryType::Viajes => Ok(QueryResult::Viajes(Vec::new())),
    }
}

} // verus!
