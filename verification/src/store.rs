//! The entity store contract: typed reads and inserts over the registry's
//! tables, with store-assigned monotonically increasing identities, fixed
//! result orderings, reference checks at insert time, and a `NotConnected`
//! failure distinct from a constraint violation.
//!
//! This store is the verified model of the contract; the deployment backs it
//! with a relational server driven outside the library, against these same
//! clauses.

use vstd::prelude::*;
use crate::models::{
    DatabaseConfig, MacroSector, UnidadVecinal, Genero, Nacionalidad, Taller, PersonaMayor,
    OrganizacionComunitaria, Actividad, DashboardStats, PersonaFilter, OrganizacionFilter,
    ActividadFilter, clone_opt_string,
};
use crate::dates::Date;
use crate::text::{lex_le, str_le, lemma_lex_connex};
use crate::validate::{valid_email, validate_email};

verus! {

/// A data operation's failure: attempted with no live connection, or
/// reported by the store itself (uniqueness, format or reference
/// constraints).
#[derive(Debug, Clone, Copy, PartialEq, Eq, Structural)]
pub enum StoreError {
    NotConnected,
    ConstraintViolation,
}

impl StoreError {
    /// The banner text for this failure.
    pub fn message(&self) -> (r: String)
        ensures
            *self == StoreError::NotConnected ==> r@ == "No hay conexión a la base de datos"@,
            *self == StoreError::ConstraintViolation ==> r@
                == "La base de datos rechazó la operación"@,
    {
        match self {
            StoreError::NotConnected => String::from_str("No hay conexión a la base de datos"),
            StoreError::ConstraintViolation => String::from_str(
                "La base de datos rechazó la operación",
            ),
        }
    }
}

/// Names are ordered lexicographically by code point.
pub open spec fn sorted_generos(s: Seq<Genero>) -> bool {
    forall|i: int| 0 <= i && i + 1 < s.len() ==> lex_le(#[trigger] s[i].gen_genero@, s[i + 1].gen_genero@)
}

pub open spec fn sorted_nacionalidades(s: Seq<Nacionalidad>) -> bool {
    forall|i: int|
        0 <= i && i + 1 < s.len() ==> lex_le(
            #[trigger] s[i].nac_nacionalidad@,
            s[i + 1].nac_nacionalidad@,
        )
}

pub open spec fn sorted_macro_sectores(s: Seq<MacroSector>) -> bool {
    forall|i: int| 0 <= i && i + 1 < s.len() ==> lex_le(#[trigger] s[i].mac_nombre@, s[i + 1].mac_nombre@)
}

pub open spec fn sorted_unidades(s: Seq<UnidadVecinal>) -> bool {
    forall|i: int| 0 <= i && i + 1 < s.len() ==> lex_le(#[trigger] s[i].uv_nombre@, s[i + 1].uv_nombre@)
}

pub open spec fn sorted_organizaciones(s: Seq<OrganizacionComunitaria>) -> bool {
    forall|i: int| 0 <= i && i + 1 < s.len() ==> lex_le(#[trigger] s[i].org_nombre@, s[i + 1].org_nombre@)
}

/// People sort by family name, then by given name.
pub open spec fn persona_le(a: PersonaMayor, b: PersonaMayor) -> bool {
    if a.per_priapellido@ == b.per_priapellido@ {
        lex_le(a.per_prinombre@, b.per_prinombre@)
    } else {
        lex_le(a.per_priapellido@, b.per_priapellido@)
    }
}

pub open spec fn sorted_personas(s: Seq<PersonaMayor>) -> bool {
    forall|i: int| 0 <= i && i + 1 < s.len() ==> persona_le(#[trigger] s[i], s[i + 1])
}

pub open spec fn date_le(a: Date, b: Date) -> bool {
    if a.year != b.year {
        a.year < b.year
    } else if a.month != b.month {
        a.month < b.month
    } else {
        a.day <= b.day
    }
}

/// Activities list newest start date first.
pub open spec fn act_before(a: Actividad, b: Actividad) -> bool {
    date_le(b.act_fecha_ini, a.act_fecha_ini)
}

pub open spec fn sorted_actividades(s: Seq<Actividad>) -> bool {
    forall|i: int| 0 <= i && i + 1 < s.len() ==> act_before(#[trigger] s[i], s[i + 1])
}

/// The single point of interaction with the registry's tables.
pub struct DatabaseManager {
    connected: bool,
    next_per_id: i32,
    next_org_id: i32,
    next_act_id: i32,
    next_mac_id: i32,
    next_uv_id: i32,
    next_tal_id: i32,
    next_gen_id: i32,
    next_nac_id: i32,
    personas: Vec<PersonaMayor>,
    organizaciones: Vec<OrganizacionComunitaria>,
    actividades: Vec<Actividad>,
    generos: Vec<Genero>,
    nacionalidades: Vec<Nacionalidad>,
    macro_sectores: Vec<MacroSector>,
    unidades_vecinales: Vec<UnidadVecinal>,
    talleres: Vec<Taller>,
}

impl DatabaseManager {
    pub closed spec fn is_connected(&self) -> bool {
        self.connected
    }

    pub closed spec fn spec_personas(&self) -> Seq<PersonaMayor> {
        self.personas@
    }

    pub closed spec fn spec_organizaciones(&self) -> Seq<OrganizacionComunitaria> {
        self.organizaciones@
    }

    pub closed spec fn spec_actividades(&self) -> Seq<Actividad> {
        self.actividades@
    }

    pub closed spec fn spec_generos(&self) -> Seq<Genero> {
        self.generos@
    }

    pub closed spec fn spec_nacionalidades(&self) -> Seq<Nacionalidad> {
        self.nacionalidades@
    }

    pub closed spec fn spec_macro_sectores(&self) -> Seq<MacroSector> {
        self.macro_sectores@
    }

    pub closed spec fn spec_unidades_vecinales(&self) -> Seq<UnidadVecinal> {
        self.unidades_vecinales@
    }

    pub closed spec fn spec_talleres(&self) -> Seq<Taller> {
        self.talleres@
    }

    pub closed spec fn spec_next_per_id(&self) -> int {
        self.next_per_id as int
    }

    pub closed spec fn spec_next_org_id(&self) -> int {
        self.next_org_id as int
    }

    pub closed spec fn spec_next_act_id(&self) -> int {
        self.next_act_id as int
    }

    pub closed spec fn spec_next_mac_id(&self) -> int {
        self.next_mac_id as int
    }

    pub closed spec fn spec_next_uv_id(&self) -> int {
        self.next_uv_id as int
    }

    pub closed spec fn spec_next_tal_id(&self) -> int {
        self.next_tal_id as int
    }

    pub closed spec fn spec_next_gen_id(&self) -> int {
        self.next_gen_id as int
    }

    pub closed spec fn spec_next_nac_id(&self) -> int {
        self.next_nac_id as int
    }

    /// Identities are store-assigned, positive, and always below the next
    /// identity to hand out; every listing order is maintained table-side.
    pub closed spec fn wf(&self) -> bool {
        &&& 1 <= self.next_per_id
        &&& 1 <= self.next_org_id
        &&& 1 <= self.next_act_id
        &&& 1 <= self.next_mac_id
        &&& 1 <= self.next_uv_id
        &&& 1 <= self.next_tal_id
        &&& 1 <= self.next_gen_id
        &&& 1 <= self.next_nac_id
        &&& self.personas@.len() < self.next_per_id as int
        &&& self.organizaciones@.len() < self.next_org_id as int
        &&& self.actividades@.len() < self.next_act_id as int
        &&& self.macro_sectores@.len() < self.next_mac_id as int
        &&& self.unidades_vecinales@.len() < self.next_uv_id as int
        &&& self.talleres@.len() < self.next_tal_id as int
        &&& self.generos@.len() < self.next_gen_id as int
        &&& self.nacionalidades@.len() < self.next_nac_id as int
        &&& forall|i: int|
            0 <= i < self.personas@.len() ==> 0 < (#[trigger] self.personas@[i]).per_id
                < self.next_per_id
        &&& forall|i: int|
            0 <= i < self.organizaciones@.len() ==> 0 < (
            #[trigger] self.organizaciones@[i]).org_id < self.next_org_id
        &&& forall|i: int|
            0 <= i < self.actividades@.len() ==> 0 < (#[trigger] self.actividades@[i]).act_id
                < self.next_act_id
        &&& forall|i: int|
            0 <= i < self.macro_sectores@.len() ==> 0 < (
            #[trigger] self.macro_sectores@[i]).mac_id < self.next_mac_id
        &&& forall|i: int|
            0 <= i < self.unidades_vecinales@.len() ==> 0 < (
            #[trigger] self.unidades_vecinales@[i]).uv_id < self.next_uv_id
        &&& forall|i: int|
            0 <= i < self.talleres@.len() ==> 0 < (#[trigger] self.talleres@[i]).tal_id
                < self.next_tal_id
        &&& forall|i: int|
            0 <= i < self.generos@.len() ==> 0 < (#[trigger] self.generos@[i]).gen_id
                < self.next_gen_id
        &&& forall|i: int|
            0 <= i < self.nacionalidades@.len() ==> 0 < (#[trigger] self.nacionalidades@[i]).nac_id
                < self.next_nac_id
        &&& sorted_personas(self.personas@)
        &&& sorted_organizaciones(self.organizaciones@)
        &&& sorted_actividades(self.actividades@)
        &&& sorted_generos(self.generos@)
        &&& sorted_nacionalidades(self.nacionalidades@)
        &&& sorted_macro_sectores(self.macro_sectores@)
        &&& sorted_unidades(self.unidades_vecinales@)
    }
}

/// The two stores hold the same person table and the same next identity.
pub open spec fn same_personas(a: DatabaseManager, b: DatabaseManager) -> bool {
    a.spec_personas() == b.spec_personas() && a.spec_next_per_id() == b.spec_next_per_id()
}

pub open spec fn same_organizaciones(a: DatabaseManager, b: DatabaseManager) -> bool {
    a.spec_organizaciones() == b.spec_organizaciones() && a.spec_next_org_id()
        == b.spec_next_org_id()
}

pub open spec fn same_actividades(a: DatabaseManager, b: DatabaseManager) -> bool {
    a.spec_actividades() == b.spec_actividades() && a.spec_next_act_id() == b.spec_next_act_id()
}

pub open spec fn same_generos(a: DatabaseManager, b: DatabaseManager) -> bool {
    a.spec_generos() == b.spec_generos() && a.spec_next_gen_id() == b.spec_next_gen_id()
}

pub open spec fn same_nacionalidades(a: DatabaseManager, b: DatabaseManager) -> bool {
    a.spec_nacionalidades() == b.spec_nacionalidades() && a.spec_next_nac_id()
        == b.spec_next_nac_id()
}

pub open spec fn same_macro_sectores(a: DatabaseManager, b: DatabaseManager) -> bool {
    a.spec_macro_sectores() == b.spec_macro_sectores() && a.spec_next_mac_id()
        == b.spec_next_mac_id()
}

pub open spec fn same_unidades(a: DatabaseManager, b: DatabaseManager) -> bool {
    a.spec_unidades_vecinales() == b.spec_unidades_vecinales() && a.spec_next_uv_id()
        == b.spec_next_uv_id()
}

pub open spec fn same_talleres(a: DatabaseManager, b: DatabaseManager) -> bool {
    a.spec_talleres() == b.spec_talleres() && a.spec_next_tal_id() == b.spec_next_tal_id()
}

/// The two stores hold the same tables and the same next identities.
pub open spec fn same_data(a: DatabaseManager, b: DatabaseManager) -> bool {
    &&& same_personas(a, b)
    &&& same_organizaciones(a, b)
    &&& same_actividades(a, b)
    &&& same_generos(a, b)
    &&& same_nacionalidades(a, b)
    &&& same_macro_sectores(a, b)
    &&& same_unidades(a, b)
    &&& same_talleres(a, b)
}

impl DatabaseManager {
    /// A fresh store: no connection held, every table empty, identities
    /// starting at one.
    pub fn new() -> (r: Self)
        ensures
            r.wf(),
            !r.is_connected(),
            r.spec_personas().len() == 0,
            r.spec_organizaciones().len() == 0,
            r.spec_actividades().len() == 0,
            r.spec_generos().len() == 0,
            r.spec_nacionalidades().len() == 0,
            r.spec_macro_sectores().len() == 0,
            r.spec_unidades_vecinales().len() == 0,
            r.spec_talleres().len() == 0,
            r.spec_next_per_id() == 1,
    {
        DatabaseManager {
            connected: false,
            next_per_id: 1,
            next_org_id: 1,
            next_act_id: 1,
            next_mac_id: 1,
            next_uv_id: 1,
            next_tal_id: 1,
            next_gen_id: 1,
            next_nac_id: 1,
            personas: Vec::new(),
            organizaciones: Vec::new(),
            actividades: Vec::new(),
            generos: Vec::new(),
            nacionalidades: Vec::new(),
            macro_sectores: Vec::new(),
            unidades_vecinales: Vec::new(),
            talleres: Vec::new(),
        }
    }

    /// Takes (or replaces) the live connection. On the deployment's backend
    /// this also applies the idempotent email-constraint adjustment; the
    /// model builds that loosened check into the person insert.
    pub fn connect(&mut self, config: &DatabaseConfig) -> (r: Result<(), StoreError>)
        requires
            old(self).wf(),
        ensures
            final(self).wf(),
            r is Ok,
            final(self).is_connected(),
            same_data(*old(self), *final(self)),
    {
        let _ = config;
        self.connected = true;
        Ok(())
    }

    /// Clears the held connection; a no-op when none is held. The tables
    /// live in the backing store and survive the handle.
    pub fn disconnect(&mut self)
        requires
            old(self).wf(),
        ensures
            final(self).wf(),
            !final(self).is_connected(),
            same_data(*old(self), *final(self)),
    {
        self.connected = false;
    }

    /// A trivial round trip: true exactly when a connection is held; never
    /// surfaces an underlying failure.
    pub fn test_connection(&self) -> (r: Result<bool, StoreError>)
        ensures
            r is Ok,
            r->Ok_0 == self.is_connected(),
    {
        Ok(self.connected)
    }

    /// The aggregate counts: one per entity table, with the monthly
    /// aggregates and the per-macro-sector breakdown left as their
    /// placeholder zeros and empty list.
    pub fn get_dashboard_stats(&self) -> (r: Result<DashboardStats, StoreError>)
        requires
            self.wf(),
        ensures
            r is Ok <==> self.is_connected(),
            r is Err ==> r->Err_0 == StoreError::NotConnected,
            r matches Ok(s) ==> {
                &&& s.total_personas as int == self.spec_personas().len() as int
                &&& s.total_organizaciones as int == self.spec_organizaciones().len() as int
                &&& s.total_actividades as int == self.spec_actividades().len() as int
                &&& s.total_viajes == 0
                &&& s.personas_por_macro@.len() == 0
                &&& s.actividades_mes_actual == 0
                &&& s.nuevas_personas_mes == 0
            },
    {
        if !self.connected {
            return Err(StoreError::NotConnected);
        }
        Ok(
            DashboardStats {
                total_personas: self.personas.len() as i64,
                total_organizaciones: self.organizaciones.len() as i64,
                total_actividades: self.actividades.len() as i64,
                total_viajes: 0,
                personas_por_macro: Vec::new(),
                actividades_mes_actual: 0,
                nuevas_personas_mes: 0,
            },
        )
    }
}

fn clone_genero(g: &Genero) -> (r: Genero)
    ensures
        r == *g,
{
    Genero { gen_id: g.gen_id, gen_genero: g.gen_genero.clone() }
}

fn clone_nacionalidad(n: &Nacionalidad) -> (r: Nacionalidad)
    ensures
        r == *n,
{
    Nacionalidad { nac_id: n.nac_id, nac_nacionalidad: n.nac_nacionalidad.clone() }
}

fn clone_macro_sector(m: &MacroSector) -> (r: MacroSector)
    ensures
        r == *m,
{
    MacroSector { mac_id: m.mac_id, mac_nombre: m.mac_nombre.clone() }
}

fn clone_persona(p: &PersonaMayor) -> (r: PersonaMayor)
    ensures
        r == *p,
{
    PersonaMayor {
        per_id: p.per_id,
        per_rut: p.per_rut.clone(),
        per_prinombre: p.per_prinombre.clone(),
        per_segnombre: clone_opt_string(&p.per_segnombre),
        per_priapellido: p.per_priapellido.clone(),
        per_segapellido: clone_opt_string(&p.per_segapellido),
        per_genid: p.per_genid,
        per_nacid: p.per_nacid,
        per_fechadenac: p.per_fechadenac,
        per_direccion: p.per_direccion.clone(),
        per_email: clone_opt_string(&p.per_email),
        per_uvid: p.per_uvid,
        gen_genero: clone_opt_string(&p.gen_genero),
        nac_nacionalidad: clone_opt_string(&p.nac_nacionalidad),
        uv_nombre: clone_opt_string(&p.uv_nombre),
    }
}

fn clone_organizacion(o: &OrganizacionComunitaria) -> (r: OrganizacionComunitaria)
    ensures
        r == *o,
{
    OrganizacionComunitaria {
        org_id: o.org_id,
        org_nombre: o.org_nombre.clone(),
        org_direccion: o.org_direccion.clone(),
        org_uvid: o.org_uvid,
        org_fechaconst: o.org_fechaconst,
        org_perjuridica: o.org_perjuridica.clone(),
        org_email: clone_opt_string(&o.org_email),
        uv_nombre: clone_opt_string(&o.uv_nombre),
    }
}

fn clone_actividad(a: &Actividad) -> (r: Actividad)
    ensures
        r == *a,
{
    Actividad {
        act_id: a.act_id,
        act_nombre: a.act_nombre.clone(),
        act_uvid: a.act_uvid,
        act_fecha_ini: a.act_fecha_ini,
        act_fecha_fin: a.act_fecha_fin,
        act_descripcion: clone_opt_string(&a.act_descripcion),
        uv_nombre: clone_opt_string(&a.uv_nombre),
    }
}

/// The display name of the first macro sector carrying the given identity.
pub open spec fn mac_name_of(macs: Seq<MacroSector>, id: i32) -> Option<String>
    decreases macs.len(),
{
    if macs.len() == 0 {
        None
    } else if macs[0].mac_id == id {
        Some(macs[0].mac_nombre)
    } else {
        mac_name_of(macs.drop_first(), id)
    }
}

fn find_mac_name(macs: &Vec<MacroSector>, id: i32) -> (r: Option<String>)
    ensures
        r == mac_name_of(macs@, id),
{
    let mut k: usize = 0;
    proof {
        assert(macs@.skip(0) =~= macs@);
    }
    while k < macs.len()
        invariant
            0 <= k <= macs@.len(),
            mac_name_of(macs@, id) == mac_name_of(macs@.skip(k as int), id),
        decreases macs@.len() - k,
    {
        if macs[k].mac_id == id {
            proof {
                assert(macs@.skip(k as int)[0] == macs@[k as int]);
            }
            return Some(macs[k].mac_nombre.clone());
        }
        proof {
            assert(macs@.skip(k as int)[0] == macs@[k as int]);
            assert(macs@.skip(k as int).drop_first() =~= macs@.skip(k as int + 1));
        }
        k = k + 1;
    }
    proof {
        assert(macs@.skip(k as int).len() == 0);
    }
    None
}

/// A neighborhood-unit row as a read returns it: enriched with its macro
/// sector's display name, or nothing when the reference matches no row.
pub open spec fn uv_joined(uv: UnidadVecinal, macs: Seq<MacroSector>) -> UnidadVecinal {
    UnidadVecinal {
        uv_id: uv.uv_id,
        uv_nombre: uv.uv_nombre,
        uv_macid: uv.uv_macid,
        mac_nombre: mac_name_of(macs, uv.uv_macid),
    }
}

/// Person queries return the full table in its fixed order; the filter does
/// not narrow the result.
pub open spec fn personas_query_result(s: DatabaseManager, filter: PersonaFilter) -> Seq<
    PersonaMayor,
> {
    s.spec_personas()
}

pub open spec fn organizaciones_query_result(
    s: DatabaseManager,
    filter: OrganizacionFilter,
) -> Seq<OrganizacionComunitaria> {
    s.spec_organizaciones()
}

pub open spec fn actividades_query_result(s: DatabaseManager, filter: ActividadFilter) -> Seq<
    Actividad,
> {
    s.spec_actividades()
}

/// For all filters, the person listing is one and the same full, unfiltered,
/// fixed-order sequence.
pub proof fn lemma_personas_filter_ignored(
    s: DatabaseManager,
    f1: PersonaFilter,
    f2: PersonaFilter,
)
    ensures
        personas_query_result(s, f1) == personas_query_result(s, f2),
{
}

/// For all filters, the organization listing is one and the same full,
/// unfiltered, fixed-order sequence.
pub proof fn lemma_organizaciones_filter_ignored(
    s: DatabaseManager,
    f1: OrganizacionFilter,
    f2: OrganizacionFilter,
)
    ensures
        organizaciones_query_result(s, f1) == organizaciones_query_result(s, f2),
{
}

/// For all filters, the activity listing is one and the same full,
/// unfiltered, fixed-order sequence.
pub proof fn lemma_actividades_filter_ignored(
    s: DatabaseManager,
    f1: ActividadFilter,
    f2: ActividadFilter,
)
    ensures
        actividades_query_result(s, f1) == actividades_query_result(s, f2),
{
}

impl DatabaseManager {
    /// The gender lookup rows, ordered by display name.
    pub fn get_generos(&self) -> (r: Result<Vec<Genero>, StoreError>)
        requires
            self.wf(),
        ensures
            r is Ok <==> self.is_connected(),
            r is Err ==> r->Err_0 == StoreError::NotConnected,
            r matches Ok(v) ==> v@ == self.spec_generos() && sorted_generos(v@),
    {
        if !self.connected {
            return Err(StoreError::NotConnected);
        }
        let mut out: Vec<Genero> = Vec::new();
        let mut i: usize = 0;
        while i < self.generos.len()
            invariant
                0 <= i <= self.generos@.len(),
                out@.len() == i,
                forall|k: int| 0 <= k < i ==> out@[k] == self.generos@[k],
            decreases self.generos@.len() - i,
        {
            out.push(clone_genero(&self.generos[i]));
            i = i + 1;
        }
        proof {
            assert(out@ =~= self.generos@);
        }
        Ok(out)
    }

    /// The nationality lookup rows, ordered by display name.
    pub fn get_nacionalidades(&self) -> (r: Result<Vec<Nacionalidad>, StoreError>)
        requires
            self.wf(),
        ensures
            r is Ok <==> self.is_connected(),
            r is Err ==> r->Err_0 == StoreError::NotConnected,
            r matches Ok(v) ==> v@ == self.spec_nacionalidades() && sorted_nacionalidades(v@),
    {
        if !self.connected {
            return Err(StoreError::NotConnected);
        }
        let mut out: Vec<Nacionalidad> = Vec::new();
        let mut i: usize = 0;
        while i < self.nacionalidades.len()
            invariant
                0 <= i <= self.nacionalidades@.len(),
                out@.len() == i,
                forall|k: int| 0 <= k < i ==> out@[k] == self.nacionalidades@[k],
            decreases self.nacionalidades@.len() - i,
        {
            out.push(clone_nacionalidad(&self.nacionalidades[i]));
            i = i + 1;
        }
        proof {
            assert(out@ =~= self.nacionalidades@);
        }
        Ok(out)
    }

    /// The macro-sector lookup rows, ordered by display name.
    pub fn get_macro_sectores(&self) -> (r: Result<Vec<MacroSector>, StoreError>)
        requires
            self.wf(),
        ensures
            r is Ok <==> self.is_connected(),
            r is Err ==> r->Err_0 == StoreError::NotConnected,
            r matches Ok(v) ==> v@ == self.spec_macro_sectores() && sorted_macro_sectores(v@),
    {
        if !self.connected {
            return Err(StoreError::NotConnected);
        }
        let mut out: Vec<MacroSector> = Vec::new();
        let mut i: usize = 0;
        while i < self.macro_sectores.len()
            invariant
                0 <= i <= self.macro_sectores@.len(),
                out@.len() == i,
                forall|k: int| 0 <= k < i ==> out@[k] == self.macro_sectores@[k],
            decreases self.macro_sectores@.len() - i,
        {
            out.push(clone_macro_sector(&self.macro_sectores[i]));
            i = i + 1;
        }
        proof {
            assert(out@ =~= self.macro_sectores@);
        }
        Ok(out)
    }

    /// The neighborhood-unit rows ordered by display name, each enriched
    /// with its macro sector's name; a dangling reference still produces the
    /// row, with no name joined in.
    pub fn get_unidades_vecinales(&self) -> (r: Result<Vec<UnidadVecinal>, StoreError>)
        requires
            self.wf(),
        ensures
            r is Ok <==> self.is_connected(),
            r is Err ==> r->Err_0 == StoreError::NotConnected,
            r matches Ok(v) ==> {
                &&& v@.len() == self.spec_unidades_vecinales().len()
                &&& forall|i: int|
                    0 <= i < v@.len() ==> v@[i] == uv_joined(
                        #[trigger] self.spec_unidades_vecinales()[i],
                        self.spec_macro_sectores(),
                    )
                &&& sorted_unidades(v@)
            },
    {
        if !self.connected {
            return Err(StoreError::NotConnected);
        }
        let mut out: Vec<UnidadVecinal> = Vec::new();
        let mut i: usize = 0;
        while i < self.unidades_vecinales.len()
            invariant
                self.wf(),
                0 <= i <= self.unidades_vecinales@.len(),
                out@.len() == i,
                forall|k: int|
                    0 <= k < i ==> out@[k] == uv_joined(
                        #[trigger] self.unidades_vecinales@[k],
                        self.macro_sectores@,
                    ),
            decreases self.unidades_vecinales@.len() - i,
        {
            let uv = &self.unidades_vecinales[i];
            let mac_nombre = find_mac_name(&self.macro_sectores, uv.uv_macid);
            out.push(
                UnidadVecinal {
                    uv_id: uv.uv_id,
                    uv_nombre: uv.uv_nombre.clone(),
                    uv_macid: uv.uv_macid,
                    mac_nombre,
                },
            );
            i = i + 1;
        }
        proof {
            assert forall|k: int| 0 <= k && k + 1 < out@.len() implies lex_le(
                #[trigger] out@[k].uv_nombre@,
                out@[k + 1].uv_nombre@,
            ) by {
                assert(out@[k] == uv_joined(
                    self.unidades_vecinales@[k],
                    self.macro_sectores@,
                ));
                assert(out@[k + 1] == uv_joined(
                    self.unidades_vecinales@[k + 1],
                    self.macro_sectores@,
                ));
                assert(lex_le(
                    self.unidades_vecinales@[k].uv_nombre@,
                    self.unidades_vecinales@[k + 1].uv_nombre@,
                ));
            }
        }
        Ok(out)
    }

    /// The full person table, ordered by family then given name. The filter
    /// is accepted for interface symmetry and not applied.
    pub fn get_personas_mayores(&self, filter: &PersonaFilter) -> (r: Result<
        Vec<PersonaMayor>,
        StoreError,
    >)
        requires
            self.wf(),
        ensures
            r is Ok <==> self.is_connected(),
            r is Err ==> r->Err_0 == StoreError::NotConnected,
            r matches Ok(v) ==> v@ == personas_query_result(*self, *filter) && sorted_personas(v@),
    {
        let _ = filter;
        if !self.connected {
            return Err(StoreError::NotConnected);
        }
        let mut out: Vec<PersonaMayor> = Vec::new();
        let mut i: usize = 0;
        while i < self.personas.len()
            invariant
                0 <= i <= self.personas@.len(),
                out@.len() == i,
                forall|k: int| 0 <= k < i ==> out@[k] == self.personas@[k],
            decreases self.personas@.len() - i,
        {
            out.push(clone_persona(&self.personas[i]));
            i = i + 1;
        }
        proof {
            assert(out@ =~= self.personas@);
        }
        Ok(out)
    }

    /// The full organization table, ordered by name. The filter is accepted
    /// for interface symmetry and not applied.
    pub fn get_organizaciones(&self, filter: &OrganizacionFilter) -> (r: Result<
        Vec<OrganizacionComunitaria>,
        StoreError,
    >)
        requires
            self.wf(),
        ensures
            r is Ok <==> self.is_connected(),
            r is Err ==> r->Err_0 == StoreError::NotConnected,
            r matches Ok(v) ==> v@ == organizaciones_query_result(*self, *filter)
                && sorted_organizaciones(v@),
    {
        let _ = filter;
        if !self.connected {
            return Err(StoreError::NotConnected);
        }
        let mut out: Vec<OrganizacionComunitaria> = Vec::new();
        let mut i: usize = 0;
        while i < self.organizaciones.len()
            invariant
                0 <= i <= self.organizaciones@.len(),
                out@.len() == i,
                forall|k: int| 0 <= k < i ==> out@[k] == self.organizaciones@[k],
            decreases self.organizaciones@.len() - i,
        {
            out.push(clone_organizacion(&self.organizaciones[i]));
            i = i + 1;
        }
        proof {
            assert(out@ =~= self.organizaciones@);
        }
        Ok(out)
    }

    /// The full activity table, newest start date first. The filter is
    /// accepted for interface symmetry and not applied.
    pub fn get_actividades(&self, filter: &ActividadFilter) -> (r: Result<
        Vec<Actividad>,
        StoreError,
    >)
        requires
            self.wf(),
        ensures
            r is Ok <==> self.is_connected(),
            r is Err ==> r->Err_0 == StoreError::NotConnected,
            r matches Ok(v) ==> v@ == actividades_query_result(*self, *filter)
                && sorted_actividades(v@),
    {
        let _ = filter;
        if !self.connected {
            return Err(StoreError::NotConnected);
        }
        let mut out: Vec<Actividad> = Vec::new();
        let mut i: usize = 0;
        while i < self.actividades.len()
            invariant
                0 <= i <= self.actividades@.len(),
                out@.len() == i,
                forall|k: int| 0 <= k < i ==> out@[k] == self.actividades@[k],
            decreases self.actividades@.len() - i,
        {
            out.push(clone_actividad(&self.actividades[i]));
            i = i + 1;
        }
        proof {
            assert(out@ =~= self.actividades@);
        }
        Ok(out)
    }
}

pub open spec fn gen_exists(s: Seq<Genero>, id: i32) -> bool {
    exists|i: int| 0 <= i < s.len() && (#[trigger] s[i]).gen_id == id
}

pub open spec fn nac_exists(s: Seq<Nacionalidad>, id: i32) -> bool {
    exists|i: int| 0 <= i < s.len() && (#[trigger] s[i]).nac_id == id
}

pub open spec fn mac_exists(s: Seq<MacroSector>, id: i32) -> bool {
    exists|i: int| 0 <= i < s.len() && (#[trigger] s[i]).mac_id == id
}

pub open spec fn uv_exists(s: Seq<UnidadVecinal>, id: i32) -> bool {
    exists|i: int| 0 <= i < s.len() && (#[trigger] s[i]).uv_id == id
}

/// Some listed person already carries this national id.
pub open spec fn rut_taken(s: Seq<PersonaMayor>, rut: Seq<char>) -> bool {
    exists|i: int| 0 <= i < s.len() && (#[trigger] s[i]).per_rut@ == rut
}

fn find_genero_id(table: &Vec<Genero>, id: i32) -> (r: bool)
    ensures
        r == gen_exists(table@, id),
{
    let mut i: usize = 0;
    while i < table.len()
        invariant
            0 <= i <= table@.len(),
            forall|k: int| 0 <= k < i ==> (#[trigger] table@[k]).gen_id != id,
        decreases table@.len() - i,
    {
        if table[i].gen_id == id {
            return true;
        }
        i = i + 1;
    }
    false
}

fn find_nacionalidad_id(table: &Vec<Nacionalidad>, id: i32) -> (r: bool)
    ensures
        r == nac_exists(table@, id),
{
    let mut i: usize = 0;
    while i < table.len()
        invariant
            0 <= i <= table@.len(),
            forall|k: int| 0 <= k < i ==> (#[trigger] table@[k]).nac_id != id,
        decreases table@.len() - i,
    {
        if table[i].nac_id == id {
            return true;
        }
        i = i + 1;
    }
    false
}

fn find_macro_sector_id(table: &Vec<MacroSector>, id: i32) -> (r: bool)
    ensures
        r == mac_exists(table@, id),
{
    let mut i: usize = 0;
    while i < table.len()
        invariant
            0 <= i <= table@.len(),
            forall|k: int| 0 <= k < i ==> (#[trigger] table@[k]).mac_id != id,
        decreases table@.len() - i,
    {
        if table[i].mac_id == id {
            return true;
        }
        i = i + 1;
    }
    false
}

fn find_unidad_id(table: &Vec<UnidadVecinal>, id: i32) -> (r: bool)
    ensures
        r == uv_exists(table@, id),
{
    let mut i: usize = 0;
    while i < table.len()
        invariant
            0 <= i <= table@.len(),
            forall|k: int| 0 <= k < i ==> (#[trigger] table@[k]).uv_id != id,
        decreases table@.len() - i,
    {
        if table[i].uv_id == id {
            return true;
        }
        i = i + 1;
    }
    false
}

fn find_rut(table: &Vec<PersonaMayor>, rut: &String) -> (r: bool)
    ensures
        r == rut_taken(table@, rut@),
{
    let mut i: usize = 0;
    while i < table.len()
        invariant
            0 <= i <= table@.len(),
            forall|k: int| 0 <= k < i ==> (#[trigger] table@[k]).per_rut@ != rut@,
        decreases table@.len() - i,
    {
        if table[i].per_rut.eq(rut) {
            return true;
        }
        i = i + 1;
    }
    false
}

/// The loosened email-format constraint the store enforces on person rows:
/// absent, or longer than five characters with an `@` somewhere before a
/// dot.
pub open spec fn loosened_email_ok(e: Option<String>) -> bool {
    match e {
        None => true,
        Some(s) => s@.len() > 5 && exists|i: int, j: int|
            0 <= i < j < s@.len() && s@[i] == '@' && s@[j] == '.',
    }
}

/// The position of the first `@`, or the length when there is none.
fn first_at(st: &str) -> (r: usize)
    ensures
        0 <= r <= st@.len(),
        forall|k: int| 0 <= k < r ==> st@[k] != '@',
        r < st@.len() ==> st@[r as int] == '@',
{
    let n = st.unicode_len();
    let mut i: usize = 0;
    while i < n
        invariant
            n == st@.len(),
            0 <= i <= n,
            forall|k: int| 0 <= k < i ==> st@[k] != '@',
        decreases n - i,
    {
        if st.get_char(i) == '@' {
            return i;
        }
        i = i + 1;
    }
    i
}

fn has_at_then_dot(st: &str) -> (r: bool)
    ensures
        r == exists|i: int, j: int|
            0 <= i < j < st@.len() && st@[i] == '@' && st@[j] == '.',
{
    let ghost s = st@;
    let n = st.unicode_len();
    let i = first_at(st);
    if i == n {
        proof {
            if exists|i0: int, j0: int| 0 <= i0 < j0 < s.len() && s[i0] == '@' && s[j0] == '.' {
                let (i0, j0): (int, int) = choose|i0: int, j0: int|
                    0 <= i0 < j0 < s.len() && s[i0] == '@' && s[j0] == '.';
                assert(s[i0] != '@');
                assert(false);
            }
        }
        return false;
    }
    let mut j: usize = i + 1;
    while j < n
        invariant
            s == st@,
            n == s.len(),
            0 <= i < n,
            s[i as int] == '@',
            forall|k: int| 0 <= k < i ==> s[k] != '@',
            i + 1 <= j <= n,
            forall|k: int| i < k < j ==> s[k] != '.',
        decreases n - j,
    {
        if st.get_char(j) == '.' {
            return true;
        }
        j = j + 1;
    }
    proof {
        if exists|i0: int, j0: int| 0 <= i0 < j0 < s.len() && s[i0] == '@' && s[j0] == '.' {
            let (i0, j0): (int, int) = choose|i0: int, j0: int|
                0 <= i0 < j0 < s.len() && s[i0] == '@' && s[j0] == '.';
            assert(i0 >= i);
            assert(j0 > i);
            assert(s[j0] != '.');
            assert(false);
        }
    }
    false
}

fn loosened_email_check(e: &Option<String>) -> (r: bool)
    ensures
        r == loosened_email_ok(*e),
{
    match e {
        None => true,
        Some(s) => {
            let n = s.as_str().unicode_len();
            if n <= 5 {
                return false;
            }
            has_at_then_dot(s.as_str())
        },
    }
}

fn genero_insert_pos(table: &Vec<Genero>, name: &String) -> (r: usize)
    ensures
        0 <= r <= table@.len(),
        forall|k: int| 0 <= k < r ==> lex_le((#[trigger] table@[k]).gen_genero@, name@),
        r < table@.len() ==> !lex_le(table@[r as int].gen_genero@, name@),
{
    let mut idx: usize = 0;
    while idx < table.len()
        invariant
            0 <= idx <= table@.len(),
            forall|k: int| 0 <= k < idx ==> lex_le((#[trigger] table@[k]).gen_genero@, name@),
        decreases table@.len() - idx,
    {
        if !str_le(table[idx].gen_genero.as_str(), name.as_str()) {
            return idx;
        }
        idx = idx + 1;
    }
    idx
}

fn insert_genero_sorted(table: &mut Vec<Genero>, g: Genero)
    requires
        sorted_generos(old(table)@),
    ensures
        sorted_generos(final(table)@),
        final(table)@.len() == old(table)@.len() + 1,
        exists|k: int|
            0 <= k <= old(table)@.len() && final(table)@ == old(table)@.insert(k, g),
{
    let pos = genero_insert_pos(table, &g.gen_genero);
    let ghost t0 = table@;
    let ghost gpos = pos as int;
    table.insert(pos, g);
    proof {
        t0.insert_ensures(gpos, g);
        assert forall|k: int|
            0 <= k && k + 1 < table@.len() implies lex_le(
            #[trigger] table@[k].gen_genero@,
            table@[k + 1].gen_genero@,
        ) by {
            if k + 1 < gpos {
                assert(t0.insert(gpos, g)[k] == t0[k]);
                assert(t0.insert(gpos, g)[k + 1] == t0[k + 1]);
            } else if k + 1 == gpos {
                assert(t0.insert(gpos, g)[k] == t0[k]);
            } else if k == gpos {
                assert(t0.insert(gpos, g)[k + 1] == t0[k]);
                assert(!lex_le(t0[gpos].gen_genero@, g.gen_genero@));
                lemma_lex_connex(t0[gpos].gen_genero@, g.gen_genero@);
            } else {
                assert(t0.insert(gpos, g)[k] == t0[k - 1]);
                assert(t0.insert(gpos, g)[k + 1] == t0[k]);
            }
        }
        assert(table@ == t0.insert(gpos, g));
    }
}

fn nacionalidad_insert_pos(table: &Vec<Nacionalidad>, name: &String) -> (r: usize)
    ensures
        0 <= r <= table@.len(),
        forall|k: int| 0 <= k < r ==> lex_le((#[trigger] table@[k]).nac_nacionalidad@, name@),
        r < table@.len() ==> !lex_le(table@[r as int].nac_nacionalidad@, name@),
{
    let mut idx: usize = 0;
    while idx < table.len()
        invariant
            0 <= idx <= table@.len(),
            forall|k: int|
                0 <= k < idx ==> lex_le((#[trigger] table@[k]).nac_nacionalidad@, name@),
        decreases table@.len() - idx,
    {
        if !str_le(table[idx].nac_nacionalidad.as_str(), name.as_str()) {
            return idx;
        }
        idx = idx + 1;
    }
    idx
}

fn insert_nacionalidad_sorted(table: &mut Vec<Nacionalidad>, g: Nacionalidad)
    requires
        sorted_nacionalidades(old(table)@),
    ensures
        sorted_nacionalidades(final(table)@),
        final(table)@.len() == old(table)@.len() + 1,
        exists|k: int|
            0 <= k <= old(table)@.len() && final(table)@ == old(table)@.insert(k, g),
{
    let pos = nacionalidad_insert_pos(table, &g.nac_nacionalidad);
    let ghost t0 = table@;
    let ghost gpos = pos as int;
    table.insert(pos, g);
    proof {
        t0.insert_ensures(gpos, g);
        assert forall|k: int|
            0 <= k && k + 1 < table@.len() implies lex_le(
            #[trigger] table@[k].nac_nacionalidad@,
            table@[k + 1].nac_nacionalidad@,
        ) by {
            if k + 1 < gpos {
                assert(t0.insert(gpos, g)[k] == t0[k]);
                assert(t0.insert(gpos, g)[k + 1] == t0[k + 1]);
            } else if k + 1 == gpos {
                assert(t0.insert(gpos, g)[k] == t0[k]);
            } else if k == gpos {
                assert(t0.insert(gpos, g)[k + 1] == t0[k]);
                assert(!lex_le(t0[gpos].nac_nacionalidad@, g.nac_nacionalidad@));
                lemma_lex_connex(t0[gpos].nac_nacionalidad@, g.nac_nacionalidad@);
            } else {
                assert(t0.insert(gpos, g)[k] == t0[k - 1]);
                assert(t0.insert(gpos, g)[k + 1] == t0[k]);
            }
        }
        assert(table@ == t0.insert(gpos, g));
    }
}

fn macro_sector_insert_pos(table: &Vec<MacroSector>, name: &String) -> (r: usize)
    ensures
        0 <= r <= table@.len(),
        forall|k: int| 0 <= k < r ==> lex_le((#[trigger] table@[k]).mac_nombre@, name@),
        r < table@.len() ==> !lex_le(table@[r as int].mac_nombre@, name@),
{
    let mut idx: usize = 0;
    while idx < table.len()
        invariant
            0 <= idx <= table@.len(),
            forall|k: int| 0 <= k < idx ==> lex_le((#[trigger] table@[k]).mac_nombre@, name@),
        decreases table@.len() - idx,
    {
        if !str_le(table[idx].mac_nombre.as_str(), name.as_str()) {
            return idx;
        }
        idx = idx + 1;
    }
    idx
}

fn insert_macro_sector_sorted(table: &mut Vec<MacroSector>, g: MacroSector)
    requires
        sorted_macro_sectores(old(table)@),
    ensures
        sorted_macro_sectores(final(table)@),
        final(table)@.len() == old(table)@.len() + 1,
        exists|k: int|
            0 <= k <= old(table)@.len() && final(table)@ == old(table)@.insert(k, g),
{
    let pos = macro_sector_insert_pos(table, &g.mac_nombre);
    let ghost t0 = table@;
    let ghost gpos = pos as int;
    table.insert(pos, g);
    proof {
        t0.insert_ensures(gpos, g);
        assert forall|k: int|
            0 <= k && k + 1 < table@.len() implies lex_le(
            #[trigger] table@[k].mac_nombre@,
            table@[k + 1].mac_nombre@,
        ) by {
            if k + 1 < gpos {
                assert(t0.insert(gpos, g)[k] == t0[k]);
                assert(t0.insert(gpos, g)[k + 1] == t0[k + 1]);
            } else if k + 1 == gpos {
                assert(t0.insert(gpos, g)[k] == t0[k]);
            } else if k == gpos {
                assert(t0.insert(gpos, g)[k + 1] == t0[k]);
                assert(!lex_le(t0[gpos].mac_nombre@, g.mac_nombre@));
                lemma_lex_connex(t0[gpos].mac_nombre@, g.mac_nombre@);
            } else {
                assert(t0.insert(gpos, g)[k] == t0[k - 1]);
                assert(t0.insert(gpos, g)[k + 1] == t0[k]);
            }
        }
        assert(table@ == t0.insert(gpos, g));
    }
}

fn unidad_insert_pos(table: &Vec<UnidadVecinal>, name: &String) -> (r: usize)
    ensures
        0 <= r <= table@.len(),
        forall|k: int| 0 <= k < r ==> lex_le((#[trigger] table@[k]).uv_nombre@, name@),
        r < table@.len() ==> !lex_le(table@[r as int].uv_nombre@, name@),
{
    let mut idx: usize = 0;
    while idx < table.len()
        invariant
            0 <= idx <= table@.len(),
            forall|k: int| 0 <= k < idx ==> lex_le((#[trigger] table@[k]).uv_nombre@, name@),
        decreases table@.len() - idx,
    {
        if !str_le(table[idx].uv_nombre.as_str(), name.as_str()) {
            return idx;
        }
        idx = idx + 1;
    }
    idx
}

fn insert_unidad_sorted(table: &mut Vec<UnidadVecinal>, g: UnidadVecinal)
    requires
        sorted_unidades(old(table)@),
    ensures
        sorted_unidades(final(table)@),
        final(table)@.len() == old(table)@.len() + 1,
        exists|k: int|
            0 <= k <= old(table)@.len() && final(table)@ == old(table)@.insert(k, g),
{
    let pos = unidad_insert_pos(table, &g.uv_nombre);
    let ghost t0 = table@;
    let ghost gpos = pos as int;
    table.insert(pos, g);
    proof {
        t0.insert_ensures(gpos, g);
        assert forall|k: int|
            0 <= k && k + 1 < table@.len() implies lex_le(
            #[trigger] table@[k].uv_nombre@,
            table@[k + 1].uv_nombre@,
        ) by {
            if k + 1 < gpos {
                assert(t0.insert(gpos, g)[k] == t0[k]);
                assert(t0.insert(gpos, g)[k + 1] == t0[k + 1]);
            } else if k + 1 == gpos {
                assert(t0.insert(gpos, g)[k] == t0[k]);
            } else if k == gpos {
                assert(t0.insert(gpos, g)[k + 1] == t0[k]);
                assert(!lex_le(t0[gpos].uv_nombre@, g.uv_nombre@));
                lemma_lex_connex(t0[gpos].uv_nombre@, g.uv_nombre@);
            } else {
                assert(t0.insert(gpos, g)[k] == t0[k - 1]);
                assert(t0.insert(gpos, g)[k + 1] == t0[k]);
            }
        }
        assert(table@ == t0.insert(gpos, g));
    }
}

fn organizacion_insert_pos(table: &Vec<OrganizacionComunitaria>, name: &String) -> (r: usize)
    ensures
        0 <= r <= table@.len(),
        forall|k: int| 0 <= k < r ==> lex_le((#[trigger] table@[k]).org_nombre@, name@),
        r < table@.len() ==> !lex_le(table@[r as int].org_nombre@, name@),
{
    let mut idx: usize = 0;
    while idx < table.len()
        invariant
            0 <= idx <= table@.len(),
            forall|k: int| 0 <= k < idx ==> lex_le((#[trigger] table@[k]).org_nombre@, name@),
        decreases table@.len() - idx,
    {
        if !str_le(table[idx].org_nombre.as_str(), name.as_str()) {
            return idx;
        }
        idx = idx + 1;
    }
    idx
}

fn insert_organizacion_sorted(table: &mut Vec<OrganizacionComunitaria>, g: OrganizacionComunitaria)
    requires
        sorted_organizaciones(old(table)@),
    ensures
        sorted_organizaciones(final(table)@),
        final(table)@.len() == old(table)@.len() + 1,
        exists|k: int|
            0 <= k <= old(table)@.len() && final(table)@ == old(table)@.insert(k, g),
{
    let pos = organizacion_insert_pos(table, &g.org_nombre);
    let ghost t0 = table@;
    let ghost gpos = pos as int;
    table.insert(pos, g);
    proof {
        t0.insert_ensures(gpos, g);
        assert forall|k: int|
            0 <= k && k + 1 < table@.len() implies lex_le(
            #[trigger] table@[k].org_nombre@,
            table@[k + 1].org_nombre@,
        ) by {
            if k + 1 < gpos {
                assert(t0.insert(gpos, g)[k] == t0[k]);
                assert(t0.insert(gpos, g)[k + 1] == t0[k + 1]);
            } else if k + 1 == gpos {
                assert(t0.insert(gpos, g)[k] == t0[k]);
            } else if k == gpos {
                assert(t0.insert(gpos, g)[k + 1] == t0[k]);
                assert(!lex_le(t0[gpos].org_nombre@, g.org_nombre@));
                lemma_lex_connex(t0[gpos].org_nombre@, g.org_nombre@);
            } else {
                assert(t0.insert(gpos, g)[k] == t0[k - 1]);
                assert(t0.insert(gpos, g)[k + 1] == t0[k]);
            }
        }
        assert(table@ == t0.insert(gpos, g));
    }
}

fn persona_key_le(a: &PersonaMayor, b: &PersonaMayor) -> (r: bool)
    ensures
        r == persona_le(*a, *b),
{
    if a.per_priapellido.eq(&b.per_priapellido) {
        str_le(a.per_prinombre.as_str(), b.per_prinombre.as_str())
    } else {
        str_le(a.per_priapellido.as_str(), b.per_priapellido.as_str())
    }
}

fn persona_insert_pos(table: &Vec<PersonaMayor>, p: &PersonaMayor) -> (r: usize)
    ensures
        0 <= r <= table@.len(),
        forall|k: int| 0 <= k < r ==> persona_le(#[trigger] table@[k], *p),
        r < table@.len() ==> !persona_le(table@[r as int], *p),
{
    let mut idx: usize = 0;
    while idx < table.len()
        invariant
            0 <= idx <= table@.len(),
            forall|k: int| 0 <= k < idx ==> persona_le(#[trigger] table@[k], *p),
        decreases table@.len() - idx,
    {
        if !persona_key_le(&table[idx], p) {
            return idx;
        }
        idx = idx + 1;
    }
    idx
}

proof fn lemma_persona_le_connex(a: PersonaMayor, b: PersonaMayor)
    ensures
        persona_le(a, b) || persona_le(b, a),
{
    lemma_lex_connex(a.per_priapellido@, b.per_priapellido@);
    lemma_lex_connex(a.per_prinombre@, b.per_prinombre@);
}

fn insert_persona_sorted(table: &mut Vec<PersonaMayor>, g: PersonaMayor)
    requires
        sorted_personas(old(table)@),
    ensures
        sorted_personas(final(table)@),
        final(table)@.len() == old(table)@.len() + 1,
        exists|k: int|
            0 <= k <= old(table)@.len() && final(table)@ == old(table)@.insert(k, g),
{
    let pos = persona_insert_pos(table, &g);
    let ghost t0 = table@;
    let ghost gpos = pos as int;
    table.insert(pos, g);
    proof {
        t0.insert_ensures(gpos, g);
        assert forall|k: int|
            0 <= k && k + 1 < table@.len() implies persona_le(
            #[trigger] table@[k],
            table@[k + 1],
        ) by {
            if k + 1 < gpos {
                assert(t0.insert(gpos, g)[k] == t0[k]);
                assert(t0.insert(gpos, g)[k + 1] == t0[k + 1]);
            } else if k + 1 == gpos {
                assert(t0.insert(gpos, g)[k] == t0[k]);
            } else if k == gpos {
                assert(t0.insert(gpos, g)[k + 1] == t0[k]);
                assert(!persona_le(t0[gpos], g));
                lemma_persona_le_connex(t0[gpos], g);
            } else {
                assert(t0.insert(gpos, g)[k] == t0[k - 1]);
                assert(t0.insert(gpos, g)[k + 1] == t0[k]);
            }
        }
        assert(table@ == t0.insert(gpos, g));
    }
}

fn act_before_exec(a: &Actividad, b: &Actividad) -> (r: bool)
    ensures
        r == act_before(*a, *b),
{
    let x = &b.act_fecha_ini;
    let y = &a.act_fecha_ini;
    if x.year != y.year {
        x.year < y.year
    } else if x.month != y.month {
        x.month < y.month
    } else {
        x.day <= y.day
    }
}

fn actividad_insert_pos(table: &Vec<Actividad>, p: &Actividad) -> (r: usize)
    ensures
        0 <= r <= table@.len(),
        forall|k: int| 0 <= k < r ==> act_before(#[trigger] table@[k], *p),
        r < table@.len() ==> !act_before(table@[r as int], *p),
{
    let mut idx: usize = 0;
    while idx < table.len()
        invariant
            0 <= idx <= table@.len(),
            forall|k: int| 0 <= k < idx ==> act_before(#[trigger] table@[k], *p),
        decreases table@.len() - idx,
    {
        if !act_before_exec(&table[idx], p) {
            return idx;
        }
        idx = idx + 1;
    }
    idx
}

fn insert_actividad_sorted(table: &mut Vec<Actividad>, g: Actividad)
    requires
        sorted_actividades(old(table)@),
    ensures
        sorted_actividades(final(table)@),
        final(table)@.len() == old(table)@.len() + 1,
        exists|k: int|
            0 <= k <= old(table)@.len() && final(table)@ == old(table)@.insert(k, g),
{
    let pos = actividad_insert_pos(table, &g);
    let ghost t0 = table@;
    let ghost gpos = pos as int;
    table.insert(pos, g);
    proof {
        t0.insert_ensures(gpos, g);
        assert forall|k: int|
            0 <= k && k + 1 < table@.len() implies act_before(
            #[trigger] table@[k],
            table@[k + 1],
        ) by {
            if k + 1 < gpos {
                assert(t0.insert(gpos, g)[k] == t0[k]);
                assert(t0.insert(gpos, g)[k + 1] == t0[k + 1]);
            } else if k + 1 == gpos {
                assert(t0.insert(gpos, g)[k] == t0[k]);
            } else if k == gpos {
                assert(t0.insert(gpos, g)[k + 1] == t0[k]);
                assert(!act_before(t0[gpos], g));
            } else {
                assert(t0.insert(gpos, g)[k] == t0[k - 1]);
                assert(t0.insert(gpos, g)[k + 1] == t0[k]);
            }
        }
        assert(table@ == t0.insert(gpos, g));
    }
}

/// The row a person insert stores: the record with its assigned identity,
/// and without the display-join fields, which only reads fill in.
pub open spec fn stored_persona(id: i32, p: PersonaMayor) -> PersonaMayor {
    PersonaMayor {
        per_id: id,
        gen_genero: None,
        nac_nacionalidad: None,
        uv_nombre: None,
        ..p
    }
}

/// The constraints the store holds a person insert to: a fresh national id,
/// the loosened email format, and live lookup references.
pub open spec fn persona_insert_ok(s: DatabaseManager, p: PersonaMayor) -> bool {
    &&& !rut_taken(s.spec_personas(), p.per_rut@)
    &&& loosened_email_ok(p.per_email)
    &&& gen_exists(s.spec_generos(), p.per_genid)
    &&& nac_exists(s.spec_nacionalidades(), p.per_nacid)
    &&& uv_exists(s.spec_unidades_vecinales(), p.per_uvid)
}

pub open spec fn stored_organizacion(id: i32, o: OrganizacionComunitaria) -> OrganizacionComunitaria {
    OrganizacionComunitaria { org_id: id, uv_nombre: None, ..o }
}

pub open spec fn stored_actividad(id: i32, a: Actividad) -> Actividad {
    Actividad { act_id: id, uv_nombre: None, ..a }
}

impl DatabaseManager {
    /// Stores a person row under a fresh identity; fails when the national
    /// id is taken, the email misses the loosened format, or a reference
    /// names no lookup row.
    pub fn insert_persona(&mut self, persona: &PersonaMayor) -> (r: Result<i32, StoreError>)
        requires
            old(self).wf(),
            old(self).spec_next_per_id() < i32::MAX,
        ensures
            final(self).wf(),
            final(self).is_connected() == old(self).is_connected(),
            r is Ok <==> old(self).is_connected() && persona_insert_ok(*old(self), *persona),
            !old(self).is_connected() ==> r == Result::<i32, StoreError>::Err(
                StoreError::NotConnected,
            ),
            old(self).is_connected() && !persona_insert_ok(*old(self), *persona) ==> r
                == Result::<i32, StoreError>::Err(StoreError::ConstraintViolation),
            r is Err ==> same_data(*old(self), *final(self)),
            r matches Ok(id) ==> {
                &&& id == old(self).spec_next_per_id()
                &&& final(self).spec_next_per_id() == old(self).spec_next_per_id() + 1
                &&& exists|k: int|
                    0 <= k <= old(self).spec_personas().len() && final(self).spec_personas()
                        == old(self).spec_personas().insert(k, stored_persona(id, *persona))
                &&& same_organizaciones(*old(self), *final(self))
                &&& same_actividades(*old(self), *final(self))
                &&& same_generos(*old(self), *final(self))
                &&& same_nacionalidades(*old(self), *final(self))
                &&& same_macro_sectores(*old(self), *final(self))
                &&& same_unidades(*old(self), *final(self))
                &&& same_talleres(*old(self), *final(self))
            },
    {
        if !self.connected {
            return Err(StoreError::NotConnected);
        }
        if find_rut(&self.personas, &persona.per_rut) {
            return Err(StoreError::ConstraintViolation);
        }
        if !loosened_email_check(&persona.per_email) {
            return Err(StoreError::ConstraintViolation);
        }
        if !find_genero_id(&self.generos, persona.per_genid) {
            return Err(StoreError::ConstraintViolation);
        }
        if !find_nacionalidad_id(&self.nacionalidades, persona.per_nacid) {
            return Err(StoreError::ConstraintViolation);
        }
        if !find_unidad_id(&self.unidades_vecinales, persona.per_uvid) {
            return Err(StoreError::ConstraintViolation);
        }
        let id = self.next_per_id;
        let stored = PersonaMayor {
            per_id: id,
            per_rut: persona.per_rut.clone(),
            per_prinombre: persona.per_prinombre.clone(),
            per_segnombre: clone_opt_string(&persona.per_segnombre),
            per_priapellido: persona.per_priapellido.clone(),
            per_segapellido: clone_opt_string(&persona.per_segapellido),
            per_genid: persona.per_genid,
            per_nacid: persona.per_nacid,
            per_fechadenac: persona.per_fechadenac,
            per_direccion: persona.per_direccion.clone(),
            per_email: clone_opt_string(&persona.per_email),
            per_uvid: persona.per_uvid,
            gen_genero: None,
            nac_nacionalidad: None,
            uv_nombre: None,
        };
        proof {
            assert(stored == stored_persona(id, *persona));
        }
        let ghost t0 = self.personas@;
        insert_persona_sorted(&mut self.personas, stored);
        self.next_per_id = id + 1;
        proof {
            let k = choose|k: int|
                0 <= k <= t0.len() && self.personas@ == t0.insert(k, stored_persona(id, *persona));
            t0.insert_ensures(k, stored_persona(id, *persona));
            assert forall|i: int|
                0 <= i < self.personas@.len() implies 0 < (#[trigger] self.personas@[i]).per_id
                < self.next_per_id by {
                if i < k {
                    assert(t0.insert(k, stored_persona(id, *persona))[i] == t0[i]);
                } else if i == k {
                } else {
                    assert(t0.insert(k, stored_persona(id, *persona))[i] == t0[i - 1]);
                }
            }
        }
        Ok(id)
    }

    /// Stores an organization row under a fresh identity; fails when the
    /// neighborhood-unit reference names no lookup row.
    pub fn insert_organizacion(&mut self, organizacion: &OrganizacionComunitaria) -> (r: Result<
        i32,
        StoreError,
    >)
        requires
            old(self).wf(),
            old(self).spec_next_org_id() < i32::MAX,
        ensures
            final(self).wf(),
            final(self).is_connected() == old(self).is_connected(),
            r is Ok <==> old(self).is_connected() && uv_exists(
                old(self).spec_unidades_vecinales(),
                organizacion.org_uvid,
            ),
            !old(self).is_connected() ==> r == Result::<i32, StoreError>::Err(
                StoreError::NotConnected,
            ),
            old(self).is_connected() && !uv_exists(
                old(self).spec_unidades_vecinales(),
                organizacion.org_uvid,
            ) ==> r == Result::<i32, StoreError>::Err(StoreError::ConstraintViolation),
            r is Err ==> same_data(*old(self), *final(self)),
            r matches Ok(id) ==> {
                &&& id == old(self).spec_next_org_id()
                &&& final(self).spec_next_org_id() == old(self).spec_next_org_id() + 1
                &&& exists|k: int|
                    0 <= k <= old(self).spec_organizaciones().len()
                        && final(self).spec_organizaciones()
                        == old(self).spec_organizaciones().insert(
                        k,
                        stored_organizacion(id, *organizacion),
                    )
                &&& same_personas(*old(self), *final(self))
                &&& same_actividades(*old(self), *final(self))
                &&& same_generos(*old(self), *final(self))
                &&& same_nacionalidades(*old(self), *final(self))
                &&& same_macro_sectores(*old(self), *final(self))
                &&& same_unidades(*old(self), *final(self))
                &&& same_talleres(*old(self), *final(self))
            },
    {
        if !self.connected {
            return Err(StoreError::NotConnected);
        }
        if !find_unidad_id(&self.unidades_vecinales, organizacion.org_uvid) {
            return Err(StoreError::ConstraintViolation);
        }
        let id = self.next_org_id;
        let stored = OrganizacionComunitaria {
            org_id: id,
            org_nombre: organizacion.org_nombre.clone(),
            org_direccion: organizacion.org_direccion.clone(),
            org_uvid: organizacion.org_uvid,
            org_fechaconst: organizacion.org_fechaconst,
            org_perjuridica: organizacion.org_perjuridica.clone(),
            org_email: clone_opt_string(&organizacion.org_email),
            uv_nombre: None,
        };
        proof {
            assert(stored == stored_organizacion(id, *organizacion));
        }
        let ghost t0 = self.organizaciones@;
        insert_organizacion_sorted(&mut self.organizaciones, stored);
        self.next_org_id = id + 1;
        proof {
            let k = choose|k: int|
                0 <= k <= t0.len() && self.organizaciones@ == t0.insert(
                    k,
                    stored_organizacion(id, *organizacion),
                );
            t0.insert_ensures(k, stored_organizacion(id, *organizacion));
            assert forall|i: int|
                0 <= i < self.organizaciones@.len() implies 0 < (
            #[trigger] self.organizaciones@[i]).org_id < self.next_org_id by {
                if i < k {
                    assert(t0.insert(k, stored_organizacion(id, *organizacion))[i] == t0[i]);
                } else if i == k {
                } else {
                    assert(t0.insert(k, stored_organizacion(id, *organizacion))[i] == t0[i - 1]);
                }
            }
            assert(0 <= k <= t0.len() && self.organizaciones@ == t0.insert(
                k,
                stored_organizacion(id, *organizacion),
            ));
            assert(t0 == old(self).spec_organizaciones());
            assert(exists|k2: int|
                0 <= k2 <= old(self).spec_organizaciones().len() && self.organizaciones@ == old(
                    self,
                ).spec_organizaciones().insert(k2, stored_organizacion(id, *organizacion)));
        }
        Ok(id)
    }

    /// Stores an activity row under a fresh identity; fails when the
    /// neighborhood-unit reference names no lookup row.
    pub fn insert_actividad(&mut self, actividad: &Actividad) -> (r: Result<i32, StoreError>)
        requires
            old(self).wf(),
            old(self).spec_next_act_id() < i32::MAX,
        ensures
            final(self).wf(),
            final(self).is_connected() == old(self).is_connected(),
            r is Ok <==> old(self).is_connected() && uv_exists(
                old(self).spec_unidades_vecinales(),
                actividad.act_uvid,
            ),
            !old(self).is_connected() ==> r == Result::<i32, StoreError>::Err(
                StoreError::NotConnected,
            ),
            old(self).is_connected() && !uv_exists(
                old(self).spec_unidades_vecinales(),
                actividad.act_uvid,
            ) ==> r == Result::<i32, StoreError>::Err(StoreError::ConstraintViolation),
            r is Err ==> same_data(*old(self), *final(self)),
            r matches Ok(id) ==> {
                &&& id == old(self).spec_next_act_id()
                &&& final(self).spec_next_act_id() == old(self).spec_next_act_id() + 1
                &&& exists|k: int|
                    0 <= k <= old(self).spec_actividades().len() && final(self).spec_actividades()
                        == old(self).spec_actividades().insert(
                        k,
                        stored_actividad(id, *actividad),
                    )
                &&& same_personas(*old(self), *final(self))
                &&& same_organizaciones(*old(self), *final(self))
                &&& same_generos(*old(self), *final(self))
                &&& same_nacionalidades(*old(self), *final(self))
                &&& same_macro_sectores(*old(self), *final(self))
                &&& same_unidades(*old(self), *final(self))
                &&& same_talleres(*old(self), *final(self))
            },
    {
        if !self.connected {
            return Err(StoreError::NotConnected);
        }
        if !find_unidad_id(&self.unidades_vecinales, actividad.act_uvid) {
            return Err(StoreError::ConstraintViolation);
        }
        let id = self.next_act_id;
        let stored = Actividad {
            act_id: id,
            act_nombre: actividad.act_nombre.clone(),
            act_uvid: actividad.act_uvid,
            act_fecha_ini: actividad.act_fecha_ini,
            act_fecha_fin: actividad.act_fecha_fin,
            act_descripcion: clone_opt_string(&actividad.act_descripcion),
            uv_nombre: None,
        };
        proof {
            assert(stored == stored_actividad(id, *actividad));
        }
        let ghost t0 = self.actividades@;
        insert_actividad_sorted(&mut self.actividades, stored);
        self.next_act_id = id + 1;
        proof {
            let k = choose|k: int|
                0 <= k <= t0.len() && self.actividades@ == t0.insert(
                    k,
                    stored_actividad(id, *actividad),
                );
            t0.insert_ensures(k, stored_actividad(id, *actividad));
            assert forall|i: int|
                0 <= i < self.actividades@.len() implies 0 < (
            #[trigger] self.actividades@[i]).act_id < self.next_act_id by {
                if i < k {
                    assert(t0.insert(k, stored_actividad(id, *actividad))[i] == t0[i]);
                } else if i == k {
                } else {
                    assert(t0.insert(k, stored_actividad(id, *actividad))[i] == t0[i - 1]);
                }
            }
            assert(0 <= k <= t0.len() && self.actividades@ == t0.insert(
                k,
                stored_actividad(id, *actividad),
            ));
            assert(t0 == old(self).spec_actividades());
            assert(exists|k2: int|
                0 <= k2 <= old(self).spec_actividades().len() && self.actividades@ == old(
                    self,
                ).spec_actividades().insert(k2, stored_actividad(id, *actividad)));
        }
        Ok(id)
    }

    /// Stores a macro-sector lookup row under a fresh identity.
    pub fn insert_macro_sector(&mut self, nombre: &str) -> (r: Result<i32, StoreError>)
        requires
            old(self).wf(),
            old(self).spec_next_mac_id() < i32::MAX,
        ensures
            final(self).wf(),
            final(self).is_connected() == old(self).is_connected(),
            r is Ok <==> old(self).is_connected(),
            r is Err ==> r->Err_0 == StoreError::NotConnected && same_data(
                *old(self),
                *final(self),
            ),
            r matches Ok(id) ==> {
                &&& id == old(self).spec_next_mac_id()
                &&& final(self).spec_next_mac_id() == old(self).spec_next_mac_id() + 1
                &&& exists|k: int, m: MacroSector|
                    0 <= k <= old(self).spec_macro_sectores().len() && m.mac_id == id
                        && m.mac_nombre@ == nombre@ && final(self).spec_macro_sectores()
                        == old(self).spec_macro_sectores().insert(k, m)
                &&& same_personas(*old(self), *final(self))
                &&& same_organizaciones(*old(self), *final(self))
                &&& same_actividades(*old(self), *final(self))
                &&& same_generos(*old(self), *final(self))
                &&& same_nacionalidades(*old(self), *final(self))
                &&& same_unidades(*old(self), *final(self))
                &&& same_talleres(*old(self), *final(self))
            },
    {
        if !self.connected {
            return Err(StoreError::NotConnected);
        }
        let id = self.next_mac_id;
        let stored = MacroSector { mac_id: id, mac_nombre: nombre.to_owned() };
        let ghost m = stored;
        let ghost t0 = self.macro_sectores@;
        insert_macro_sector_sorted(&mut self.macro_sectores, stored);
        self.next_mac_id = id + 1;
        proof {
            let k = choose|k: int| 0 <= k <= t0.len() && self.macro_sectores@ == t0.insert(k, m);
            t0.insert_ensures(k, m);
            assert forall|i: int|
                0 <= i < self.macro_sectores@.len() implies 0 < (
            #[trigger] self.macro_sectores@[i]).mac_id < self.next_mac_id by {
                if i < k {
                    assert(t0.insert(k, m)[i] == t0[i]);
                } else if i == k {
                } else {
                    assert(t0.insert(k, m)[i] == t0[i - 1]);
                }
            }
            assert(0 <= k <= t0.len() && m.mac_id == id && m.mac_nombre@ == nombre@
                && self.macro_sectores@ == t0.insert(k, m));
            assert(t0 == old(self).spec_macro_sectores());
            assert(exists|k2: int, m2: MacroSector|
                0 <= k2 <= old(self).spec_macro_sectores().len() && m2.mac_id == id
                    && m2.mac_nombre@ == nombre@ && self.macro_sectores@ == old(
                    self,
                ).spec_macro_sectores().insert(k2, m2));
        }
        Ok(id)
    }

    /// Stores a neighborhood-unit lookup row under a fresh identity; fails
    /// when the macro-sector reference names no lookup row.
    pub fn insert_unidad_vecinal(&mut self, nombre: &str, macro_sector_id: i32) -> (r: Result<
        i32,
        StoreError,
    >)
        requires
            old(self).wf(),
            old(self).spec_next_uv_id() < i32::MAX,
        ensures
            final(self).wf(),
            final(self).is_connected() == old(self).is_connected(),
            r is Ok <==> old(self).is_connected() && mac_exists(
                old(self).spec_macro_sectores(),
                macro_sector_id,
            ),
            !old(self).is_connected() ==> r == Result::<i32, StoreError>::Err(
                StoreError::NotConnected,
            ),
            old(self).is_connected() && !mac_exists(
                old(self).spec_macro_sectores(),
                macro_sector_id,
            ) ==> r == Result::<i32, StoreError>::Err(StoreError::ConstraintViolation),
            r is Err ==> same_data(*old(self), *final(self)),
            r matches Ok(id) ==> {
                &&& id == old(self).spec_next_uv_id()
                &&& final(self).spec_next_uv_id() == old(self).spec_next_uv_id() + 1
                &&& exists|k: int, m: UnidadVecinal|
                    0 <= k <= old(self).spec_unidades_vecinales().len() && m.uv_id == id
                        && m.uv_nombre@ == nombre@ && m.uv_macid == macro_sector_id
                        && m.mac_nombre is None && final(self).spec_unidades_vecinales()
                        == old(self).spec_unidades_vecinales().insert(k, m)
                &&& same_personas(*old(self), *final(self))
                &&& same_organizaciones(*old(self), *final(self))
                &&& same_actividades(*old(self), *final(self))
                &&& same_generos(*old(self), *final(self))
                &&& same_nacionalidades(*old(self), *final(self))
                &&& same_macro_sectores(*old(self), *final(self))
                &&& same_talleres(*old(self), *final(self))
            },
    {
        if !self.connected {
            return Err(StoreError::NotConnected);
        }
        if !find_macro_sector_id(&self.macro_sectores, macro_sector_id) {
            return Err(StoreError::ConstraintViolation);
        }
        let id = self.next_uv_id;
        let stored = UnidadVecinal {
            uv_id: id,
            uv_nombre: nombre.to_owned(),
            uv_macid: macro_sector_id,
            mac_nombre: None,
        };
        let ghost m = stored;
        let ghost t0 = self.unidades_vecinales@;
        insert_unidad_sorted(&mut self.unidades_vecinales, stored);
        self.next_uv_id = id + 1;
        proof {
            let k = choose|k: int|
                0 <= k <= t0.len() && self.unidades_vecinales@ == t0.insert(k, m);
            t0.insert_ensures(k, m);
            assert forall|i: int|
                0 <= i < self.unidades_vecinales@.len() implies 0 < (
            #[trigger] self.unidades_vecinales@[i]).uv_id < self.next_uv_id by {
                if i < k {
                    assert(t0.insert(k, m)[i] == t0[i]);
                } else if i == k {
                } else {
                    assert(t0.insert(k, m)[i] == t0[i - 1]);
                }
            }
            assert(0 <= k <= t0.len() && m.uv_id == id && m.uv_nombre@ == nombre@ && m.uv_macid
                == macro_sector_id && m.mac_nombre is None && self.unidades_vecinales@
                == t0.insert(k, m));
            assert(t0 == old(self).spec_unidades_vecinales());
            assert(exists|k2: int, m2: UnidadVecinal|
                0 <= k2 <= old(self).spec_unidades_vecinales().len() && m2.uv_id == id
                    && m2.uv_nombre@ == nombre@ && m2.uv_macid == macro_sector_id && m2.mac_nombre
                    is None && self.unidades_vecinales@ == old(
                    self,
                ).spec_unidades_vecinales().insert(k2, m2));
        }
        Ok(id)
    }

    /// Stores a workshop lookup row under a fresh identity.
    pub fn insert_taller(&mut self, nombre: &str) -> (r: Result<i32, StoreError>)
        requires
            old(self).wf(),
            old(self).spec_next_tal_id() < i32::MAX,
        ensures
            final(self).wf(),
            final(self).is_connected() == old(self).is_connected(),
            r is Ok <==> old(self).is_connected(),
            r is Err ==> r->Err_0 == StoreError::NotConnected && same_data(
                *old(self),
                *final(self),
            ),
            r matches Ok(id) ==> {
                &&& id == old(self).spec_next_tal_id()
                &&& final(self).spec_next_tal_id() == old(self).spec_next_tal_id() + 1
                &&& exists|m: Taller|
                    m.tal_id == id && m.tal_nombre@ == nombre@ && final(self).spec_talleres()
                        == old(self).spec_talleres().push(m)
                &&& same_personas(*old(self), *final(self))
                &&& same_organizaciones(*old(self), *final(self))
                &&& same_actividades(*old(self), *final(self))
                &&& same_generos(*old(self), *final(self))
                &&& same_nacionalidades(*old(self), *final(self))
                &&& same_macro_sectores(*old(self), *final(self))
                &&& same_unidades(*old(self), *final(self))
            },
    {
        if !self.connected {
            return Err(StoreError::NotConnected);
        }
        let id = self.next_tal_id;
        let stored = Taller { tal_id: id, tal_nombre: nombre.to_owned() };
        let ghost m = stored;
        let ghost t0 = self.talleres@;
        self.talleres.push(stored);
        self.next_tal_id = id + 1;
        proof {
            assert forall|i: int|
                0 <= i < self.talleres@.len() implies 0 < (#[trigger] self.talleres@[i]).tal_id
                < self.next_tal_id by {
                if i < self.talleres@.len() - 1 {
                    assert(self.talleres@[i] == t0[i]);
                }
            }
            assert(m.tal_id == id && m.tal_nombre@ == nombre@ && self.talleres@ == t0.push(m));
            assert(t0 == old(self).spec_talleres());
            assert(exists|m2: Taller|
                m2.tal_id == id && m2.tal_nombre@ == nombre@ && self.talleres@ == old(
                    self,
                ).spec_talleres().push(m2));
        }
        Ok(id)
    }

    /// Stores a gender lookup row under a fresh identity.
    pub fn insert_genero(&mut self, nombre: &str) -> (r: Result<i32, StoreError>)
        requires
            old(self).wf(),
            old(self).spec_next_gen_id() < i32::MAX,
        ensures
            final(self).wf(),
            final(self).is_connected() == old(self).is_connected(),
            r is Ok <==> old(self).is_connected(),
            r is Err ==> r->Err_0 == StoreError::NotConnected && same_data(
                *old(self),
                *final(self),
            ),
            r matches Ok(id) ==> {
                &&& id == old(self).spec_next_gen_id()
                &&& final(self).spec_next_gen_id() == old(self).spec_next_gen_id() + 1
                &&& exists|k: int, m: Genero|
                    0 <= k <= old(self).spec_generos().len() && m.gen_id == id && m.gen_genero@
                        == nombre@ && final(self).spec_generos() == old(self).spec_generos().insert(
                        k,
                        m,
                    )
                &&& same_personas(*old(self), *final(self))
                &&& same_organizaciones(*old(self), *final(self))
                &&& same_actividades(*old(self), *final(self))
                &&& same_nacionalidades(*old(self), *final(self))
                &&& same_macro_sectores(*old(self), *final(self))
                &&& same_unidades(*old(self), *final(self))
                &&& same_talleres(*old(self), *final(self))
            },
    {
        if !self.connected {
            return Err(StoreError::NotConnected);
        }
        let id = self.next_gen_id;
        let stored = Genero { gen_id: id, gen_genero: nombre.to_owned() };
        let ghost m = stored;
        let ghost t0 = self.generos@;
        insert_genero_sorted(&mut self.generos, stored);
        self.next_gen_id = id + 1;
        proof {
            let k = choose|k: int| 0 <= k <= t0.len() && self.generos@ == t0.insert(k, m);
            t0.insert_ensures(k, m);
            assert forall|i: int|
                0 <= i < self.generos@.len() implies 0 < (#[trigger] self.generos@[i]).gen_id
                < self.next_gen_id by {
                if i < k {
                    assert(t0.insert(k, m)[i] == t0[i]);
                } else if i == k {
                } else {
                    assert(t0.insert(k, m)[i] == t0[i - 1]);
                }
            }
            assert(0 <= k <= t0.len() && m.gen_id == id && m.gen_genero@ == nombre@
                && self.generos@ == t0.insert(k, m));
            assert(t0 == old(self).spec_generos());
            assert(exists|k2: int, m2: Genero|
                0 <= k2 <= old(self).spec_generos().len() && m2.gen_id == id && m2.gen_genero@
                    == nombre@ && self.generos@ == old(self).spec_generos().insert(k2, m2));
        }
        Ok(id)
    }

    /// Stores a nationality lookup row under a fresh identity.
    pub fn insert_nacionalidad(&mut self, nombre: &str) -> (r: Result<i32, StoreError>)
        requires
            old(self).wf(),
            old(self).spec_next_nac_id() < i32::MAX,
        ensures
            final(self).wf(),
            final(self).is_connected() == old(self).is_connected(),
            r is Ok <==> old(self).is_connected(),
            r is Err ==> r->Err_0 == StoreError::NotConnected && same_data(
                *old(self),
                *final(self),
            ),
            r matches Ok(id) ==> {
                &&& id == old(self).spec_next_nac_id()
                &&& final(self).spec_next_nac_id() == old(self).spec_next_nac_id() + 1
                &&& exists|k: int, m: Nacionalidad|
                    0 <= k <= old(self).spec_nacionalidades().len() && m.nac_id == id
                        && m.nac_nacionalidad@ == nombre@ && final(self).spec_nacionalidades()
                        == old(self).spec_nacionalidades().insert(k, m)
                &&& same_personas(*old(self), *final(self))
                &&& same_organizaciones(*old(self), *final(self))
                &&& same_actividades(*old(self), *final(self))
                &&& same_generos(*old(self), *final(self))
                &&& same_macro_sectores(*old(self), *final(self))
                &&& same_unidades(*old(self), *final(self))
                &&& same_talleres(*old(self), *final(self))
            },
    {
        if !self.connected {
            return Err(StoreError::NotConnected);
        }
        let id = self.next_nac_id;
        let stored = Nacionalidad { nac_id: id, nac_nacionalidad: nombre.to_owned() };
        let ghost m = stored;
        let ghost t0 = self.nacionalidades@;
        insert_nacionalidad_sorted(&mut self.nacionalidades, stored);
        self.next_nac_id = id + 1;
        proof {
            let k = choose|k: int| 0 <= k <= t0.len() && self.nacionalidades@ == t0.insert(k, m);
            t0.insert_ensures(k, m);
            assert forall|i: int|
                0 <= i < self.nacionalidades@.len() implies 0 < (
            #[trigger] self.nacionalidades@[i]).nac_id < self.next_nac_id by {
                if i < k {
                    assert(t0.insert(k, m)[i] == t0[i]);
                } else if i == k {
                } else {
                    assert(t0.insert(k, m)[i] == t0[i - 1]);
                }
            }
            assert(0 <= k <= t0.len() && m.nac_id == id && m.nac_nacionalidad@ == nombre@
                && self.nacionalidades@ == t0.insert(k, m));
            assert(t0 == old(self).spec_nacionalidades());
            assert(exists|k2: int, m2: Nacionalidad|
                0 <= k2 <= old(self).spec_nacionalidades().len() && m2.nac_id == id
                    && m2.nac_nacionalidad@ == nombre@ && self.nacionalidades@ == old(
                    self,
                ).spec_nacionalidades().insert(k2, m2));
        }
        Ok(id)
    }

    /// Answers whether the given text meets the email pattern the backing
    /// store tests with its own expression; the pattern matches this
    /// library's email format.
    pub fn test_email_constraint(&self, email: &str) -> (r: Result<bool, StoreError>)
        ensures
            r is Ok <==> self.is_connected(),
            r is Err ==> r->Err_0 == StoreError::NotConnected,
            r matches Ok(b) ==> b == valid_email(email@),
    {
        if !self.connected {
            return Err(StoreError::NotConnected);
        }
        Ok(validate_email(email))
    }

    /// Re-applies the loosened email-format constraint on the person table;
    /// idempotent. The model holds the loosened check inside the person
    /// insert, so there is nothing further to change here.
    pub fn fix_email_constraint_temp(&self) -> (r: Result<(), StoreError>)
        ensures
            r is Ok <==> self.is_connected(),
            r is Err ==> r->Err_0 == StoreError::NotConnected,
    {
        if !self.connected {
            return Err(StoreError::NotConnected);
        }
        Ok(())
    }
}

/// In a well-formed store every next identity is at least one, and every
/// table is shorter than its next identity.
pub proof fn lemma_wf_bounds(db: DatabaseManager)
    requires
        db.wf(),
    ensures
        db.spec_next_per_id() >= 1,
        db.spec_next_org_id() >= 1,
        db.spec_next_act_id() >= 1,
        db.spec_next_mac_id() >= 1,
        db.spec_next_uv_id() >= 1,
        db.spec_next_tal_id() >= 1,
        db.spec_next_gen_id() >= 1,
        db.spec_next_nac_id() >= 1,
        db.spec_personas().len() < db.spec_next_per_id(),
        db.spec_organizaciones().len() < db.spec_next_org_id(),
        db.spec_actividades().len() < db.spec_next_act_id(),
        db.spec_macro_sectores().len() < db.spec_next_mac_id(),
        db.spec_unidades_vecinales().len() < db.spec_next_uv_id(),
        db.spec_talleres().len() < db.spec_next_tal_id(),
        db.spec_generos().len() < db.spec_next_gen_id(),
        db.spec_nacionalidades().len() < db.spec_next_nac_id(),
{
}

/// A fresh person identity is strictly greater than every identity already
/// listed, and the stored record lists together with it: a successful insert
/// followed by a listing shows the record under an identity above all
/// previously observed ones.
pub proof fn lemma_insert_persona_monotonic(
    pre: DatabaseManager,
    post: DatabaseManager,
    p: PersonaMayor,
    id: i32,
)
    requires
        pre.wf(),
        id == pre.spec_next_per_id(),
        exists|k: int|
            0 <= k <= pre.spec_personas().len() && post.spec_personas()
                == pre.spec_personas().insert(k, stored_persona(id, p)),
    ensures
        forall|i: int|
            0 <= i < pre.spec_personas().len() ==> (#[trigger] pre.spec_personas()[i]).per_id < id,
        exists|i: int|
            0 <= i < post.spec_personas().len() && (#[trigger] post.spec_personas()[i])
                == stored_persona(id, p),
{
    let k = choose|k: int|
        0 <= k <= pre.spec_personas().len() && post.spec_personas()
            == pre.spec_personas().insert(k, stored_persona(id, p));
    pre.spec_personas().insert_ensures(k, stored_persona(id, p));
    assert(post.spec_personas()[k] == stored_persona(id, p));
}

} // verus!
