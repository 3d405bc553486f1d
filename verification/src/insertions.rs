//! The insertion screen controller: one form per record kind, client-side
//! validation that blocks a submission before any store work, the build of
//! the record a background unit will store, and the polling protocol for at
//! most one outstanding insertion.

use vstd::prelude::*;
use crate::models::{
    PersonaMayor, OrganizacionComunitaria, Actividad, Genero, Nacionalidad, UnidadVecinal,
    MacroSector,
};
use crate::dates::{Date, valid_date};
use crate::store::{
    DatabaseManager, persona_insert_ok, uv_exists, mac_exists, uv_joined, same_data,
    lemma_wf_bounds,
};
use crate::text::{trimmed, trim_str, dec_repr, u32_to_string};
use crate::utils::{iso_shape, iso_year, iso_month, iso_day, parse_iso_date};
use crate::validate::{valid_rut, validate_rut_format};

verus! {

/// The record kind being inserted.
#[derive(Debug, Clone, Copy, PartialEq, Eq, Structural)]
pub enum InsertionType {
    Persona,
    Organizacion,
    Actividad,
    MacroSector,
    UnidadVecinal,
    Taller,
}

/// A catalog refresh delivered by a background load.
#[derive(Debug)]
pub enum CatalogUpdate {
    Generos(Vec<Genero>),
    Nacionalidades(Vec<Nacionalidad>),
    UnidadesVecinales(Vec<UnidadVecinal>),
    MacroSectores(Vec<MacroSector>),
}

/// An insertion for the background runner to perform.
pub enum InsertRequest {
    Persona(PersonaMayor),
    Organizacion(OrganizacionComunitaria),
    Actividad(Actividad),
    MacroSector(String),
    UnidadVecinal(String, i32),
    Taller(String),
}

#[derive(Debug, Clone)]
pub struct PersonaForm {
    pub rut: String,
    pub primer_nombre: String,
    pub segundo_nombre: String,
    pub primer_apellido: String,
    pub segundo_apellido: String,
    pub genero_id: Option<i32>,
    pub nacionalidad_id: Option<i32>,
    pub fecha_nacimiento: String,
    pub direccion: String,
    pub email: String,
    pub unidad_vecinal_id: Option<i32>,
}

pub open spec fn persona_form_empty(f: PersonaForm) -> bool {
    &&& f.rut@.len() == 0
    &&& f.primer_nombre@.len() == 0
    &&& f.segundo_nombre@.len() == 0
    &&& f.primer_apellido@.len() == 0
    &&& f.segundo_apellido@.len() == 0
    &&& f.genero_id is None
    &&& f.nacionalidad_id is None
    &&& f.fecha_nacimiento@.len() == 0
    &&& f.direccion@.len() == 0
    &&& f.email@.len() == 0
    &&& f.unidad_vecinal_id is None
}

impl Default for PersonaForm {
    fn default() -> (r: Self)
        ensures
            persona_form_empty(r),
    {
        PersonaForm {
            rut: String::new(),
            primer_nombre: String::new(),
            segundo_nombre: String::new(),
            primer_apellido: String::new(),
            segundo_apellido: String::new(),
            genero_id: None,
            nacionalidad_id: None,
            fecha_nacimiento: String::new(),
            direccion: String::new(),
            email: String::new(),
            unidad_vecinal_id: None,
        }
    }
}

#[derive(Debug, Clone)]
pub struct OrganizacionForm {
    pub nombre: String,
    pub direccion: String,
    pub fecha_constitucion: String,
    pub personalidad_juridica: String,
    pub email: String,
    pub unidad_vecinal_id: Option<i32>,
}

pub open spec fn organizacion_form_empty(f: OrganizacionForm) -> bool {
    &&& f.nombre@.len() == 0
    &&& f.direccion@.len() == 0
    &&& f.fecha_constitucion@.len() == 0
    &&& f.personalidad_juridica@.len() == 0
    &&& f.email@.len() == 0
    &&& f.unidad_vecinal_id is None
}

impl Default for OrganizacionForm {
    fn default() -> (r: Self)
        ensures
            organizacion_form_empty(r),
    {
        OrganizacionForm {
            nombre: String::new(),
            direccion: String::new(),
            fecha_constitucion: String::new(),
            personalidad_juridica: String::new(),
            email: String::new(),
            unidad_vecinal_id: None,
        }
    }
}

#[derive(Debug, Clone)]
pub struct ActividadForm {
    pub nombre: String,
    pub fecha_inicio: String,
    pub fecha_fin: String,
    pub descripcion: String,
    pub unidad_vecinal_id: Option<i32>,
}

pub open spec fn actividad_form_empty(f: ActividadForm) -> bool {
    &&& f.nombre@.len() == 0
    &&& f.fecha_inicio@.len() == 0
    &&& f.fecha_fin@.len() == 0
    &&& f.descripcion@.len() == 0
    &&& f.unidad_vecinal_id is None
}

impl Default for ActividadForm {
    fn default() -> (r: Self)
        ensures
            actividad_form_empty(r),
    {
        ActividadForm {
            nombre: String::new(),
            fecha_inicio: String::new(),
            fecha_fin: String::new(),
            descripcion: String::new(),
            unidad_vecinal_id: None,
        }
    }
}

#[derive(Debug, Clone)]
pub struct MacroSectorForm {
    pub nombre: String,
}

impl Default for MacroSectorForm {
    fn default() -> (r: Self)
        ensures
            r.nombre@.len() == 0,
    {
        MacroSectorForm { nombre: String::new() }
    }
}

#[derive(Debug, Clone)]
pub struct UnidadVecinalForm {
    pub nombre: String,
    pub macro_sector_id: Option<i32>,
}

impl Default for UnidadVecinalForm {
    fn default() -> (r: Self)
        ensures
            r.nombre@.len() == 0,
            r.macro_sector_id is None,
    {
        UnidadVecinalForm { nombre: String::new(), macro_sector_id: None }
    }
}

#[derive(Debug, Clone)]
pub struct TallerForm {
    pub nombre: String,
}

impl Default for TallerForm {
    fn default() -> (r: Self)
        ensures
            r.nombre@.len() == 0,
    {
        TallerForm { nombre: String::new() }
    }
}

pub open spec fn has_char(s: Seq<char>, c: char) -> bool {
    exists|i: int| 0 <= i < s.len() && s[i] == c
}

/// The minimal client-side email check of the person form: empty text is
/// fine, anything else must hold an `@` and a dot somewhere and be longer
/// than five characters, after trimming.
pub open spec fn form_email_ok(e: Seq<char>) -> bool {
    trimmed(e).len() == 0 || (has_char(trimmed(e), '@') && has_char(trimmed(e), '.') && trimmed(
        e,
    ).len() > 5)
}

/// The person form submits only with a well-formed national id, the
/// required names, references and date filled, and an acceptable email.
pub open spec fn persona_form_valid(f: PersonaForm) -> bool {
    &&& valid_rut(trimmed(f.rut@))
    &&& f.primer_nombre@.len() > 0
    &&& f.primer_apellido@.len() > 0
    &&& f.genero_id is Some
    &&& f.nacionalidad_id is Some
    &&& f.fecha_nacimiento@.len() > 0
    &&& f.direccion@.len() > 0
    &&& f.unidad_vecinal_id is Some
    &&& form_email_ok(f.email@)
}

/// The organization form submits only with every required field filled.
pub open spec fn organizacion_form_valid(f: OrganizacionForm) -> bool {
    &&& f.nombre@.len() > 0
    &&& f.direccion@.len() > 0
    &&& f.fecha_constitucion@.len() > 0
    &&& f.personalidad_juridica@.len() > 0
    &&& f.unidad_vecinal_id is Some
}

pub open spec fn actividad_form_valid(f: ActividadForm) -> bool {
    &&& f.nombre@.len() > 0
    &&& f.fecha_inicio@.len() > 0
    &&& f.unidad_vecinal_id is Some
}

pub open spec fn unidad_vecinal_form_valid(f: UnidadVecinalForm) -> bool {
    &&& f.nombre@.len() > 0
    &&& f.macro_sector_id is Some
}

fn has_char_exec(s: &str, c: char) -> (r: bool)
    ensures
        r == has_char(s@, c),
{
    let n = s.unicode_len();
    let mut i: usize = 0;
    while i < n
        invariant
            n == s@.len(),
            0 <= i <= n,
            forall|k: int| 0 <= k < i ==> s@[k] != c,
        decreases n - i,
    {
        if s.get_char(i) == c {
            return true;
        }
        i = i + 1;
    }
    false
}

/// The date an insertion form's date field yields: the `yyyy-mm-dd` value
/// when the text has that shape and names a real day, else the fallback.
pub open spec fn form_date(s: Seq<char>, fallback: Date) -> Date {
    if iso_shape(s) && valid_date(iso_year(s), iso_month(s), iso_day(s)) {
        Date { year: iso_year(s) as i32, month: iso_month(s) as u32, day: iso_day(s) as u32 }
    } else {
        fallback
    }
}

/// The record the person form builds: identity left for the store, optional
/// text absent when blank, missing references defaulted to the first row,
/// the date read as `yyyy-mm-dd` with an out-of-shape value falling back.
pub open spec fn persona_built_from(p: PersonaMayor, f: PersonaForm) -> bool {
    &&& p.per_id == 0
    &&& p.per_rut@ == f.rut@
    &&& p.per_prinombre@ == f.primer_nombre@
    &&& (f.segundo_nombre@.len() == 0 ==> p.per_segnombre is None)
    &&& (f.segundo_nombre@.len() > 0 ==> (p.per_segnombre matches Some(s) && s@
        == f.segundo_nombre@))
    &&& p.per_priapellido@ == f.primer_apellido@
    &&& (f.segundo_apellido@.len() == 0 ==> p.per_segapellido is None)
    &&& (f.segundo_apellido@.len() > 0 ==> (p.per_segapellido matches Some(s) && s@
        == f.segundo_apellido@))
    &&& p.per_genid == (match f.genero_id {
        Some(g) => g,
        None => 1,
    })
    &&& p.per_nacid == (match f.nacionalidad_id {
        Some(n) => n,
        None => 1,
    })
    &&& p.per_fechadenac == form_date(f.fecha_nacimiento@, Date { year: 1950, month: 1, day: 1 })
    &&& p.per_direccion@ == f.direccion@
    &&& (trimmed(f.email@).len() == 0 ==> p.per_email is None)
    &&& (trimmed(f.email@).len() > 0 ==> (p.per_email matches Some(e) && e@ == trimmed(f.email@)))
    &&& p.per_uvid == (match f.unidad_vecinal_id {
        Some(u) => u,
        None => 1,
    })
    &&& p.gen_genero is None
    &&& p.nac_nacionalidad is None
    &&& p.uv_nombre is None
}

pub open spec fn organizacion_built_from(o: OrganizacionComunitaria, f: OrganizacionForm) -> bool {
    &&& o.org_id == 0
    &&& o.org_nombre@ == f.nombre@
    &&& o.org_direccion@ == f.direccion@
    &&& o.org_uvid == (match f.unidad_vecinal_id {
        Some(u) => u,
        None => 1,
    })
    &&& o.org_fechaconst == form_date(
        f.fecha_constitucion@,
        Date { year: 2024, month: 1, day: 1 },
    )
    &&& o.org_perjuridica@ == f.personalidad_juridica@
    &&& (trimmed(f.email@).len() == 0 ==> o.org_email is None)
    &&& (trimmed(f.email@).len() > 0 ==> (o.org_email matches Some(e) && e@ == trimmed(f.email@)))
    &&& o.uv_nombre is None
}

pub open spec fn actividad_built_from(a: Actividad, f: ActividadForm) -> bool {
    &&& a.act_id == 0
    &&& a.act_nombre@ == f.nombre@
    &&& a.act_uvid == (match f.unidad_vecinal_id {
        Some(u) => u,
        None => 1,
    })
    &&& a.act_fecha_ini == form_date(f.fecha_inicio@, Date { year: 2024, month: 1, day: 1 })
    &&& (trimmed(f.fecha_fin@).len() == 0 ==> a.act_fecha_fin is None)
    &&& (trimmed(f.fecha_fin@).len() > 0 ==> a.act_fecha_fin == (if iso_shape(f.fecha_fin@)
        && valid_date(iso_year(f.fecha_fin@), iso_month(f.fecha_fin@), iso_day(f.fecha_fin@)) {
        Some(
            Date {
                year: iso_year(f.fecha_fin@) as i32,
                month: iso_month(f.fecha_fin@) as u32,
                day: iso_day(f.fecha_fin@) as u32,
            },
        )
    } else {
        None
    }))
    &&& (trimmed(f.descripcion@).len() == 0 ==> a.act_descripcion is None)
    &&& (trimmed(f.descripcion@).len() > 0 ==> (a.act_descripcion matches Some(d) && d@
        == f.descripcion@))
    &&& a.uv_nombre is None
}

fn opt_from_field(field: &String) -> (r: Option<String>)
    ensures
        field@.len() == 0 ==> r is None,
        field@.len() > 0 ==> (r matches Some(s) && s@ == field@),
{
    if field.as_str().is_empty() {
        None
    } else {
        Some(field.clone())
    }
}

fn opt_from_trimmed(field: &String) -> (r: Option<String>)
    ensures
        trimmed(field@).len() == 0 ==> r is None,
        trimmed(field@).len() > 0 ==> (r matches Some(s) && s@ == trimmed(field@)),
{
    let t = trim_str(field.as_str());
    if t.as_str().is_empty() {
        None
    } else {
        Some(t)
    }
}

fn date_from_field(field: &String, fallback: Date) -> (r: Date)
    ensures
        r == form_date(field@, fallback),
{
    match parse_iso_date(field.as_str()) {
        Some(d) => d,
        None => fallback,
    }
}

/// Builds the person record the form describes.
pub fn build_persona(f: &PersonaForm) -> (p: PersonaMayor)
    ensures
        persona_built_from(p, *f),
{
    PersonaMayor {
        per_id: 0,
        per_rut: f.rut.clone(),
        per_prinombre: f.primer_nombre.clone(),
        per_segnombre: opt_from_field(&f.segundo_nombre),
        per_priapellido: f.primer_apellido.clone(),
        per_segapellido: opt_from_field(&f.segundo_apellido),
        per_genid: match f.genero_id {
            Some(g) => g,
            None => 1,
        },
        per_nacid: match f.nacionalidad_id {
            Some(n) => n,
            None => 1,
        },
        per_fechadenac: date_from_field(&f.fecha_nacimiento, Date { year: 1950, month: 1, day: 1 }),
        per_direccion: f.direccion.clone(),
        per_email: opt_from_trimmed(&f.email),
        per_uvid: match f.unidad_vecinal_id {
            Some(u) => u,
            None => 1,
        },
        gen_genero: None,
        nac_nacionalidad: None,
        uv_nombre: None,
    }
}

/// Builds the organization record the form describes.
pub fn build_organizacion(f: &OrganizacionForm) -> (o: OrganizacionComunitaria)
    ensures
        organizacion_built_from(o, *f),
{
    OrganizacionComunitaria {
        org_id: 0,
        org_nombre: f.nombre.clone(),
        org_direccion: f.direccion.clone(),
        org_uvid: match f.unidad_vecinal_id {
            Some(u) => u,
            None => 1,
        },
        org_fechaconst: date_from_field(
            &f.fecha_constitucion,
            Date { year: 2024, month: 1, day: 1 },
        ),
        org_perjuridica: f.personalidad_juridica.clone(),
        org_email: opt_from_trimmed(&f.email),
        uv_nombre: None,
    }
}

/// Builds the activity record the form describes.
pub fn build_actividad(f: &ActividadForm) -> (a: Actividad)
    ensures
        actividad_built_from(a, *f),
{
    let fecha_fin_t = trim_str(f.fecha_fin.as_str());
    let act_fecha_fin = if fecha_fin_t.as_str().is_empty() {
        None
    } else {
        parse_iso_date(f.fecha_fin.as_str())
    };
    let descripcion_t = trim_str(f.descripcion.as_str());
    let act_descripcion = if descripcion_t.as_str().is_empty() {
        None
    } else {
        Some(f.descripcion.clone())
    };
    Actividad {
        act_id: 0,
        act_nombre: f.nombre.clone(),
        act_uvid: match f.unidad_vecinal_id {
            Some(u) => u,
            None => 1,
        },
        act_fecha_ini: date_from_field(&f.fecha_inicio, Date { year: 2024, month: 1, day: 1 }),
        act_fecha_fin,
        act_descripcion,
        uv_nombre: None,
    }
}

/// Insertion screen state.
pub struct InsertionsView {
    pub insertion_type: InsertionType,
    pub persona_form: PersonaForm,
    pub organizacion_form: OrganizacionForm,
    pub actividad_form: ActividadForm,
    pub macro_sector_form: MacroSectorForm,
    pub unidad_vecinal_form: UnidadVecinalForm,
    pub taller_form: TallerForm,
    pub generos: Vec<Genero>,
    pub nacionalidades: Vec<Nacionalidad>,
    pub unidades_vecinales: Vec<UnidadVecinal>,
    pub macro_sectores: Vec<MacroSector>,
    pub loading: bool,
    pub catalogs_loaded: bool,
    pub pending: Option<u64>,
    pub next_seq: u64,
}

impl InsertionsView {
    /// A fresh insertion screen on the person form, nothing pending.
    pub fn new() -> (r: Self)
        ensures
            r.insertion_type == InsertionType::Persona,
            persona_form_empty(r.persona_form),
            organizacion_form_empty(r.organizacion_form),
            actividad_form_empty(r.actividad_form),
            r.macro_sector_form.nombre@.len() == 0,
            r.unidad_vecinal_form.nombre@.len() == 0,
            r.taller_form.nombre@.len() == 0,
            !r.loading,
            !r.catalogs_loaded,
            r.pending is None,
            r.next_seq == 1,
    {
        InsertionsView {
            insertion_type: InsertionType::Persona,
            persona_form: PersonaForm::default(),
            organizacion_form: OrganizacionForm::default(),
            actividad_form: ActividadForm::default(),
            macro_sector_form: MacroSectorForm::default(),
            unidad_vecinal_form: UnidadVecinalForm::default(),
            taller_form: TallerForm::default(),
            generos: Vec::new(),
            nacionalidades: Vec::new(),
            unidades_vecinales: Vec::new(),
            macro_sectores: Vec::new(),
            loading: false,
            catalogs_loaded: false,
            pending: None,
            next_seq: 1,
        }
    }

    /// The person form's client-side validation; a failure here blocks the
    /// submission before any store work.
    pub fn validate_persona_form(&self) -> (r: bool)
        ensures
            r == persona_form_valid(self.persona_form),
    {
        let email_t = trim_str(self.persona_form.email.as_str());
        let email_valid = if email_t.as_str().is_empty() {
            true
        } else {
            has_char_exec(email_t.as_str(), '@') && has_char_exec(email_t.as_str(), '.')
                && email_t.as_str().unicode_len() > 5
        };
        let rut_t = trim_str(self.persona_form.rut.as_str());
        let rut_valid = validate_rut_format(rut_t.as_str());
        rut_valid && !self.persona_form.primer_nombre.as_str().is_empty()
            && !self.persona_form.primer_apellido.as_str().is_empty()
            && self.persona_form.genero_id.is_some() && self.persona_form.nacionalidad_id.is_some()
            && !self.persona_form.fecha_nacimiento.as_str().is_empty()
            && !self.persona_form.direccion.as_str().is_empty()
            && self.persona_form.unidad_vecinal_id.is_some() && email_valid
    }

    pub fn validate_organizacion_form(&self) -> (r: bool)
        ensures
            r == organizacion_form_valid(self.organizacion_form),
    {
        !self.organizacion_form.nombre.as_str().is_empty()
            && !self.organizacion_form.direccion.as_str().is_empty()
            && !self.organizacion_form.fecha_constitucion.as_str().is_empty()
            && !self.organizacion_form.personalidad_juridica.as_str().is_empty()
            && self.organizacion_form.unidad_vecinal_id.is_some()
    }

    pub fn validate_actividad_form(&self) -> (r: bool)
        ensures
            r == actividad_form_valid(self.actividad_form),
    {
        !self.actividad_form.nombre.as_str().is_empty()
            && !self.actividad_form.fecha_inicio.as_str().is_empty()
            && self.actividad_form.unidad_vecinal_id.is_some()
    }

    pub fn validate_unidad_vecinal_form(&self) -> (r: bool)
        ensures
            r == unidad_vecinal_form_valid(self.unidad_vecinal_form),
    {
        !self.unidad_vecinal_form.nombre.as_str().is_empty()
            && self.unidad_vecinal_form.macro_sector_id.is_some()
    }

    /// Submits the person form: a request is built only when the form
    /// validates, so an invalid form never reaches the store.
    pub fn save_persona(&mut self) -> (r: Option<(u64, InsertRequest)>)
        requires
            old(self).next_seq < u64::MAX,
        ensures
            r is Some <==> persona_form_valid(old(self).persona_form),
            r is None ==> *final(self) == *old(self),
            r matches Some((s, req)) ==> {
                &&& s == old(self).next_seq
                &&& final(self).next_seq == old(self).next_seq + 1
                &&& final(self).pending == Some(s)
                &&& final(self).loading
                &&& (req matches InsertRequest::Persona(p) && persona_built_from(
                    p,
                    old(self).persona_form,
                ))
                &&& final(self).persona_form == old(self).persona_form
                &&& final(self).insertion_type == old(self).insertion_type
            },
    {
        if !self.validate_persona_form() {
            return None;
        }
        let persona = build_persona(&self.persona_form);
        let seq = self.next_seq;
        self.next_seq = seq + 1;
        self.pending = Some(seq);
        self.loading = true;
        Some((seq, InsertRequest::Persona(persona)))
    }

    /// Submits the organization form: a request is built only when the form
    /// validates, so a blank required field never reaches the store.
    pub fn save_organizacion(&mut self) -> (r: Option<(u64, InsertRequest)>)
        requires
            old(self).next_seq < u64::MAX,
        ensures
            r is Some <==> organizacion_form_valid(old(self).organizacion_form),
            r is None ==> *final(self) == *old(self),
            r matches Some((s, req)) ==> {
                &&& s == old(self).next_seq
                &&& final(self).next_seq == old(self).next_seq + 1
                &&& final(self).pending == Some(s)
                &&& (req matches InsertRequest::Organizacion(o) && organizacion_built_from(
                    o,
                    old(self).organizacion_form,
                ))
                &&& final(self).organizacion_form == old(self).organizacion_form
                &&& final(self).insertion_type == old(self).insertion_type
            },
    {
        if !self.validate_organizacion_form() {
            return None;
        }
        let organizacion = build_organizacion(&self.organizacion_form);
        let seq = self.next_seq;
        self.next_seq = seq + 1;
        self.pending = Some(seq);
        Some((seq, InsertRequest::Organizacion(organizacion)))
    }

    /// Submits the activity form under the same discipline.
    pub fn save_actividad(&mut self) -> (r: Option<(u64, InsertRequest)>)
        requires
            old(self).next_seq < u64::MAX,
        ensures
            r is Some <==> actividad_form_valid(old(self).actividad_form),
            r is None ==> *final(self) == *old(self),
            r matches Some((s, req)) ==> {
                &&& s == old(self).next_seq
                &&& final(self).next_seq == old(self).next_seq + 1
                &&& final(self).pending == Some(s)
                &&& (req matches InsertRequest::Actividad(a) && actividad_built_from(
                    a,
                    old(self).actividad_form,
                ))
                &&& final(self).actividad_form == old(self).actividad_form
                &&& final(self).insertion_type == old(self).insertion_type
            },
    {
        if !self.validate_actividad_form() {
            return None;
        }
        let actividad = build_actividad(&self.actividad_form);
        let seq = self.next_seq;
        self.next_seq = seq + 1;
        self.pending = Some(seq);
        Some((seq, InsertRequest::Actividad(actividad)))
    }

    /// Submits the macro-sector form: only a non-blank trimmed name goes
    /// out.
    pub fn save_macro_sector(&mut self) -> (r: Option<(u64, InsertRequest)>)
        requires
            old(self).next_seq < u64::MAX,
        ensures
            r is Some <==> trimmed(old(self).macro_sector_form.nombre@).len() > 0,
            r is None ==> *final(self) == *old(self),
            r matches Some((s, req)) ==> {
                &&& s == old(self).next_seq
                &&& final(self).next_seq == old(self).next_seq + 1
                &&& final(self).pending == Some(s)
                &&& (req matches InsertRequest::MacroSector(n) && n@ == trimmed(
                    old(self).macro_sector_form.nombre@,
                ))
            },
    {
        let nombre = trim_str(self.macro_sector_form.nombre.as_str());
        if nombre.as_str().is_empty() {
            return None;
        }
        let seq = self.next_seq;
        self.next_seq = seq + 1;
        self.pending = Some(seq);
        Some((seq, InsertRequest::MacroSector(nombre)))
    }

    /// Submits the neighborhood-unit form: only a validated form goes out,
    /// with the trimmed name.
    pub fn save_unidad_vecinal(&mut self) -> (r: Option<(u64, InsertRequest)>)
        requires
            old(self).next_seq < u64::MAX,
        ensures
            r is Some <==> unidad_vecinal_form_valid(old(self).unidad_vecinal_form),
            r is None ==> *final(self) == *old(self),
            r matches Some((s, req)) ==> {
                &&& s == old(self).next_seq
                &&& final(self).next_seq == old(self).next_seq + 1
                &&& final(self).pending == Some(s)
                &&& (req matches InsertRequest::UnidadVecinal(n, mid) && n@ == trimmed(
                    old(self).unidad_vecinal_form.nombre@,
                ) && mid == (match old(self).unidad_vecinal_form.macro_sector_id {
                    Some(m) => m,
                    None => 1,
                }))
            },
    {
        if !self.validate_unidad_vecinal_form() {
            return None;
        }
        let nombre = trim_str(self.unidad_vecinal_form.nombre.as_str());
        let macro_sector_id = match self.unidad_vecinal_form.macro_sector_id {
            Some(m) => m,
            None => 1,
        };
        let seq = self.next_seq;
        self.next_seq = seq + 1;
        self.pending = Some(seq);
        Some((seq, InsertRequest::UnidadVecinal(nombre, macro_sector_id)))
    }

    /// Submits the workshop form: only a non-blank trimmed name goes out.
    pub fn save_taller(&mut self) -> (r: Option<(u64, InsertRequest)>)
        requires
            old(self).next_seq < u64::MAX,
        ensures
            r is Some <==> trimmed(old(self).taller_form.nombre@).len() > 0,
            r is None ==> *final(self) == *old(self),
            r matches Some((s, req)) ==> {
                &&& s == old(self).next_seq
                &&& final(self).next_seq == old(self).next_seq + 1
                &&& final(self).pending == Some(s)
                &&& (req matches InsertRequest::Taller(n) && n@ == trimmed(
                    old(self).taller_form.nombre@,
                ))
            },
    {
        let nombre = trim_str(self.taller_form.nombre.as_str());
        if nombre.as_str().is_empty() {
            return None;
        }
        let seq = self.next_seq;
        self.next_seq = seq + 1;
        self.pending = Some(seq);
        Some((seq, InsertRequest::Taller(nombre)))
    }

    /// Absorbs an insertion completion: taken only while its sequence number
    /// is the pending one. On success the form that was submitted clears; on
    /// an error every form keeps its text so the user can correct and
    /// resubmit. The caller starts a catalog reload after a success, as the
    /// screen does.
    pub fn check_insertion_result(&mut self, event: Option<(u64, Result<String, String>)>) -> (r:
        Option<(bool, String)>)
        ensures
            ({
                let fresh = old(self).pending matches Some(s) && event matches Some((s2, _)) && s2
                    == s;
                &&& !fresh ==> *final(self) == *old(self) && r is None
                &&& fresh ==> {
                    &&& final(self).pending is None
                    &&& !final(self).loading
                    &&& final(self).insertion_type == old(self).insertion_type
                    &&& final(self).next_seq == old(self).next_seq
                }
                &&& fresh ==> (match event {
                    Some((_, Ok(m))) => {
                        &&& (r matches Some((ok, rm)) && ok && rm@ == m@)
                        &&& (old(self).insertion_type == InsertionType::Persona ==> persona_form_empty(final(self).persona_form))
                        &&& (old(self).insertion_type == InsertionType::Organizacion ==> organizacion_form_empty(final(self).organizacion_form))
                        &&& (old(self).insertion_type == InsertionType::Actividad ==> actividad_form_empty(final(self).actividad_form))
                        &&& (old(self).insertion_type == InsertionType::MacroSector ==> final(self).macro_sector_form.nombre@.len() == 0)
                        &&& (old(self).insertion_type == InsertionType::UnidadVecinal ==> final(self).unidad_vecinal_form.nombre@.len() == 0 && final(self).unidad_vecinal_form.macro_sector_id is None)
                        &&& (old(self).insertion_type == InsertionType::Taller ==> final(self).taller_form.nombre@.len() == 0)
                    },
                    Some((_, Err(m))) => {
                        &&& (r matches Some((ok, rm)) && !ok && rm@ == m@)
                        &&& final(self).persona_form == old(self).persona_form
                        &&& final(self).organizacion_form == old(self).organizacion_form
                        &&& final(self).actividad_form == old(self).actividad_form
                        &&& final(self).macro_sector_form == old(self).macro_sector_form
                        &&& final(self).unidad_vecinal_form == old(self).unidad_vecinal_form
                        &&& final(self).taller_form == old(self).taller_form
                    },
                    None => true,
                })
            }),
    {
        match event {
            None => None,
            Some((seq, result)) => {
                let fresh = match self.pending {
                    Some(s) => s == seq,
                    None => false,
                };
                if !fresh {
                    return None;
                }
                self.pending = None;
                self.loading = false;
                match result {
                    Ok(success_msg) => {
                        match self.insertion_type {
                            InsertionType::Persona => {
                                self.persona_form = PersonaForm::default();
                            },
                            InsertionType::Organizacion => {
                                self.organizacion_form = OrganizacionForm::default();
                            },
                            InsertionType::Actividad => {
                                self.actividad_form = ActividadForm::default();
                            },
                            InsertionType::MacroSector => {
                                self.macro_sector_form = MacroSectorForm::default();
                            },
                            InsertionType::UnidadVecinal => {
                                self.unidad_vecinal_form = UnidadVecinalForm::default();
                            },
                            InsertionType::Taller => {
                                self.taller_form = TallerForm::default();
                            },
                        }
                        Some((true, success_msg))
                    },
                    Err(error_msg) => Some((false, error_msg)),
                }
            },
        }
    }
}

/// The contents of the gender catalog after a batch of updates: the payload
/// of the last gender refresh in the batch, or the initial rows.
pub open spec fn generos_after(init: Seq<Genero>, us: Seq<CatalogUpdate>) -> Seq<Genero>
    decreases us.len(),
{
    if us.len() == 0 {
        init
    } else {
        match us.last() {
            CatalogUpdate::Generos(g) => g@,
            _ => generos_after(init, us.drop_last()),
        }
    }
}

pub open spec fn nacionalidades_after(init: Seq<Nacionalidad>, us: Seq<CatalogUpdate>) -> Seq<
    Nacionalidad,
>
    decreases us.len(),
{
    if us.len() == 0 {
        init
    } else {
        match us.last() {
            CatalogUpdate::Nacionalidades(n) => n@,
            _ => nacionalidades_after(init, us.drop_last()),
        }
    }
}

pub open spec fn unidades_after(init: Seq<UnidadVecinal>, us: Seq<CatalogUpdate>) -> Seq<
    UnidadVecinal,
>
    decreases us.len(),
{
    if us.len() == 0 {
        init
    } else {
        match us.last() {
            CatalogUpdate::UnidadesVecinales(u) => u@,
            _ => unidades_after(init, us.drop_last()),
        }
    }
}

pub open spec fn macro_sectores_after(init: Seq<MacroSector>, us: Seq<CatalogUpdate>) -> Seq<
    MacroSector,
>
    decreases us.len(),
{
    if us.len() == 0 {
        init
    } else {
        match us.last() {
            CatalogUpdate::MacroSectores(m) => m@,
            _ => macro_sectores_after(init, us.drop_last()),
        }
    }
}

impl InsertionsView {
    /// Absorbs a batch of catalog refreshes, each replacing one catalog.
    pub fn check_catalog_updates(&mut self, updates: Vec<CatalogUpdate>)
        ensures
            final(self).generos@ == generos_after(old(self).generos@, updates@),
            final(self).nacionalidades@ == nacionalidades_after(old(self).nacionalidades@, updates@),
            final(self).unidades_vecinales@ == unidades_after(
                old(self).unidades_vecinales@,
                updates@,
            ),
            final(self).macro_sectores@ == macro_sectores_after(
                old(self).macro_sectores@,
                updates@,
            ),
            final(self).insertion_type == old(self).insertion_type,
            final(self).persona_form == old(self).persona_form,
            final(self).organizacion_form == old(self).organizacion_form,
            final(self).actividad_form == old(self).actividad_form,
            final(self).loading == old(self).loading,
            final(self).pending == old(self).pending,
            final(self).next_seq == old(self).next_seq,
    {
        let ghost us0 = updates@;
        let mut updates = updates;
        let mut i: usize = 0;
        let n = updates.len();
        while i < n
            invariant
                n == us0.len(),
                0 <= i <= n,
                updates@ == us0.subrange(i as int, n as int),
                self.generos@ == generos_after(old(self).generos@, us0.subrange(0, i as int)),
                self.nacionalidades@ == nacionalidades_after(
                    old(self).nacionalidades@,
                    us0.subrange(0, i as int),
                ),
                self.unidades_vecinales@ == unidades_after(
                    old(self).unidades_vecinales@,
                    us0.subrange(0, i as int),
                ),
                self.macro_sectores@ == macro_sectores_after(
                    old(self).macro_sectores@,
                    us0.subrange(0, i as int),
                ),
                self.insertion_type == old(self).insertion_type,
                self.persona_form == old(self).persona_form,
                self.organizacion_form == old(self).organizacion_form,
                self.actividad_form == old(self).actividad_form,
                self.macro_sector_form == old(self).macro_sector_form,
                self.unidad_vecinal_form == old(self).unidad_vecinal_form,
                self.taller_form == old(self).taller_form,
                self.loading == old(self).loading,
                self.catalogs_loaded == old(self).catalogs_loaded,
                self.pending == old(self).pending,
                self.next_seq == old(self).next_seq,
            decreases n - i,
        {
            let update = updates.remove(0);
            proof {
                assert(us0.subrange(i as int, n as int)[0] == us0[i as int]);
                assert(us0.subrange(i as int, n as int).remove(0) =~= us0.subrange(
                    i as int + 1,
                    n as int,
                ));
                assert(us0.subrange(0, i as int + 1).drop_last() =~= us0.subrange(0, i as int));
                assert(us0.subrange(0, i as int + 1).last() == us0[i as int]);
            }
            match update {
                CatalogUpdate::Generos(generos) => {
                    self.generos = generos;
                },
                CatalogUpdate::Nacionalidades(nacionalidades) => {
                    self.nacionalidades = nacionalidades;
                },
                CatalogUpdate::UnidadesVecinales(unidades) => {
                    self.unidades_vecinales = unidades;
                },
                CatalogUpdate::MacroSectores(sectores) => {
                    self.macro_sectores = sectores;
                },
            }
            i = i + 1;
        }
        proof {
            assert(us0.subrange(0, n as int) =~= us0);
        }
    }
}

/// The catalog load a background unit performs: one read per lookup table,
/// delivering only the reads that succeeded. Disconnected, nothing arrives.
pub fn perform_catalog_load(db: &DatabaseManager) -> (r: Vec<CatalogUpdate>)
    requires
        db.wf(),
    ensures
        db.is_connected() ==> {
            &&& r@.len() == 4
            &&& (r@[0] matches CatalogUpdate::Generos(g) && g@ == db.spec_generos())
            &&& (r@[1] matches CatalogUpdate::Nacionalidades(n) && n@ == db.spec_nacionalidades())
            &&& (r@[2] matches CatalogUpdate::UnidadesVecinales(u) && u@.len()
                == db.spec_unidades_vecinales().len() && (forall|i: int|
                0 <= i < u@.len() ==> u@[i] == uv_joined(
                    #[trigger] db.spec_unidades_vecinales()[i],
                    db.spec_macro_sectores(),
                )))
            &&& (r@[3] matches CatalogUpdate::MacroSectores(m) && m@ == db.spec_macro_sectores())
        },
        !db.is_connected() ==> r@.len() == 0,
{
    let mut out: Vec<CatalogUpdate> = Vec::new();
    match db.get_generos() {
        Ok(generos) => out.push(CatalogUpdate::Generos(generos)),
        Err(_) => {},
    }
    match db.get_nacionalidades() {
        Ok(nacionalidades) => out.push(CatalogUpdate::Nacionalidades(nacionalidades)),
        Err(_) => {},
    }
    match db.get_unidades_vecinales() {
        Ok(unidades) => out.push(CatalogUpdate::UnidadesVecinales(unidades)),
        Err(_) => {},
    }
    match db.get_macro_sectores() {
        Ok(sectores) => out.push(CatalogUpdate::MacroSectores(sectores)),
        Err(_) => {},
    }
    out
}

/// Which insertions the store accepts: the request's own constraints, on a
/// live connection.
pub open spec fn insertion_ok(db: DatabaseManager, req: InsertRequest) -> bool {
    db.is_connected() && (match req {
        InsertRequest::Persona(p) => persona_insert_ok(db, p),
        InsertRequest::Organizacion(o) => uv_exists(db.spec_unidades_vecinales(), o.org_uvid),
        InsertRequest::Actividad(a) => uv_exists(db.spec_unidades_vecinales(), a.act_uvid),
        InsertRequest::MacroSector(_) => true,
        InsertRequest::UnidadVecinal(_, mid) => mac_exists(db.spec_macro_sectores(), mid),
        InsertRequest::Taller(_) => true,
    })
}

/// The identity the store would assign to this request.
pub open spec fn insertion_next_id(db: DatabaseManager, req: InsertRequest) -> int {
    match req {
        InsertRequest::Persona(_) => db.spec_next_per_id(),
        InsertRequest::Organizacion(_) => db.spec_next_org_id(),
        InsertRequest::Actividad(_) => db.spec_next_act_id(),
        InsertRequest::MacroSector(_) => db.spec_next_mac_id(),
        InsertRequest::UnidadVecinal(_, _) => db.spec_next_uv_id(),
        InsertRequest::Taller(_) => db.spec_next_tal_id(),
    }
}

/// The insertion a background unit performs: one store insert, one terminal
/// outcome, a success naming the assigned identity and an error carrying the
/// store's failure.
pub fn perform_insertion(db: &mut DatabaseManager, req: InsertRequest) -> (r: Result<
    String,
    String,
>)
    requires
        old(db).wf(),
        insertion_next_id(*old(db), req) < i32::MAX,
    ensures
        final(db).wf(),
        final(db).is_connected() == old(db).is_connected(),
        r is Ok <==> insertion_ok(*old(db), req),
        r is Ok ==> insertion_next_id(*final(db), req) == insertion_next_id(*old(db), req) + 1,
        r is Err ==> same_data(*old(db), *final(db)),
        r matches Ok(m) ==> (exists|d: Seq<char>|
            #[trigger] dec_repr(insertion_next_id(*old(db), req) as nat, d) && m@ == (match req {
                InsertRequest::Persona(_) => "Persona guardada exitosamente con ID: "@,
                InsertRequest::Organizacion(_) => "Organización guardada exitosamente con ID: "@,
                InsertRequest::Actividad(_) => "Actividad guardada exitosamente con ID: "@,
                InsertRequest::MacroSector(_) => "Macrosector guardado exitosamente con ID: "@,
                InsertRequest::UnidadVecinal(
                    _,
                    _,
                ) => "Unidad Vecinal guardada exitosamente con ID: "@,
                InsertRequest::Taller(_) => "Taller guardado exitosamente con ID: "@,
            }) + d),
    {
    proof {
        lemma_wf_bounds(*old(db));
    }
    match req {
        InsertRequest::Persona(persona) => {
            match db.insert_persona(&persona) {
                Ok(id) => Ok(success_message("Persona guardada exitosamente con ID: ", id)),
                Err(e) => Err(
                    String::from_str("Error al guardar persona: ").concat(e.message().as_str()),
                ),
            }
        },
        InsertRequest::Organizacion(organizacion) => {
            match db.insert_organizacion(&organizacion) {
                Ok(id) => Ok(success_message("Organización guardada exitosamente con ID: ", id)),
                Err(e) => Err(
                    String::from_str("Error al guardar organización: ").concat(
                        e.message().as_str(),
                    ),
                ),
            }
        },
        InsertRequest::Actividad(actividad) => {
            match db.insert_actividad(&actividad) {
                Ok(id) => Ok(success_message("Actividad guardada exitosamente con ID: ", id)),
                Err(e) => Err(
                    String::from_str("Error al guardar actividad: ").concat(e.message().as_str()),
                ),
            }
        },
        InsertRequest::MacroSector(nombre) => {
            match db.insert_macro_sector(nombre.as_str()) {
                Ok(id) => Ok(success_message("Macrosector guardado exitosamente con ID: ", id)),
                Err(e) => Err(
                    String::from_str("Error al guardar macrosector: ").concat(e.message().as_str()),
                ),
            }
        },
        InsertRequest::UnidadVecinal(nombre, macro_sector_id) => {
            match db.insert_unidad_vecinal(nombre.as_str(), macro_sector_id) {
                Ok(id) => Ok(
                    success_message("Unidad Vecinal guardada exitosamente con ID: ", id),
                ),
                Err(e) => Err(
                    String::from_str("Error al guardar unidad vecinal: ").concat(
                        e.message().as_str(),
                    ),
                ),
            }
        },
        InsertRequest::Taller(nombre) => {
            match db.insert_taller(nombre.as_str()) {
                Ok(id) => Ok(success_message("Taller guardado exitosamente con ID: ", id)),
                Err(e) => Err(
                    String::from_str("Error al guardar taller: ").concat(e.message().as_str()),
                ),
            }
        },
    }
}

fn success_message(prefix: &str, id: i32) -> (r: String)
    requires
        id >= 0,
    ensures
        exists|d: Seq<char>| dec_repr(id as nat, d) && r@ == prefix@ + d,
{
    let digits = u32_to_string(id as u32);
    let ghost d = digits@;
    let r = String::from_str(prefix).concat(digits.as_str());
    proof {
        assert(dec_repr(id as nat, d) && r@ == prefix@ + d);
    }
    r
}

} // verus!
