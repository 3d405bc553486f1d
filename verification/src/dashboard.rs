//! The dashboard controller: holds the last aggregate counts and absorbs the
//! outcome of at most one outstanding refresh.

use vstd::prelude::*;
use crate::models::DashboardStats;
use crate::store::DatabaseManager;

verus! {

/// Dashboard state: the counts shown, the loading flag, and the pending
/// refresh's sequence number.
pub struct DashboardView {
    pub stats: Option<DashboardStats>,
    pub loading: bool,
    pub pending: Option<u64>,
    pub next_seq: u64,
}

impl DashboardView {
    /// A fresh dashboard with nothing loaded yet.
    pub fn new() -> (r: Self)
        ensures
            r.stats is None,
            !r.loading,
            r.pending is None,
            r.next_seq == 1,
    {
        DashboardView { stats: None, loading: false, pending: None, next_seq: 1 }
    }

    /// Starts a stats refresh: a fresh sequence number replaces any pending
    /// one, so a late result of a replaced refresh will be dropped.
    pub fn refresh_stats(&mut self) -> (r: u64)
        requires
            old(self).next_seq < u64::MAX,
        ensures
            r == old(self).next_seq,
            final(self).pending == Some(r),
            final(self).loading,
            final(self).next_seq == old(self).next_seq + 1,
            final(self).stats == old(self).stats,
    {
        let seq = self.next_seq;
        self.next_seq = seq + 1;
        self.pending = Some(seq);
        self.loading = true;
        seq
    }

    /// Absorbs a refresh completion: taken only while its sequence number is
    /// the pending one. Counts replace the shown ones; an error clears them
    /// to the placeholder zeros.
    pub fn check_stats_result(&mut self, event: Option<(u64, Result<DashboardStats, String>)>) -> (
        r: bool)
        ensures
            ({
                let fresh = old(self).pending matches Some(s) && event matches Some((s2, _)) && s2
                    == s;
                &&& !fresh ==> *final(self) == *old(self) && r == false
                &&& fresh ==> {
                    &&& r == true
                    &&& final(self).pending is None
                    &&& !final(self).loading
                    &&& final(self).next_seq == old(self).next_seq
                }
                &&& fresh ==> (match event {
                    Some((_, Ok(stats))) => final(self).stats == Some(stats),
                    Some((_, Err(_))) => final(self).stats matches Some(s) && s.total_personas == 0
                        && s.total_organizaciones == 0 && s.total_actividades == 0 && s.total_viajes
                        == 0 && s.personas_por_macro@.len() == 0 && s.actividades_mes_actual == 0
                        && s.nuevas_personas_mes == 0,
                    None => true,
                })
            }),
    {
        match event {
            None => false,
            Some((seq, result)) => {
                let fresh = match self.pending {
                    Some(s) => s == seq,
                    None => false,
                };
                if !fresh {
                    return false;
                }
                self.pending = None;
                self.loading = false;
                match result {
                    Ok(stats) => {
                        self.stats = Some(stats);
                    },
                    Err(_) => {
                        self.stats = Some(DashboardStats::default());
                    },
                }
                true
            },
        }
    }
}

/// The stats fetch a background unit performs against the store.
pub fn perform_stats(db: &DatabaseManager) -> (r: Result<DashboardStats, String>)
    requires
        db.wf(),
    ensures
        r is Ok <==> db.is_connected(),
        r matches Ok(s) ==> {
            &&& s.total_personas as int == db.spec_personas().len() as int
            &&& s.total_organizaciones as int == db.spec_organizaciones().len() as int
            &&& s.total_actividades as int == db.spec_actividades().len() as int
            &&& s.total_viajes == 0
            &&& s.personas_por_macro@.len() == 0
            &&& s.actividades_mes_actual == 0
            &&& s.nuevas_personas_mes == 0
        },
        r matches Err(m) ==> m@ == "Error al cargar estadísticas: "@
            + "No hay conexión a la base de datos"@,
{
    match db.get_dashboard_stats() {
        Ok(stats) => Ok(stats),
        Err(e) => Err(String::from_str("Error al cargar estadísticas: ").concat(
            e.message().as_str(),
        )),
    }
}

} // verus!
