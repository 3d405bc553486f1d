use comunidad::dates::Date;
use comunidad::models::{
    Actividad, ActividadFilter, DatabaseConfig, OrganizacionComunitaria, PersonaFilter,
    PersonaMayor,
};
use comunidad::store::{DatabaseManager, StoreError};

fn persona(rut: &str, nombre: &str, apellido: &str) -> PersonaMayor {
    PersonaMayor {
        per_id: 0,
        per_rut: rut.to_string(),
        per_prinombre: nombre.to_string(),
        per_segnombre: None,
        per_priapellido: apellido.to_string(),
        per_segapellido: None,
        per_genid: 1,
        per_nacid: 1,
        per_fechadenac: Date { year: 1950, month: 6, day: 15 },
        per_direccion: "Calle 1".to_string(),
        per_email: None,
        per_uvid: 1,
        gen_genero: None,
        nac_nacionalidad: None,
        uv_nombre: None,
    }
}

fn seeded_store() -> DatabaseManager {
    let mut db = DatabaseManager::new();
    db.connect(&DatabaseConfig::default()).unwrap();
    db.insert_genero("Masculino").unwrap();
    db.insert_genero("Femenino").unwrap();
    db.insert_nacionalidad("Chilena").unwrap();
    db.insert_macro_sector("Centro").unwrap();
    db.insert_unidad_vecinal("Villa Los Alamos", 1).unwrap();
    db
}

#[test]
fn operations_need_a_connection() {
    let mut db = DatabaseManager::new();
    assert_eq!(db.test_connection(), Ok(false));
    assert_eq!(db.get_generos().unwrap_err(), StoreError::NotConnected);
    assert_eq!(db.get_dashboard_stats().unwrap_err(), StoreError::NotConnected);
    assert_eq!(db.insert_genero("Otro").unwrap_err(), StoreError::NotConnected);
    assert_eq!(
        db.insert_persona(&persona("12345678-9", "Ana", "Soto")).unwrap_err(),
        StoreError::NotConnected
    );
    assert_eq!(db.fix_email_constraint_temp().unwrap_err(), StoreError::NotConnected);
}

#[test]
fn connect_then_test_connection_is_true() {
    let mut db = DatabaseManager::new();
    assert!(db.connect(&DatabaseConfig::default()).is_ok());
    assert_eq!(db.test_connection(), Ok(true));
    db.disconnect();
    assert_eq!(db.test_connection(), Ok(false));
}

#[test]
fn seeded_lookup_rows_list_ordered_by_name() {
    // connect with valid parameters, prove the connection, then read the
    // seeded gender rows back in name order
    let mut db = DatabaseManager::new();
    db.connect(&DatabaseConfig::default()).unwrap();
    assert_eq!(db.test_connection(), Ok(true));
    db.insert_genero("Masculino").unwrap();
    db.insert_genero("Femenino").unwrap();
    db.insert_genero("Otro").unwrap();
    let generos = db.get_generos().unwrap();
    let names: Vec<&str> = generos.iter().map(|g| g.gen_genero.as_str()).collect();
    assert_eq!(names, vec!["Femenino", "Masculino", "Otro"]);
}

#[test]
fn lookup_identities_are_assigned_in_insertion_order() {
    let mut db = DatabaseManager::new();
    db.connect(&DatabaseConfig::default()).unwrap();
    assert_eq!(db.insert_genero("Masculino").unwrap(), 1);
    assert_eq!(db.insert_genero("Femenino").unwrap(), 2);
    assert_eq!(db.insert_nacionalidad("Chilena").unwrap(), 1);
    assert_eq!(db.insert_taller("Pintura").unwrap(), 1);
    assert_eq!(db.insert_taller("Baile").unwrap(), 2);
}

#[test]
fn unidades_join_their_macro_sector_names() {
    let mut db = DatabaseManager::new();
    db.connect(&DatabaseConfig::default()).unwrap();
    db.insert_macro_sector("Centro").unwrap();
    db.insert_macro_sector("Norte").unwrap();
    db.insert_unidad_vecinal("Villa Sur", 1).unwrap();
    db.insert_unidad_vecinal("Barrio Alto", 2).unwrap();
    let uvs = db.get_unidades_vecinales().unwrap();
    assert_eq!(uvs.len(), 2);
    assert_eq!(uvs[0].uv_nombre, "Barrio Alto");
    assert_eq!(uvs[0].mac_nombre.as_deref(), Some("Norte"));
    assert_eq!(uvs[1].uv_nombre, "Villa Sur");
    assert_eq!(uvs[1].mac_nombre.as_deref(), Some("Centro"));
}

#[test]
fn unidad_vecinal_requires_live_macro_sector() {
    let mut db = DatabaseManager::new();
    db.connect(&DatabaseConfig::default()).unwrap();
    assert_eq!(
        db.insert_unidad_vecinal("Villa Sur", 7).unwrap_err(),
        StoreError::ConstraintViolation
    );
}

#[test]
fn inserted_person_lists_with_a_strictly_greater_identity() {
    let mut db = seeded_store();
    let first = db.insert_persona(&persona("11111111-1", "Ana", "Soto")).unwrap();
    let listed = db.get_personas_mayores(&PersonaFilter::default()).unwrap();
    let max_seen = listed.iter().map(|p| p.per_id).max().unwrap();
    let second = db.insert_persona(&persona("22222222-2", "Luis", "Rojas")).unwrap();
    assert!(second > max_seen);
    assert!(second > first);
    let listed = db.get_personas_mayores(&PersonaFilter::default()).unwrap();
    assert!(listed.iter().any(|p| p.per_id == second && p.per_rut == "22222222-2"));
}

#[test]
fn personas_list_ordered_by_family_then_given_name() {
    let mut db = seeded_store();
    db.insert_persona(&persona("11111111-1", "Maria", "Soto")).unwrap();
    db.insert_persona(&persona("22222222-2", "Ana", "Rojas")).unwrap();
    db.insert_persona(&persona("33333333-3", "Ana", "Soto")).unwrap();
    let listed = db.get_personas_mayores(&PersonaFilter::default()).unwrap();
    let keys: Vec<(&str, &str)> = listed
        .iter()
        .map(|p| (p.per_priapellido.as_str(), p.per_prinombre.as_str()))
        .collect();
    assert_eq!(keys, vec![("Rojas", "Ana"), ("Soto", "Ana"), ("Soto", "Maria")]);
}

#[test]
fn person_filters_are_not_applied() {
    let mut db = seeded_store();
    db.insert_persona(&persona("11111111-1", "Ana", "Soto")).unwrap();
    db.insert_persona(&persona("22222222-2", "Luis", "Rojas")).unwrap();
    let all = db.get_personas_mayores(&PersonaFilter::default()).unwrap();
    let narrow = PersonaFilter {
        nombre: "Ana".to_string(),
        apellido: "Soto".to_string(),
        rut: "11111111-1".to_string(),
        genero_id: Some(1),
        nacionalidad_id: Some(1),
        unidad_vecinal_id: Some(1),
        macro_sector_id: Some(1),
        edad_min: Some(70),
        edad_max: Some(80),
    };
    let filtered = db.get_personas_mayores(&narrow).unwrap();
    assert_eq!(all.len(), filtered.len());
    for (a, b) in all.iter().zip(filtered.iter()) {
        assert_eq!(a.per_id, b.per_id);
        assert_eq!(a.per_rut, b.per_rut);
    }
}

#[test]
fn activity_filters_are_not_applied_and_order_is_newest_first() {
    let mut db = seeded_store();
    let act = |nombre: &str, y: i32| Actividad {
        act_id: 0,
        act_nombre: nombre.to_string(),
        act_uvid: 1,
        act_fecha_ini: Date { year: y, month: 5, day: 1 },
        act_fecha_fin: None,
        act_descripcion: None,
        uv_nombre: None,
    };
    db.insert_actividad(&act("Paseo", 2022)).unwrap();
    db.insert_actividad(&act("Taller", 2024)).unwrap();
    db.insert_actividad(&act("Feria", 2023)).unwrap();
    let all = db.get_actividades(&ActividadFilter::default()).unwrap();
    let narrow = ActividadFilter {
        nombre: "Paseo".to_string(),
        unidad_vecinal_id: Some(1),
        macro_sector_id: Some(1),
        fecha_desde: None,
        fecha_hasta: None,
    };
    let filtered = db.get_actividades(&narrow).unwrap();
    assert_eq!(all.len(), 3);
    assert_eq!(filtered.len(), 3);
    let years: Vec<i32> = all.iter().map(|a| a.act_fecha_ini.year).collect();
    assert_eq!(years, vec![2024, 2023, 2022]);
}

#[test]
fn duplicate_national_id_is_rejected() {
    let mut db = seeded_store();
    db.insert_persona(&persona("11111111-1", "Ana", "Soto")).unwrap();
    assert_eq!(
        db.insert_persona(&persona("11111111-1", "Luis", "Rojas")).unwrap_err(),
        StoreError::ConstraintViolation
    );
    assert_eq!(db.get_personas_mayores(&PersonaFilter::default()).unwrap().len(), 1);
}

#[test]
fn loosened_email_constraint_gates_person_rows() {
    let mut db = seeded_store();
    let mut p = persona("11111111-1", "Ana", "Soto");
    p.per_email = Some("a@b".to_string());
    assert_eq!(db.insert_persona(&p).unwrap_err(), StoreError::ConstraintViolation);
    p.per_email = Some("ana@correo.cl".to_string());
    assert!(db.insert_persona(&p).is_ok());
}

#[test]
fn person_references_must_name_lookup_rows() {
    let mut db = seeded_store();
    let mut p = persona("11111111-1", "Ana", "Soto");
    p.per_genid = 99;
    assert_eq!(db.insert_persona(&p).unwrap_err(), StoreError::ConstraintViolation);
    p.per_genid = 1;
    p.per_uvid = 99;
    assert_eq!(db.insert_persona(&p).unwrap_err(), StoreError::ConstraintViolation);
}

#[test]
fn organization_insert_checks_its_unit_reference() {
    let mut db = seeded_store();
    let org = OrganizacionComunitaria {
        org_id: 0,
        org_nombre: "Club Adulto Mayor".to_string(),
        org_direccion: "Calle 2".to_string(),
        org_uvid: 1,
        org_fechaconst: Date { year: 2010, month: 4, day: 12 },
        org_perjuridica: "PJ-100".to_string(),
        org_email: None,
        uv_nombre: None,
    };
    assert_eq!(db.insert_organizacion(&org).unwrap(), 1);
    let mut dangling = org.clone();
    dangling.org_uvid = 9;
    assert_eq!(db.insert_organizacion(&dangling).unwrap_err(), StoreError::ConstraintViolation);
}

#[test]
fn dashboard_counts_follow_the_tables() {
    let mut db = seeded_store();
    db.insert_persona(&persona("11111111-1", "Ana", "Soto")).unwrap();
    db.insert_persona(&persona("22222222-2", "Luis", "Rojas")).unwrap();
    let stats = db.get_dashboard_stats().unwrap();
    assert_eq!(stats.total_personas, 2);
    assert_eq!(stats.total_organizaciones, 0);
    assert_eq!(stats.total_actividades, 0);
    assert_eq!(stats.total_viajes, 0);
    assert!(stats.personas_por_macro.is_empty());
    assert_eq!(stats.actividades_mes_actual, 0);
    assert_eq!(stats.nuevas_personas_mes, 0);
}

#[test]
fn email_constraint_probe_matches_validator() {
    let mut db = DatabaseManager::new();
    db.connect(&DatabaseConfig::default()).unwrap();
    assert_eq!(db.test_email_constraint("a@b.co"), Ok(true));
    assert_eq!(db.test_email_constraint("a@b"), Ok(false));
    assert!(db.fix_email_constraint_temp().is_ok());
}

#[test]
fn tables_survive_a_disconnect() {
    let mut db = seeded_store();
    db.insert_persona(&persona("11111111-1", "Ana", "Soto")).unwrap();
    db.disconnect();
    assert_eq!(
        db.get_personas_mayores(&PersonaFilter::default()).unwrap_err(),
        StoreError::NotConnected
    );
    db.connect(&DatabaseConfig::default()).unwrap();
    assert_eq!(db.get_personas_mayores(&PersonaFilter::default()).unwrap().len(), 1);
}
