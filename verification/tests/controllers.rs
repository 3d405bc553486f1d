use comunidad::app::{perform_connect, App, AppState};
use comunidad::dashboard::{perform_stats, DashboardView};
use comunidad::dates::Date;
use comunidad::insertions::{
    perform_catalog_load, perform_insertion, CatalogUpdate, InsertRequest, InsertionsView,
};
use comunidad::models::DatabaseConfig;
use comunidad::queries::{perform_query, QueriesView, QueryResult, QueryType};
use comunidad::store::DatabaseManager;

fn seeded_store() -> DatabaseManager {
    let mut db = DatabaseManager::new();
    db.connect(&DatabaseConfig::default()).unwrap();
    db.insert_genero("Femenino").unwrap();
    db.insert_nacionalidad("Chilena").unwrap();
    db.insert_macro_sector("Centro").unwrap();
    db.insert_unidad_vecinal("Villa Los Alamos", 1).unwrap();
    db
}

#[test]
fn connect_flow_reaches_the_dashboard() {
    let mut app = App::new();
    assert_eq!(app.state, AppState::Login);
    let mut db = DatabaseManager::new();
    let request = app.start_connection(DatabaseConfig::default());
    let outcome = perform_connect(&mut db, &request.config);
    assert_eq!(outcome.as_deref(), Ok("Conexión establecida exitosamente"));
    let arrived = app.check_connection_result(Some((request.seq, outcome)));
    assert!(arrived);
    assert!(app.is_connected);
    assert_eq!(app.state, AppState::Dashboard);
    assert_eq!(
        app.success_message.as_deref(),
        Some("Conexión establecida exitosamente")
    );
    assert_eq!(db.test_connection(), Ok(true));
}

#[test]
fn stale_connection_results_are_dropped() {
    let mut app = App::new();
    let first = app.start_connection(DatabaseConfig::default());
    let second = app.start_connection(DatabaseConfig::default());
    assert_ne!(first.seq, second.seq);
    let stale = app.check_connection_result(Some((first.seq, Ok("tarde".to_string()))));
    assert!(!stale);
    assert!(!app.is_connected);
    assert_eq!(app.state, AppState::Login);
    let fresh = app.check_connection_result(Some((second.seq, Ok("listo".to_string()))));
    assert!(fresh);
    assert!(app.is_connected);
}

#[test]
fn connection_error_keeps_the_login_screen() {
    let mut app = App::new();
    let request = app.start_connection(DatabaseConfig::default());
    let arrived = app.check_connection_result(Some((request.seq, Err("sin ruta".to_string()))));
    assert!(!arrived);
    assert!(!app.is_connected);
    assert_eq!(app.state, AppState::Login);
    assert_eq!(app.error_message.as_deref(), Some("sin ruta"));
}

#[test]
fn banner_setters_displace_each_other() {
    let mut app = App::new();
    app.set_error("mal".to_string());
    assert_eq!(app.error_message.as_deref(), Some("mal"));
    assert_eq!(app.success_message, None);
    app.set_success("bien".to_string());
    assert_eq!(app.success_message.as_deref(), Some("bien"));
    assert_eq!(app.error_message, None);
    app.clear_messages();
    assert_eq!(app.success_message, None);
    assert_eq!(app.error_message, None);
}

#[test]
fn initial_query_fills_the_person_results() {
    let mut db = seeded_store();
    db.insert_persona(&persona_row("11111111-1", "Ana", "Soto")).unwrap();
    let mut qv = QueriesView::new();
    let request = qv.initialize_data();
    assert!(qv.loading);
    let outcome = perform_query(&db, &request);
    let absorbed = qv.check_query_result(Some((request.seq, outcome)));
    assert!(absorbed);
    assert!(!qv.loading);
    assert_eq!(qv.personas_results.len(), 1);
    assert_eq!(qv.personas_results[0].per_rut, "11111111-1");
}

fn persona_row(rut: &str, nombre: &str, apellido: &str) -> comunidad::models::PersonaMayor {
    comunidad::models::PersonaMayor {
        per_id: 0,
        per_rut: rut.to_string(),
        per_prinombre: nombre.to_string(),
        per_segnombre: None,
        per_priapellido: apellido.to_string(),
        per_segapellido: None,
        per_genid: 1,
        per_nacid: 1,
        per_fechadenac: Date { year: 1950, month: 6, day: 15 },
        per_direccion: "Calle 1".to_string(),
        per_email: None,
        per_uvid: 1,
        gen_genero: None,
        nac_nacionalidad: None,
        uv_nombre: None,
    }
}

#[test]
fn trip_queries_return_the_empty_placeholder() {
    let db = seeded_store();
    let mut qv = QueriesView::new();
    qv.query_type = QueryType::Viajes;
    let request = qv.execute_auto_query();
    let outcome = perform_query(&db, &request);
    match outcome {
        Ok(QueryResult::Viajes(v)) => assert!(v.is_empty()),
        other => panic!("unexpected outcome: {:?}", other.is_ok()),
    }
}

#[test]
fn query_against_disconnected_store_reports_no_connection() {
    let db = DatabaseManager::new();
    let mut qv = QueriesView::new();
    let request = qv.execute_initial_query();
    let outcome = perform_query(&db, &request);
    assert_eq!(
        outcome.as_ref().err().map(|m| m.as_str()),
        Some("No hay conexión a la base de datos")
    );
    qv.personas_results = vec![persona_row("11111111-1", "Ana", "Soto")];
    let absorbed = qv.check_query_result(Some((request.seq, outcome)));
    assert!(absorbed);
    assert!(qv.personas_results.is_empty());
    assert!(qv.organizaciones_results.is_empty());
}

#[test]
fn stale_query_results_are_dropped() {
    let db = seeded_store();
    let mut qv = QueriesView::new();
    let first = qv.execute_query();
    let first_outcome = perform_query(&db, &first);
    let second = qv.execute_query();
    let absorbed = qv.check_query_result(Some((first.seq, first_outcome)));
    assert!(!absorbed);
    assert!(qv.loading);
    let second_outcome = perform_query(&db, &second);
    assert!(qv.check_query_result(Some((second.seq, second_outcome))));
    assert!(!qv.loading);
}

#[test]
fn clear_filters_resets_every_filter() {
    let mut qv = QueriesView::new();
    qv.persona_filter.nombre = "Ana".to_string();
    qv.persona_filter.genero_id = Some(2);
    qv.organizacion_filter.nombre = "Club".to_string();
    qv.actividad_filter.unidad_vecinal_id = Some(3);
    qv.clear_filters();
    assert!(qv.persona_filter.nombre.is_empty());
    assert_eq!(qv.persona_filter.genero_id, None);
    assert!(qv.organizacion_filter.nombre.is_empty());
    assert_eq!(qv.actividad_filter.unidad_vecinal_id, None);
}

#[test]
fn demo_catalogs_seed_the_selectors() {
    let mut qv = QueriesView::new();
    qv.load_catalogs();
    assert!(qv.catalogs_loaded);
    assert_eq!(qv.generos.len(), 3);
    assert_eq!(qv.generos[0].gen_genero, "Masculino");
    assert_eq!(qv.unidades_vecinales[0].uv_nombre, "Villa Los Álamos");
    assert_eq!(qv.macro_sectores[2].mac_nombre, "Sur");
}

#[test]
fn blank_organization_name_is_rejected_before_any_store_call() {
    let mut iv = InsertionsView::new();
    iv.organizacion_form.direccion = "Calle 2".to_string();
    iv.organizacion_form.fecha_constitucion = "2010-04-12".to_string();
    iv.organizacion_form.personalidad_juridica = "PJ-100".to_string();
    iv.organizacion_form.unidad_vecinal_id = Some(1);
    // the required name stays blank
    assert!(iv.save_organizacion().is_none());
    assert!(iv.pending.is_none());
    // nothing was handed to the store, so its tables cannot have changed
    let db = seeded_store();
    assert_eq!(
        db.get_organizaciones(&comunidad::models::OrganizacionFilter::default())
            .unwrap()
            .len(),
        0
    );
}

#[test]
fn valid_organization_form_inserts_and_clears() {
    let mut db = seeded_store();
    let mut iv = InsertionsView::new();
    iv.insertion_type = comunidad::insertions::InsertionType::Organizacion;
    iv.organizacion_form.nombre = "Club Adulto Mayor".to_string();
    iv.organizacion_form.direccion = "Calle 2".to_string();
    iv.organizacion_form.fecha_constitucion = "2010-04-12".to_string();
    iv.organizacion_form.personalidad_juridica = "PJ-100".to_string();
    iv.organizacion_form.unidad_vecinal_id = Some(1);
    let (seq, request) = iv.save_organizacion().unwrap();
    let outcome = perform_insertion(&mut db, request);
    assert_eq!(
        outcome.as_deref(),
        Ok("Organización guardada exitosamente con ID: 1")
    );
    let result = iv.check_insertion_result(Some((seq, outcome)));
    assert_eq!(
        result,
        Some((true, "Organización guardada exitosamente con ID: 1".to_string()))
    );
    assert!(iv.organizacion_form.nombre.is_empty());
    let listed = db
        .get_organizaciones(&comunidad::models::OrganizacionFilter::default())
        .unwrap();
    assert_eq!(listed.len(), 1);
    assert_eq!(listed[0].org_id, 1);
    assert_eq!(listed[0].org_nombre, "Club Adulto Mayor");
    assert_eq!(listed[0].org_fechaconst, Date { year: 2010, month: 4, day: 12 });
}

#[test]
fn invalid_person_form_is_blocked_client_side() {
    let mut iv = InsertionsView::new();
    iv.persona_form.rut = "12345678".to_string();  // no dash: malformed
    iv.persona_form.primer_nombre = "Ana".to_string();
    iv.persona_form.primer_apellido = "Soto".to_string();
    iv.persona_form.genero_id = Some(1);
    iv.persona_form.nacionalidad_id = Some(1);
    iv.persona_form.fecha_nacimiento = "1950-06-15".to_string();
    iv.persona_form.direccion = "Calle 1".to_string();
    iv.persona_form.unidad_vecinal_id = Some(1);
    assert!(!iv.validate_persona_form());
    assert!(iv.save_persona().is_none());
    iv.persona_form.rut = "12345678-9".to_string();
    assert!(iv.validate_persona_form());
}

#[test]
fn person_form_builds_and_inserts_a_row() {
    let mut db = seeded_store();
    let mut iv = InsertionsView::new();
    iv.persona_form.rut = "12345678-9".to_string();
    iv.persona_form.primer_nombre = "Ana".to_string();
    iv.persona_form.segundo_nombre = String::new();
    iv.persona_form.primer_apellido = "Soto".to_string();
    iv.persona_form.genero_id = Some(1);
    iv.persona_form.nacionalidad_id = Some(1);
    iv.persona_form.fecha_nacimiento = "1950-06-15".to_string();
    iv.persona_form.direccion = "Calle 1".to_string();
    iv.persona_form.email = " ana@correo.cl ".to_string();
    iv.persona_form.unidad_vecinal_id = Some(1);
    let (seq, request) = iv.save_persona().unwrap();
    match &request {
        InsertRequest::Persona(p) => {
            assert_eq!(p.per_fechadenac, Date { year: 1950, month: 6, day: 15 });
            assert_eq!(p.per_email.as_deref(), Some("ana@correo.cl"));
            assert_eq!(p.per_segnombre, None);
        }
        _ => panic!("wrong request kind"),
    }
    let outcome = perform_insertion(&mut db, request);
    assert_eq!(outcome.as_deref(), Ok("Persona guardada exitosamente con ID: 1"));
    let result = iv.check_insertion_result(Some((seq, outcome)));
    assert_eq!(result.as_ref().map(|(ok, _)| *ok), Some(true));
    assert!(iv.persona_form.rut.is_empty());
}

#[test]
fn insertion_error_keeps_the_form_for_correction() {
    let mut db = DatabaseManager::new();  // never connected
    let mut iv = InsertionsView::new();
    iv.insertion_type = comunidad::insertions::InsertionType::Taller;
    iv.taller_form.nombre = "Pintura".to_string();
    let (seq, request) = iv.save_taller().unwrap();
    let outcome = perform_insertion(&mut db, request);
    assert_eq!(
        outcome.as_ref().err().map(|m| m.as_str()),
        Some("Error al guardar taller: No hay conexión a la base de datos")
    );
    let result = iv.check_insertion_result(Some((seq, outcome)));
    assert_eq!(result.as_ref().map(|(ok, _)| *ok), Some(false));
    assert_eq!(iv.taller_form.nombre, "Pintura");
}

#[test]
fn blank_macro_sector_and_taller_names_are_blocked() {
    let mut iv = InsertionsView::new();
    iv.macro_sector_form.nombre = "   ".to_string();
    assert!(iv.save_macro_sector().is_none());
    iv.taller_form.nombre = String::new();
    assert!(iv.save_taller().is_none());
    iv.macro_sector_form.nombre = " Centro ".to_string();
    match iv.save_macro_sector() {
        Some((_, InsertRequest::MacroSector(n))) => assert_eq!(n, "Centro"),
        _ => panic!("expected a macro-sector request"),
    }
}

#[test]
fn catalog_load_refreshes_the_selectors() {
    let db = seeded_store();
    let mut iv = InsertionsView::new();
    let updates = perform_catalog_load(&db);
    assert_eq!(updates.len(), 4);
    iv.check_catalog_updates(updates);
    assert_eq!(iv.generos.len(), 1);
    assert_eq!(iv.generos[0].gen_genero, "Femenino");
    assert_eq!(iv.unidades_vecinales.len(), 1);
    assert_eq!(iv.unidades_vecinales[0].mac_nombre.as_deref(), Some("Centro"));
    assert_eq!(iv.macro_sectores.len(), 1);
}

#[test]
fn catalog_load_from_disconnected_store_is_empty() {
    let db = DatabaseManager::new();
    let updates = perform_catalog_load(&db);
    assert!(updates.is_empty());
    let mut iv = InsertionsView::new();
    iv.check_catalog_updates(Vec::<CatalogUpdate>::new());
    assert!(iv.generos.is_empty());
}

#[test]
fn dashboard_refresh_absorbs_counts() {
    let mut db = seeded_store();
    db.insert_persona(&persona_row("11111111-1", "Ana", "Soto")).unwrap();
    let mut dv = DashboardView::new();
    let seq = dv.refresh_stats();
    assert!(dv.loading);
    let outcome = perform_stats(&db);
    assert!(dv.check_stats_result(Some((seq, outcome))));
    assert!(!dv.loading);
    let stats = dv.stats.as_ref().unwrap();
    assert_eq!(stats.total_personas, 1);
}

#[test]
fn dashboard_error_falls_back_to_placeholder_zeros() {
    let db = DatabaseManager::new();
    let mut dv = DashboardView::new();
    let seq = dv.refresh_stats();
    let outcome = perform_stats(&db);
    assert_eq!(
        outcome.as_ref().err().map(|m| m.as_str()),
        Some("Error al cargar estadísticas: No hay conexión a la base de datos")
    );
    assert!(dv.check_stats_result(Some((seq, outcome))));
    let stats = dv.stats.as_ref().unwrap();
    assert_eq!(stats.total_personas, 0);
    assert_eq!(stats.total_viajes, 0);
}

#[test]
fn login_checks_required_fields() {
    let mut lv = comunidad::login::LoginView::new();
    assert_eq!(lv.attempt_connection(), Ok(true));
    lv.config.host = String::new();
    assert_eq!(
        lv.attempt_connection(),
        Err("Todos los campos son obligatorios excepto la contraseña".to_string())
    );
    lv.config.host = "localhost".to_string();
    lv.config.port = 0;
    assert_eq!(
        lv.attempt_connection(),
        Err("Puerto debe estar entre 1 y 65535".to_string())
    );
}

#[test]
fn basic_login_checks_required_fields() {
    let mut lv = comunidad::login_basic::LoginView::new();
    assert!(lv.attempt_connection());
    lv.config.database = String::new();
    assert!(!lv.attempt_connection());
    assert!(!lv.connecting);
}

#[test]
fn sidebar_and_about_construct() {
    let _sidebar = comunidad::sidebar::Sidebar::new();
    let about = comunidad::about::AboutView::new();
    assert!(!about.show_tech_details);
}

#[test]
fn connection_string_spells_out_every_parameter() {
    let config = DatabaseConfig::default();
    assert_eq!(
        comunidad::app::connection_string(&config),
        "host=localhost port=5432 user=postgres password= dbname=comunidad"
    );
    let custom = DatabaseConfig {
        host: "10.0.0.5".to_string(),
        port: 6543,
        username: "clerk".to_string(),
        password: "SECRET-REDACTED".to_string(),
        database: "registro".to_string(),
    };
    assert_eq!(
        comunidad::app::connection_string(&custom),
        "host=10.0.0.5 port=6543 user=clerk password=SECRET-REDACTED dbname=registro"
    );
}

#[test]
fn store_errors_carry_their_banner_text() {
    assert_eq!(
        comunidad::store::StoreError::NotConnected.message(),
        "No hay conexión a la base de datos"
    );
    assert_eq!(
        comunidad::store::StoreError::ConstraintViolation.message(),
        "La base de datos rechazó la operación"
    );
}

#[test]
fn later_catalog_updates_replace_earlier_ones() {
    let mut iv = InsertionsView::new();
    let batch = vec![
        CatalogUpdate::Generos(vec![comunidad::models::Genero {
            gen_id: 1,
            gen_genero: "Masculino".to_string(),
        }]),
        CatalogUpdate::Generos(vec![
            comunidad::models::Genero { gen_id: 1, gen_genero: "Masculino".to_string() },
            comunidad::models::Genero { gen_id: 2, gen_genero: "Femenino".to_string() },
        ]),
    ];
    iv.check_catalog_updates(batch);
    assert_eq!(iv.generos.len(), 2);
    assert!(iv.nacionalidades.is_empty());
}

#[test]
fn stale_insertion_results_are_dropped() {
    let mut iv = InsertionsView::new();
    iv.insertion_type = comunidad::insertions::InsertionType::Taller;
    iv.taller_form.nombre = "Pintura".to_string();
    let (first_seq, _) = iv.save_taller().unwrap();
    iv.taller_form.nombre = "Baile".to_string();
    let (second_seq, _) = iv.save_taller().unwrap();
    assert_ne!(first_seq, second_seq);
    let stale = iv.check_insertion_result(Some((first_seq, Ok("tarde".to_string()))));
    assert_eq!(stale, None);
    assert_eq!(iv.taller_form.nombre, "Baile");
    let fresh = iv.check_insertion_result(Some((second_seq, Ok("listo".to_string()))));
    assert_eq!(fresh, Some((true, "listo".to_string())));
    assert!(iv.taller_form.nombre.is_empty());
}
