use yatangaki::config::{ConfigStore, ProxyConfig};
use yatangaki::logs::DbError;
use yatangaki::start_menu::{StartMenu, StartMenuMessage};

#[test]
fn create_and_list_projects() {
    let mut store = ConfigStore::open_in_memory().unwrap();
    assert!(store.project_list().unwrap().is_empty());
    store.create_project("alpha").unwrap();
    store.create_project("beta").unwrap();
    assert_eq!(
        store.project_list().unwrap(),
        vec!["alpha".to_string(), "beta".to_string()]
    );
}

#[test]
fn delete_project_removes_every_occurrence_and_keeps_order() {
    let mut store = ConfigStore::open_in_memory().unwrap();
    store.create_project("alpha").unwrap();
    store.create_project("beta").unwrap();
    store.create_project("alpha").unwrap();
    store.create_project("gamma").unwrap();
    store.delete_project("alpha").unwrap();
    assert_eq!(
        store.project_list().unwrap(),
        vec!["beta".to_string(), "gamma".to_string()]
    );
}

#[test]
fn save_and_load_proxies_round_trip() {
    let mut store = ConfigStore::open_in_memory().unwrap();
    assert!(store.load_proxies().unwrap().is_empty());
    store
        .save_proxy(&ProxyConfig {
            port: 8080,
            id: 0,
            auto_start: true,
        })
        .unwrap();
    store
        .save_proxy(&ProxyConfig {
            port: 9090,
            id: 1,
            auto_start: false,
        })
        .unwrap();
    let loaded = store.load_proxies().unwrap();
    assert_eq!(loaded.len(), 2);
    assert_eq!(loaded[0].id, 0);
    assert_eq!(loaded[0].port, 8080);
    assert!(loaded[0].auto_start);
    assert_eq!(loaded[1].id, 1);
    assert_eq!(loaded[1].port, 9090);
    assert!(!loaded[1].auto_start);
}

#[test]
fn start_menu_lists_projects_on_creation() {
    let mut store = ConfigStore::open_in_memory().unwrap();
    store.create_project("alpha").unwrap();
    let menu = StartMenu::new(store.project_list());
    assert_eq!(menu.projects, vec!["alpha".to_string()]);
    assert!(menu.err.is_none());
    assert!(menu.selected_project_index.is_none());
    assert!(menu.input_project_name.is_empty());
}

#[test]
fn start_menu_creates_and_deletes_projects() {
    let mut store = ConfigStore::open_in_memory().unwrap();
    let mut menu = StartMenu::new(store.project_list());

    menu.update(
        &mut store,
        StartMenuMessage::UpdateProjectName("alpha".to_string()),
    )
    .unwrap();
    assert_eq!(menu.input_project_name, "alpha");

    menu.update(
        &mut store,
        StartMenuMessage::CreateProject("alpha".to_string()),
    )
    .unwrap();
    assert_eq!(menu.projects, vec!["alpha".to_string()]);
    assert!(menu.input_project_name.is_empty());
    assert_eq!(store.project_list().unwrap(), vec!["alpha".to_string()]);

    menu.update(&mut store, StartMenuMessage::CreateProject(String::new()))
        .unwrap();
    assert_eq!(menu.projects.len(), 1);

    menu.update(&mut store, StartMenuMessage::SelectedProject(0, "alpha".to_string()))
        .unwrap();
    assert_eq!(menu.selected_project_index, Some(0));

    menu.update(
        &mut store,
        StartMenuMessage::DeleteProject("alpha".to_string(), 0),
    )
    .unwrap();
    assert!(menu.projects.is_empty());
    assert!(menu.selected_project_index.is_none());
    assert!(store.project_list().unwrap().is_empty());
}

#[test]
fn start_menu_reports_a_listing_error() {
    let menu = StartMenu::new(Err(DbError::NoDatabaseSelected));
    assert!(menu.projects.is_empty());
    assert_eq!(menu.err.as_deref(), Some("no database selected"));
}

#[test]
fn db_error_messages() {
    assert_eq!(
        DbError::NoDatabaseSelected.message(),
        "no database selected"
    );
    assert_eq!(DbError::OutOfRange.message(), "value out of range");
}
