use media_recommendation_engine::admin_pages::{
    credential_store, may_remove_user, name_taken, new_user_entry, owner_action_status,
    settings_page, user_creation, CredentialStore, CreationInput, RemoveUserError, Setting,
};
use media_recommendation_engine::settings::{
    admin_needs_sync, admin_sync_needed, startup_settings, watched_file_settings, AdminCredentials,
    ConfigFileRead, ServerSettings, DEFAULT_PORT,
};

#[test]
fn default_admin_and_port() {
    let a = AdminCredentials::default();
    assert_eq!(a.username, "admin");
    assert_eq!(a.password(), "admin");
    let s = ServerSettings::defaults();
    assert_eq!(s.port(), 3000);
    assert_eq!(DEFAULT_PORT, 3000);
}

#[test]
fn setting_reports_only_real_changes() {
    let mut s = ServerSettings::defaults();
    assert!(!s.set_port(3000));
    assert!(s.set_port(8080));
    assert_eq!(s.port(), 8080);
    assert!(!s.set_admin(AdminCredentials::default()));
    assert!(s.set_admin(AdminCredentials::new("root".to_string(), "pw".to_string())));
    assert!(s.admin() == AdminCredentials::new("root".to_string(), "pw".to_string()));
}

#[test]
fn updating_name_keeps_password_and_back() {
    let mut s = ServerSettings::defaults();
    assert!(s.update_admin_username("boss"));
    assert_eq!(s.admin().username, "boss");
    assert_eq!(s.admin().password(), "admin");
    assert!(!s.update_admin_username("boss"));
    assert!(s.update_admin_password("secret"));
    assert_eq!(s.admin().username, "boss");
    assert_eq!(s.admin().password(), "secret");
    let (port_changed, admin_changed) = s.set_all(3000, AdminCredentials::default());
    assert!(!port_changed);
    assert!(admin_changed);
}

#[test]
fn admin_account_sync_decision() {
    assert!(admin_sync_needed("admin", "h", "admin", "h", true));
    assert!(!admin_sync_needed("admin", "h", "admin", "h", false));
    assert!(admin_sync_needed("admin", "h", "root", "h", false));
    assert!(admin_sync_needed("admin", "h1", "admin", "h2", false));
    let a = AdminCredentials::default();
    let b = AdminCredentials::new("other".to_string(), "admin".to_string());
    assert!(admin_needs_sync(&a, &a, true));
    assert!(admin_needs_sync(&a, &b, false));
    // Fresh salts make the two hashes of one password differ.
    assert!(admin_needs_sync(&a, &a, false));
}

#[test]
fn user_menu_lists_users_and_inputs() {
    let menu = user_creation(vec![(1, "owner".to_string(), true), (2, "guest".to_string(), false)]);
    match menu {
        Setting::CreationMenu { creation } => {
            assert_eq!(creation.title, "Users");
            assert_eq!(creation.list_id, "user_list");
            assert_eq!(creation.error_id, "user_error");
            assert_eq!(creation.post_addr, "/settings/user");
            assert_eq!(creation.entries.len(), 2);
            assert!(!creation.entries[0].can_delete);
            assert!(creation.entries[1].can_delete);
            assert_eq!(creation.entries[1].name, "guest");
            assert!(matches!(
                creation.inputs[1],
                CreationInput::Text { typ: "password", name: "password", placeholder: "Password" }
            ));
        }
    }
}

#[test]
fn settings_page_for_owner_and_guest() {
    let p = settings_page(true, vec![(1, "owner".to_string(), true)], "owner".to_string());
    assert_eq!(p.admin_settings.unwrap().len(), 1);
    assert_eq!(p.name, "owner");
    assert_eq!(p.redirect_back, "hx-get=\"/\" hx-target=#all hx-push-url=\"/?all=/\"");
    let p = settings_page(false, vec![], "guest".to_string());
    assert!(p.admin_settings.is_none());
    assert!(p.account_settings.is_empty());
}

#[test]
fn account_route_decisions() {
    assert_eq!(owner_action_status(true), 202);
    assert_eq!(owner_action_status(false), 401);
    assert_eq!(credential_store("admin", "admin"), CredentialStore::ConfigFile);
    assert_eq!(credential_store("admin", "ann"), CredentialStore::Database);
    assert_eq!(may_remove_user(false, false), Err(RemoveUserError::NotPermitted));
    assert_eq!(may_remove_user(true, true), Err(RemoveUserError::Protected));
    assert_eq!(may_remove_user(true, false), Ok(()));
    let t = name_taken();
    assert_eq!(t.swap_id, "user_error");
    assert_eq!(t.content, "That Username is not available!");
    let e = new_user_entry(5, "neo".to_string());
    assert_eq!(e.swap_method, Some("beforeend"));
    assert_eq!(e.content.user_id, 5);
    assert!(e.content.can_delete);
}

#[test]
fn broken_or_missing_config_falls_back_to_defaults() {
    let own = ServerSettings::new(8080, AdminCredentials::new("root".to_string(), "pw".to_string()));
    let start = startup_settings(ConfigFileRead::Parsed(own));
    assert_eq!(start.settings.port(), 8080);
    assert!(!start.write_file);
    let start = startup_settings(ConfigFileRead::Unparsable);
    assert_eq!(start.settings.port(), DEFAULT_PORT);
    assert_eq!(start.settings.admin().password(), "admin");
    assert!(!start.write_file);
    let start = startup_settings(ConfigFileRead::Missing);
    assert_eq!(start.settings.port(), 3000);
    assert!(start.write_file);
    assert!(watched_file_settings(ConfigFileRead::Missing).is_none());
    assert_eq!(watched_file_settings(ConfigFileRead::Unparsable).unwrap().port(), 3000);
    let own = ServerSettings::new(81, AdminCredentials::new("a".to_string(), "b".to_string()));
    assert_eq!(watched_file_settings(ConfigFileRead::Parsed(own)).unwrap().port(), 81);
}
