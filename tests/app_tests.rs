use e2s::app::{command_for, login_destination, Action, App, Args, Command, KeyCode, KeyEvent, SessionPlan, Target};
use e2s::connect::ConnectMode;
use e2s::instance::{any_field_holds, filter_items, Data};
use e2s::ssh_keys::SshKeys;
use e2s::ssh_user::{SshUsers, UserConfig};
use e2s::user_input::InputMode;

fn record(name: &str, status: &str) -> Data {
    Data {
        name: name.to_string(),
        instance_id: format!("i-{}", name),
        ami_id: "ami-0123".to_string(),
        key_group: "main-keypair".to_string(),
        public_ipv4: "54.1.2.3".to_string(),
        private_ipv4: "10.0.0.7".to_string(),
        status: status.to_string(),
    }
}

fn args() -> Args {
    Args { profile: "None".to_string(), region: "None".to_string() }
}

fn keys(list: &[&str]) -> SshKeys {
    SshKeys::load(list.iter().map(|s| s.to_string()).collect(), vec![], None, None)
}

fn new_app(key_list: &[&str]) -> App {
    App::new(args(), keys(key_list), SshUsers::load(None))
}

fn names(v: &[Data]) -> Vec<String> {
    v.iter().map(|d| d.name.clone()).collect()
}

fn press(code: KeyCode) -> KeyEvent {
    KeyEvent { code, control: false, press: true }
}

#[test]
fn toggle_search() {
    let mut app = new_app(&[]);
    app.toggle_search();
    assert!(app.search_visible());
    assert_eq!(app.input_mode, InputMode::Editing);
    app.toggle_search();
    assert!(!app.search_visible());
}

#[test]
fn filter_by_name_and_status_ignores_case() {
    let mut app = new_app(&[]);
    app.refresh(vec![record("prod-web-01", "running"), record("dev-db-02", "stopped")]);
    app.set_filter("prod".to_string());
    assert_eq!(names(&app.display_items), vec!["prod-web-01"]);
    app.set_filter("STOPPED".to_string());
    assert_eq!(names(&app.display_items), vec!["dev-db-02"]);
}

#[test]
fn clearing_the_filter_restores_the_catalog() {
    let mut app = new_app(&[]);
    app.refresh(vec![record("b-web", "running"), record("a-db", "stopped"), record("c-api", "running")]);
    app.set_filter("db".to_string());
    assert_eq!(names(&app.display_items), vec!["a-db"]);
    app.set_filter(String::new());
    assert_eq!(names(&app.display_items), vec!["b-web", "a-db", "c-api"]);
}

#[test]
fn filter_matches_any_field() {
    let items = vec![record("alpha", "running"), record("beta", "stopped")];
    assert_eq!(names(&filter_items(&items, "I-BETA")), vec!["beta"]);
    assert_eq!(names(&filter_items(&items, "10.0.0")), vec!["alpha", "beta"]);
    assert_eq!(names(&filter_items(&items, "nothing-like-this")), Vec::<String>::new());
    assert_eq!(names(&filter_items(&items, "")), vec!["alpha", "beta"]);
}

#[test]
fn ref_array_follows_table_columns() {
    let d = record("web", "running");
    let cols = d.ref_array();
    assert_eq!(cols[0], "web");
    assert_eq!(cols[1], "running");
    assert_eq!(cols[2], "10.0.0.7");
    assert_eq!(cols[3], "main-keypair");
    assert_eq!(cols[4], "ami-0123");
    assert_eq!(cols[5], "54.1.2.3");
    assert_eq!(cols[6], "i-web");
}

#[test]
fn cursor_wraps_around() {
    let mut app = new_app(&[]);
    app.refresh(vec![record("a", "running"), record("b", "running"), record("c", "running")]);
    assert_eq!(app.selected, Some(0));
    app.ec2_previous();
    assert_eq!(app.selected, Some(2));
    app.ec2_next();
    assert_eq!(app.selected, Some(0));
    for _ in 0..3 {
        app.ec2_next();
    }
    assert_eq!(app.selected, Some(0));
    app.ec2_next();
    for _ in 0..3 {
        app.ec2_next();
    }
    assert_eq!(app.selected, Some(1));
}

#[test]
fn cursor_on_empty_list_is_none() {
    let mut app = new_app(&[]);
    app.ec2_next();
    assert_eq!(app.selected, None);
    app.ec2_previous();
    assert_eq!(app.selected, None);
}

#[test]
fn refresh_keeps_cursor_in_range() {
    let mut app = new_app(&[]);
    app.refresh(vec![record("a", "running"), record("b", "running"), record("c", "running")]);
    app.ec2_previous();
    assert_eq!(app.selected, Some(2));
    app.refresh(vec![record("a", "running")]);
    assert_eq!(app.selected, Some(0));
    app.refresh(vec![]);
    assert_eq!(app.selected, None);
    app.refresh(vec![record("x", "running"), record("y", "running")]);
    assert_eq!(app.selected, Some(0));
    app.ec2_next();
    app.refresh(vec![record("x", "running"), record("y", "running"), record("z", "running")]);
    assert_eq!(app.selected, Some(1));
}

#[test]
fn refresh_reapplies_query() {
    let mut app = new_app(&[]);
    app.set_filter("web".to_string());
    app.refresh(vec![record("prod-web", "running"), record("prod-db", "running")]);
    assert_eq!(names(&app.display_items), vec!["prod-web"]);
}

#[test]
fn connect_mode_cycles() {
    let mut m = ConnectMode::Private;
    m.toggle();
    assert_eq!(m, ConnectMode::Public);
    m.toggle();
    assert_eq!(m, ConnectMode::ManagedSession);
    m.toggle();
    assert_eq!(m, ConnectMode::Private);
}

#[test]
fn no_credential_blocks_session() {
    let mut app = new_app(&[]);
    app.refresh(vec![record("web", "running")]);
    assert!(app.ssh_keys.selected_key.is_none());
    assert!(matches!(app.plan_session(), SessionPlan::NoCredential));
}

#[test]
fn no_instance_means_no_session() {
    let app = new_app(&["/home/u/.ssh/id_rsa"]);
    assert!(matches!(app.plan_session(), SessionPlan::NoInstance));
}

#[test]
fn session_targets_follow_connect_mode() {
    let mut app = new_app(&["/home/u/.ssh/id_rsa"]);
    app.refresh(vec![record("web", "running")]);
    match app.plan_session() {
        SessionPlan::Launch { key, user, target } => {
            assert_eq!(key, "/home/u/.ssh/id_rsa");
            assert_eq!(user, "ec2-user");
            assert!(matches!(target, Target::Address(a) if a == "10.0.0.7"));
        }
        _ => panic!("expected a launch"),
    }
    app.connect_mode.toggle();
    match app.plan_session() {
        SessionPlan::Launch { target, .. } => {
            assert!(matches!(target, Target::Address(a) if a == "54.1.2.3"))
        }
        _ => panic!("expected a launch"),
    }
    app.connect_mode.toggle();
    match app.plan_session() {
        SessionPlan::Launch { target, .. } => {
            assert!(matches!(target, Target::ManagedSession(id) if id == "i-web"))
        }
        _ => panic!("expected a launch"),
    }
}

#[test]
fn session_user_falls_back_when_none_selected() {
    let mut app = new_app(&["/k"]);
    app.refresh(vec![record("web", "running")]);
    app.ssh_user.selected_user = None;
    match app.plan_session() {
        SessionPlan::Launch { user, .. } => assert_eq!(user, "ec2-user"),
        _ => panic!("expected a launch"),
    }
}

#[test]
fn login_destination_joins_user_and_host() {
    assert_eq!(login_destination("ubuntu", "10.0.0.7"), "ubuntu@10.0.0.7");
    assert_eq!(login_destination("", "h"), "@h");
}

#[test]
fn keys_dispatch_in_normal_mode() {
    let mut app = new_app(&["/a", "/b"]);
    app.refresh(vec![record("x", "running"), record("y", "running")]);
    assert_eq!(app.update(press(KeyCode::Char('c'))), Action::Nothing);
    assert!(!app.should_quit);
    assert_eq!(app.update(press(KeyCode::Char('r'))), Action::Refresh);
    assert_eq!(app.update(press(KeyCode::Enter)), Action::Connect);
    assert_eq!(app.update(press(KeyCode::Char('s'))), Action::Connect);
    app.update(press(KeyCode::Char('j')));
    assert_eq!(app.selected, Some(1));
    app.update(press(KeyCode::Up));
    assert_eq!(app.selected, Some(0));
    app.update(press(KeyCode::Char('l')));
    assert_eq!(app.ssh_keys.selected_key.as_deref(), Some("/b"));
    app.update(press(KeyCode::Left));
    assert_eq!(app.ssh_keys.selected_key.as_deref(), Some("/a"));
    app.update(press(KeyCode::Char('n')));
    assert_eq!(app.ssh_user.selected_user.as_deref(), Some("ubuntu"));
    app.update(press(KeyCode::Char('m')));
    assert_eq!(app.ssh_user.selected_user.as_deref(), Some("ec2-user"));
    app.update(press(KeyCode::Char('p')));
    assert_eq!(app.connect_mode, ConnectMode::Public);
    app.update(press(KeyCode::Char('?')));
    assert!(app.show_help);
    app.update(KeyEvent { code: KeyCode::Char('c'), control: true, press: true });
    assert!(app.should_quit);
}

#[test]
fn keys_edit_query_while_searching() {
    let mut app = new_app(&[]);
    app.refresh(vec![record("x", "running"), record("y", "running")]);
    app.update(press(KeyCode::Char('/')));
    assert_eq!(app.input_mode, InputMode::Editing);
    app.update(press(KeyCode::Char('a')));
    app.update(press(KeyCode::Char('c')));
    assert_eq!(app.search.input, "ac");
    app.update(press(KeyCode::Left));
    app.update(press(KeyCode::Char('b')));
    assert_eq!(app.search.input, "abc");
    assert_eq!(app.search.character_index, 2);
    app.update(press(KeyCode::Backspace));
    assert_eq!(app.search.input, "ac");
    app.update(press(KeyCode::Right));
    app.update(press(KeyCode::Right));
    assert_eq!(app.search.character_index, 2);
    app.update(press(KeyCode::Down));
    assert_eq!(app.selected, Some(1));
    app.update(KeyEvent { code: KeyCode::Char('z'), control: false, press: false });
    assert_eq!(app.search.input, "ac");
    app.update(press(KeyCode::Esc));
    assert_eq!(app.input_mode, InputMode::Normal);
    assert!(!app.should_quit);
}

#[test]
fn users_load_from_config() {
    let u = SshUsers::load(None);
    assert_eq!(u.users, vec!["ec2-user", "ubuntu"]);
    assert_eq!(u.selected_user.as_deref(), Some("ec2-user"));
    let cfg = UserConfig {
        default_user: Some("admin".to_string()),
        additional_users: vec!["admin".to_string(), "ubuntu".to_string(), "root".to_string()],
    };
    let u = SshUsers::load(Some(cfg));
    assert_eq!(u.users, vec!["ec2-user", "ubuntu", "admin", "root"]);
    assert_eq!(u.selected_user.as_deref(), Some("admin"));
    let cfg = UserConfig { default_user: Some("nobody".to_string()), additional_users: vec![] };
    let u = SshUsers::load(Some(cfg));
    assert_eq!(u.selected_user.as_deref(), Some("ec2-user"));
    assert_eq!(u.len(), 2);
    assert!(!u.is_empty());
}

#[test]
fn any_field_holds_checks_each_field() {
    let fields = vec!["prod-web".to_string(), "running".to_string()];
    assert!(any_field_holds(&fields, "web"));
    assert!(any_field_holds(&fields, "unn"));
    assert!(!any_field_holds(&fields, "WEB"));
    assert!(!any_field_holds(&vec![], "x"));
    assert!(any_field_holds(&fields, ""));
}

#[test]
fn command_for_maps_keys_by_mode() {
    assert_eq!(command_for(InputMode::Normal, press(KeyCode::Char('x'))), Command::Nothing);
    assert_eq!(command_for(InputMode::Normal, press(KeyCode::Esc)), Command::Nothing);
    assert_eq!(command_for(InputMode::Editing, press(KeyCode::Char('j'))), Command::InsertChar('j'));
    assert_eq!(command_for(InputMode::Editing, press(KeyCode::Enter)), Command::ToggleSearch);
    assert_eq!(
        command_for(InputMode::Normal, KeyEvent { code: KeyCode::Char('C'), control: true, press: true }),
        Command::Quit
    );
}
