use arkadas_desktop::bridge::{get_app_name, get_version, startup_message, APP_NAME, VERSION};

#[test]
fn version_is_the_declared_one() {
    assert_eq!(get_version(), "0.1.0");
    assert_eq!(get_version(), VERSION);
}

#[test]
fn version_is_the_same_on_every_call() {
    let first = get_version();
    for _ in 0..10 {
        assert_eq!(get_version(), first);
    }
}

#[test]
fn app_name_is_the_display_name() {
    assert_eq!(get_app_name(), "Arkadaş Özel Eğitim");
    assert_eq!(get_app_name(), APP_NAME);
    assert_eq!(get_app_name().chars().count(), 19);
}

#[test]
fn startup_line_names_application_and_version() {
    assert_eq!(startup_message(), "Arkadaş Özel Eğitim Desktop v0.1.0 started");
    assert_eq!(
        startup_message(),
        format!("{} Desktop v{} started", get_app_name(), get_version())
    );
}
