use yatangaki::config::ProxyConfig;
use yatangaki::controller::{
    ControllerAction, ControllerInput, ProxyCommand, ProxyController, ProxyEvent, ProxyState,
};
use yatangaki::settings::{SettingsAction, SettingsMessage, SettingsTabs};

#[test]
fn start_binds_and_runs() {
    let mut c = ProxyController::new(3, 8080);
    assert_eq!(c.proxy_id(), 3);
    assert_eq!(c.port(), 8080);

    let action = c.step(&ControllerInput::Command(ProxyCommand::Start));
    assert_eq!(action, ControllerAction::TryBind);
    let action = c.step(&ControllerInput::BindSucceeded);
    assert_eq!(action, ControllerAction::Ignore);

    let action = c.step(&ControllerInput::Command(ProxyCommand::Start));
    assert_eq!(action, ControllerAction::Ignore);
}

#[test]
fn stop_fires_the_shutdown_once() {
    let mut c = ProxyController::new(0, 8080);
    c.step(&ControllerInput::Command(ProxyCommand::Start));
    c.step(&ControllerInput::BindSucceeded);

    let action = c.step(&ControllerInput::Command(ProxyCommand::Stop));
    assert_eq!(action, ControllerAction::FireShutdown);

    let action = c.step(&ControllerInput::Command(ProxyCommand::Stop));
    assert_eq!(action, ControllerAction::Ignore);
}

#[test]
fn bind_conflict_is_reported_and_recoverable() {
    let mut c = ProxyController::new(9, 8080);
    let action = c.step(&ControllerInput::Command(ProxyCommand::Start));
    assert_eq!(action, ControllerAction::TryBind);

    let action = c.step(&ControllerInput::BindFailed);
    assert_eq!(action, ControllerAction::EmitProxyError);

    let action = c.step(&ControllerInput::Command(ProxyCommand::Start));
    assert_eq!(action, ControllerAction::TryBind);
    let action = c.step(&ControllerInput::BindSucceeded);
    assert_eq!(action, ControllerAction::Ignore);

    let action = c.step(&ControllerInput::Command(ProxyCommand::Stop));
    assert_eq!(action, ControllerAction::FireShutdown);
}

#[test]
fn adding_a_proxy_parses_the_typed_port() {
    let mut tabs = SettingsTabs::new();
    let action = tabs.update(SettingsMessage::ProxyPortRequest("8080".to_string()));
    assert!(matches!(action, SettingsAction::NoAction));

    let action = tabs.update(SettingsMessage::AddProxy);
    match action {
        SettingsAction::PersistProxy(config) => {
            assert_eq!(config.port, 8080);
            assert_eq!(config.id, 0);
            assert!(!config.auto_start);
        }
        _ => panic!("expected a persisted proxy"),
    }
    let record = tabs.record_at(0).unwrap();
    assert_eq!(record.port, 8080);
    assert_eq!(record.id, 0);
    assert_eq!(record.status, ProxyState::Stopped);
    assert!(!record.has_command);
}

#[test]
fn a_bad_port_adds_nothing() {
    let mut tabs = SettingsTabs::new();
    tabs.update(SettingsMessage::ProxyPortRequest("80a80".to_string()));
    let action = tabs.update(SettingsMessage::AddProxy);
    assert!(matches!(action, SettingsAction::NoAction));
    assert!(tabs.record_at(0).is_none());
}

#[test]
fn initialized_event_attaches_the_channel_and_auto_starts() {
    let mut tabs = SettingsTabs::new();
    tabs.add_proxy(&ProxyConfig {
        port: 8080,
        id: 0,
        auto_start: false,
    });
    let action = tabs.update(SettingsMessage::ProxyEvent(ProxyEvent::Initialized(0)));
    match action {
        SettingsAction::SendCommand(id, ProxyCommand::Start) => assert_eq!(id, 0),
        _ => panic!("expected an auto-start command"),
    }
    let record = tabs.record_at(0).unwrap();
    assert!(record.has_command);
    assert_eq!(record.status, ProxyState::Running);
}

#[test]
fn stop_marks_the_record_and_sends_the_command() {
    let mut tabs = SettingsTabs::new();
    tabs.add_proxy(&ProxyConfig {
        port: 8080,
        id: 0,
        auto_start: false,
    });
    tabs.update(SettingsMessage::ProxyEvent(ProxyEvent::Initialized(0)));
    let action = tabs.update(SettingsMessage::StopProxy(0));
    match action {
        SettingsAction::SendCommand(id, ProxyCommand::Stop) => assert_eq!(id, 0),
        _ => panic!("expected a stop command"),
    }
    assert_eq!(tabs.record_at(0).unwrap().status, ProxyState::Stopped);
}

#[test]
fn proxy_error_event_marks_the_record() {
    let mut tabs = SettingsTabs::new();
    tabs.add_proxy(&ProxyConfig {
        port: 8080,
        id: 4,
        auto_start: false,
    });
    tabs.update(SettingsMessage::ProxyEvent(ProxyEvent::ProxyError(4)));
    assert_eq!(tabs.record_at(0).unwrap().status, ProxyState::Error);
    assert_eq!(tabs.selected(), None);
    tabs.update(SettingsMessage::SelectProxy(4));
    assert_eq!(tabs.selected(), Some(4));
}
