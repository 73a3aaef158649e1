use deeplink_dispatch::Config;
use deeplink_dispatch::Dispatcher;
use deeplink_dispatch::LaunchOutcome;
use deeplink_dispatch::Platform;
use deeplink_dispatch::UiAction;
use deeplink_dispatch::decide_launch;
use deeplink_dispatch::default_config;
use deeplink_dispatch::starts_with_prefix;

fn s(x: &str) -> String {
    x.to_string()
}

fn emitted(acts: &[UiAction]) -> Vec<(String, String)> {
    let mut out = Vec::new();
    for a in acts {
        if let UiAction::EmitEvent { name, payload } = a {
            out.push((name.clone(), payload.clone()));
        }
    }
    out
}

fn globals(acts: &[UiAction]) -> Vec<(String, String)> {
    let mut out = Vec::new();
    for a in acts {
        if let UiAction::SetGlobal { name, value } = a {
            out.push((name.clone(), value.clone()));
        }
    }
    out
}

fn windows(acts: &[UiAction]) -> usize {
    acts.iter().filter(|a| matches!(a, UiAction::CreateWindow)).count()
}

fn primary() -> Dispatcher {
    let mut d = Dispatcher::new(default_config());
    d.on_startup(Platform::CallbackDriven, &vec![s("bin")]);
    d
}

#[test]
fn valid_url_emits_exactly_one_event() {
    let d = primary();
    let acts = d.on_scheme_callback(&s("algokit-lora://foo"));
    let ev = emitted(&acts);
    assert_eq!(ev.len(), 1);
    assert_eq!(ev[0], (s("deep-link-received"), s("algokit-lora://foo")));
}

#[test]
fn foreign_url_emits_nothing() {
    let d = primary();
    let acts = d.on_scheme_callback(&s("https://example.com/asset/123"));
    assert_eq!(acts, Vec::<UiAction>::new());
}

#[test]
fn bare_prefix_is_a_valid_url() {
    let d = primary();
    let acts = d.on_scheme_callback(&s("algokit-lora://"));
    assert_eq!(emitted(&acts).len(), 1);
}

#[test]
fn truncated_prefix_is_foreign() {
    let d = primary();
    assert_eq!(d.on_scheme_callback(&s("algokit-lora:/")), Vec::<UiAction>::new());
    assert_eq!(d.on_scheme_callback(&s("")), Vec::<UiAction>::new());
    assert_eq!(d.on_scheme_callback(&s("ALGOKIT-LORA://x")), Vec::<UiAction>::new());
}

#[test]
fn second_launch_relays_args_and_never_proceeds() {
    let args = vec![s("bin"), s("algokit-lora://asset/123")];
    match decide_launch(true, args.clone()) {
        LaunchOutcome::RelayAndExit { args: relayed } => assert_eq!(relayed, args),
        LaunchOutcome::BecomePrimary => panic!("second launch must not become primary"),
    }
    match decide_launch(false, args) {
        LaunchOutcome::BecomePrimary => {}
        LaunchOutcome::RelayAndExit { .. } => panic!("first launch must become primary"),
    }
}

#[test]
fn relay_focuses_emits_and_creates_no_window() {
    let d = primary();
    let acts = d.on_second_instance(&vec![s("bin"), s("algokit-lora://asset/123")]);
    assert_eq!(windows(&acts), 0);
    assert_eq!(acts[0], UiAction::FocusWindow);
    let ev = emitted(&acts);
    assert_eq!(ev, vec![(s("deep-link-received"), s("algokit-lora://asset/123"))]);
    assert_eq!(globals(&acts), Vec::<(String, String)>::new());
}

#[test]
fn relay_with_foreign_url_only_focuses() {
    let d = primary();
    let acts = d.on_second_instance(&vec![s("bin"), s("https://example.com")]);
    assert_eq!(acts, vec![UiAction::FocusWindow]);
    let acts = d.on_second_instance(&vec![s("bin")]);
    assert_eq!(acts, vec![UiAction::FocusWindow]);
}

#[test]
fn argv_startup_sets_global_and_emits() {
    let mut d = Dispatcher::new(default_config());
    let url = s("algokit-lora://asset/123");
    let acts = d.on_startup(Platform::ArgumentVectorDriven, &vec![s("bin"), url.clone()]);
    assert_eq!(windows(&acts), 1);
    assert_eq!(globals(&acts), vec![(s("deepLink"), url.clone())]);
    assert_eq!(emitted(&acts), vec![(s("deep-link-received"), url.clone())]);
    assert_eq!(
        acts,
        vec![
            UiAction::CreateWindow,
            UiAction::SetGlobal { name: s("deepLink"), value: url.clone() },
            UiAction::EmitEvent { name: s("deep-link-received"), payload: url },
        ]
    );
}

#[test]
fn argv_startup_with_foreign_url_only_creates_window() {
    let mut d = Dispatcher::new(default_config());
    let acts = d.on_startup(Platform::ArgumentVectorDriven, &vec![s("bin"), s("mailto:x@y")]);
    assert_eq!(acts, vec![UiAction::CreateWindow]);
}

#[test]
fn no_extra_args_means_no_delivery() {
    let mut d = Dispatcher::new(default_config());
    let acts = d.on_startup(Platform::ArgumentVectorDriven, &vec![s("bin")]);
    assert_eq!(acts, vec![UiAction::CreateWindow]);
    assert_eq!(emitted(&acts).len(), 0);
    assert_eq!(globals(&acts).len(), 0);

    let mut d = Dispatcher::new(default_config());
    let acts = d.on_startup(Platform::ArgumentVectorDriven, &Vec::new());
    assert_eq!(acts, vec![UiAction::CreateWindow]);
}

#[test]
fn callback_platform_ignores_argument_vector() {
    let mut d = Dispatcher::new(default_config());
    let acts = d.on_startup(Platform::CallbackDriven, &vec![s("bin"), s("algokit-lora://x")]);
    assert_eq!(acts, vec![UiAction::CreateWindow]);
}

#[test]
fn injected_config_drives_every_name() {
    let cfg = Config::new(s("other://"), s("scheme-request-received"), s("urlSchemeRequest"));
    let mut d = Dispatcher::new(cfg);
    let acts = d.on_startup(Platform::ArgumentVectorDriven, &vec![s("bin"), s("other://z")]);
    assert_eq!(globals(&acts), vec![(s("urlSchemeRequest"), s("other://z"))]);
    assert_eq!(emitted(&acts), vec![(s("scheme-request-received"), s("other://z"))]);
    assert_eq!(d.on_scheme_callback(&s("algokit-lora://x")), Vec::<UiAction>::new());
}

#[test]
fn prefix_test_matches_prefix_semantics() {
    assert!(starts_with_prefix("algokit-lora://asset/123", "algokit-lora://"));
    assert!(starts_with_prefix("abc", ""));
    assert!(starts_with_prefix("abc", "abc"));
    assert!(!starts_with_prefix("ab", "abc"));
    assert!(!starts_with_prefix("axc", "abc"));
    assert!(starts_with_prefix("äöü-link", "äöü"));
    assert!(!starts_with_prefix("äöx", "äöü"));
}
