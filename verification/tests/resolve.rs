use rustc_hash::FxHashMap;
use target_data_layout::{
    get, Action, Error, Event, ManifestPath, ProcessFailure, ProcessOutcome, RustcDataLayoutConfig,
    Sysroot, Tool,
};

fn printed(text: &str) -> Event {
    Event::Ran(ProcessOutcome::Exited { code: Some(0), stdout: text.as_bytes().to_vec() })
}

#[test]
fn resolution_starts_by_locating_rustc() {
    let action = get(RustcDataLayoutConfig::Rustc(None), None, &FxHashMap::default(), Event::Started);
    assert!(matches!(action, Action::Locate(Tool::Rustc, None)));
}

#[test]
fn resolution_starts_by_locating_cargo() {
    let manifest = ManifestPath::new("/work/project/Cargo.toml".to_owned()).unwrap();
    let config = RustcDataLayoutConfig::Cargo(None, &manifest);
    let action = get(config, Some("wasm32-unknown-unknown"), &FxHashMap::default(), Event::Started);
    assert!(matches!(action, Action::Locate(Tool::Cargo, None)));
}

#[test]
fn binary_is_located_in_the_given_sysroot() {
    let sysroot = Sysroot::new("/opt/toolchain".to_owned());
    let config = RustcDataLayoutConfig::Rustc(Some(&sysroot));
    match get(config, None, &FxHashMap::default(), Event::Started) {
        Action::Locate(Tool::Rustc, Some(found)) => assert_eq!(found.root(), "/opt/toolchain"),
        other => panic!("unexpected action {:?}", other),
    }
}

#[test]
fn missing_binary_ends_the_resolution() {
    let manifest = ManifestPath::new("/work/project/Cargo.toml".to_owned()).unwrap();
    let env = FxHashMap::default();
    let action = get(RustcDataLayoutConfig::Rustc(None), None, &env, Event::Located(None));
    assert!(matches!(action, Action::Return(Err(Error::ToolNotFound(Tool::Rustc)))));
    let action = get(RustcDataLayoutConfig::Cargo(None, &manifest), None, &env, Event::Located(None));
    assert!(matches!(action, Action::Return(Err(Error::ToolNotFound(Tool::Cargo)))));
}

#[test]
fn located_binary_is_run() {
    let mut env = FxHashMap::default();
    env.insert("RUSTC_BOOTSTRAP".to_owned(), "0".to_owned());
    env.insert("CARGO_HOME".to_owned(), "/home/cargo".to_owned());
    let manifest = ManifestPath::new("/work/project/Cargo.toml".to_owned()).unwrap();
    let config = RustcDataLayoutConfig::Cargo(None, &manifest);
    let event = Event::Located(Some("/usr/bin/cargo".to_owned()));
    match get(config, Some("wasm32-unknown-unknown"), &env, event) {
        Action::Run(built) => {
            assert_eq!(built.program, "/usr/bin/cargo");
            assert_eq!(
                built.args,
                vec!["-Z", "unstable-options", "--print", "target-spec-json", "--target", "wasm32-unknown-unknown"]
            );
            assert_eq!(built.current_dir.as_deref(), Some("/work/project"));
            assert_eq!(built.env.len(), 2);
            assert_eq!(built.env.get("RUSTC_BOOTSTRAP").map(String::as_str), Some("1"));
            assert_eq!(built.env.get("CARGO_HOME").map(String::as_str), Some("/home/cargo"));
        }
        other => panic!("unexpected action {:?}", other),
    }
}

#[test]
fn printed_field_is_the_result() {
    let event = printed("{\"data-layout\": \"e-m:e-p:64:64-i64:64-n8:16:32:64-S128\"}");
    match get(RustcDataLayoutConfig::Rustc(None), None, &FxHashMap::default(), event) {
        Action::Return(layout) => {
            assert_eq!(layout, Ok("e-m:e-p:64:64-i64:64-n8:16:32:64-S128".to_owned()))
        }
        other => panic!("unexpected action {:?}", other),
    }
}

#[test]
fn output_without_the_field_ends_the_resolution() {
    let event = printed("{\"arch\":\"x86_64\"}");
    let action = get(RustcDataLayoutConfig::Rustc(None), None, &FxHashMap::default(), event);
    assert!(matches!(action, Action::Return(Err(Error::FieldNotFound))));
}

#[test]
fn failed_run_ends_the_resolution() {
    let env = FxHashMap::default();
    let config = RustcDataLayoutConfig::Rustc(None);
    let event = Event::Ran(ProcessOutcome::NotStarted { os_error: Some(13) });
    assert!(matches!(
        get(config, None, &env, event),
        Action::Return(Err(Error::ProcessError(ProcessFailure::Spawn(Some(13)))))
    ));
    let event = Event::Ran(ProcessOutcome::Exited {
        code: Some(1),
        stdout: b"{\"data-layout\": \"e\"}".to_vec(),
    });
    assert!(matches!(
        get(config, None, &env, event),
        Action::Return(Err(Error::ProcessError(ProcessFailure::ExitStatus(Some(1)))))
    ));
    let event = Event::Ran(ProcessOutcome::Exited { code: Some(0), stdout: vec![b'"', 0xfe] });
    assert!(matches!(
        get(config, None, &env, event),
        Action::Return(Err(Error::ProcessError(ProcessFailure::InvalidUtf8)))
    ));
}

#[test]
fn whole_resolution_through_cargo() {
    let sysroot = Sysroot::new("/opt/toolchain".to_owned());
    let manifest = ManifestPath::new("/work/project/Cargo.toml".to_owned()).unwrap();
    let config = RustcDataLayoutConfig::Cargo(Some(&sysroot), &manifest);
    let env = FxHashMap::default();
    let target = Some("aarch64-apple-darwin");

    let mut event = Event::Started;
    let mut located = 0;
    let mut ran = 0;
    let layout = loop {
        match get(config, target, &env, event) {
            Action::Locate(tool, found) => {
                located += 1;
                let root = found.unwrap().root();
                event = Event::Located(Some(format!("{}/bin/{}", root, tool.name())));
            }
            Action::Run(built) => {
                ran += 1;
                assert_eq!(built.program, "/opt/toolchain/bin/cargo");
                event = printed("{\n  \"data-layout\": \"e-m:o-i64:64-i128:128-n32:64-S128\"\n}");
            }
            Action::Return(layout) => break layout,
        }
    };
    assert_eq!(layout, Ok("e-m:o-i64:64-i128:128-n32:64-S128".to_owned()));
    assert_eq!((located, ran), (1, 1));
}
