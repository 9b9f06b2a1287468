use tapeit::commands::{plan_for_output, plan_recording, RecordingConfig};
use tapeit::output::LocalDateTime;
use tapeit::sources::{find_target, get_available_sources, resolve_source, source_id, SourceType, TargetInfo};
use tapeit::text::u32_to_decimal;

fn targets() -> Vec<TargetInfo> {
    vec![
        TargetInfo { source_type: SourceType::Screen, id: 1, title: "Main display".to_string() },
        TargetInfo { source_type: SourceType::Window, id: 1, title: "Terminal".to_string() },
        TargetInfo { source_type: SourceType::Window, id: 4021, title: "Browser".to_string() },
    ]
}

#[test]
fn decimal_rendering() {
    assert_eq!(u32_to_decimal(0), "0");
    assert_eq!(u32_to_decimal(7), "7");
    assert_eq!(u32_to_decimal(10), "10");
    assert_eq!(u32_to_decimal(1920), "1920");
    assert_eq!(u32_to_decimal(u32::MAX), "4294967295");
}

#[test]
fn source_ids() {
    assert_eq!(source_id(SourceType::Screen, 0), "display-0");
    assert_eq!(source_id(SourceType::Window, 123), "window-123");
}

#[test]
fn sources_list_every_target_in_order() {
    let s = get_available_sources(&targets());
    assert_eq!(s.len(), 3);
    assert_eq!(s[0].id, "display-1");
    assert_eq!(s[0].name, "Main display");
    assert_eq!(s[0].source_type, SourceType::Screen);
    assert_eq!(s[1].id, "window-1");
    assert_eq!(s[1].name, "Terminal");
    assert_eq!(s[1].source_type, SourceType::Window);
    assert_eq!(s[2].id, "window-4021");
    assert!(get_available_sources(&Vec::new()).is_empty());
}

#[test]
fn listed_sources_resolve_to_their_targets() {
    let t = targets();
    let s = get_available_sources(&t);
    for (i, src) in s.iter().enumerate() {
        assert_eq!(find_target(&t, &src.id), Some(i));
    }
}

#[test]
fn find_takes_first_match_and_reports_missing() {
    let mut t = targets();
    t.push(TargetInfo { source_type: SourceType::Window, id: 4021, title: "Dup".to_string() });
    assert_eq!(find_target(&t, "window-4021"), Some(2));
    assert_eq!(find_target(&t, "window-402"), None);
    assert_eq!(find_target(&t, "display-01"), None);
    assert_eq!(resolve_source(&t, "display-9"), Err("Capture source not found".to_string()));
    assert_eq!(resolve_source(&t, "display-1"), Ok(0));
}

fn now() -> LocalDateTime {
    LocalDateTime { year: 2024, month: 1, day: 2, hour: 3, minute: 4, second: 5 }
}

fn config(source: &str) -> RecordingConfig {
    RecordingConfig {
        source_id: source.to_string(),
        fps: 30,
        output_dir: "/tmp/rec".to_string(),
        record_audio: true,
        record_microphone: false,
    }
}

#[test]
fn plan_recording_resolves_source_and_names_file() {
    let p = plan_recording(&config("window-4021"), &targets(), &now()).unwrap();
    assert_eq!(p.target_index, 2);
    assert_eq!(p.output_path, "/tmp/rec/tapeit_20240102_030405.mp4");
    assert_eq!(p.fps, 30);
    assert!(!p.record_mic);
    assert!(p.record_system_audio);
}

#[test]
fn plan_recording_errors() {
    assert_eq!(
        plan_recording(&config("window-9"), &targets(), &now()).unwrap_err(),
        "Capture source not found"
    );
    let bad = LocalDateTime { year: 2024, month: 2, day: 30, hour: 0, minute: 0, second: 0 };
    assert_eq!(plan_recording(&config("display-1"), &targets(), &bad).unwrap_err(), "Invalid local time");
}

#[test]
fn plan_for_given_output_path() {
    let p = plan_for_output(&config("display-1"), &targets(), "/x/y.mp4".to_string()).unwrap();
    assert_eq!(p.target_index, 0);
    assert_eq!(p.output_path, "/x/y.mp4");
    assert!(plan_for_output(&config("display-2"), &targets(), "/x/y.mp4".to_string()).is_err());
}
