use plattera_supervisor::endpoint::{cleanup_url, health_url, SERVICE_PORT};
use plattera_supervisor::launch_plan::{
    backend_dir, fallback_plan, output_log_level, sidecar_plan, LogLevel, OutputStream,
};
use plattera_supervisor::updater_probe::updater_endpoint_report;

#[test]
fn json_body_reports_ok() {
    let r = updater_endpoint_report(200, Some("application/json".to_string()), Some("{\"version\":\"1.2.0\"}".to_string()));
    assert_eq!(
        r,
        Ok("ok status=200 content_type=application/json (JSON parse succeeded)".to_string())
    );
}

#[test]
fn missing_content_type_is_shown() {
    let r = updater_endpoint_report(404, None, Some(" [1, 2] ".to_string()));
    assert_eq!(r, Ok("ok status=404 content_type=<none> (JSON parse succeeded)".to_string()));
}

#[test]
fn non_json_body_is_decode_error() {
    let r = updater_endpoint_report(200, None, Some("<html>".to_string()));
    let e = r.unwrap_err();
    assert!(e.starts_with("json decode error: "));
    assert!(e.len() > "json decode error: ".len());
    let t = updater_endpoint_report(200, None, Some("{} {}".to_string()));
    assert!(t.is_err());
}

#[test]
fn unreadable_body_is_decode_error() {
    let r = updater_endpoint_report(200, Some("text/plain".to_string()), None);
    assert!(r.unwrap_err().starts_with("json decode error: "));
}

#[test]
fn plans_set_utf8_environment() {
    let s = sidecar_plan();
    assert_eq!(s.program, "plattera-backend");
    assert!(s.args.is_empty());
    assert!(s.current_dir.is_none());
    let f = fallback_plan();
    assert_eq!(f.program, "../../.venv/Scripts/python.exe");
    assert_eq!(f.args, vec!["-X".to_string(), "utf8".to_string(), "main.py".to_string()]);
    assert_eq!(f.current_dir, Some(backend_dir()));
    for env in [s.env, f.env] {
        assert_eq!(
            env,
            vec![
                ("PYTHONIOENCODING".to_string(), "utf-8".to_string()),
                ("PYTHONUTF8".to_string(), "1".to_string()),
            ]
        );
    }
}

#[test]
fn output_levels() {
    assert_eq!(output_log_level(OutputStream::Stdout), LogLevel::Info);
    assert_eq!(output_log_level(OutputStream::Stderr), LogLevel::Error);
}

#[test]
fn service_endpoints() {
    assert_eq!(SERVICE_PORT, 8000);
    assert_eq!(cleanup_url(), "http://127.0.0.1:8000/api/cleanup");
    assert_eq!(health_url(), "http://127.0.0.1:8000/api/health");
}
