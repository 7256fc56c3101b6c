use model_supervisor::catalog::ModelRecord;
use model_supervisor::resolver::{resolve, FsFacts};

fn record(id: &str, path: &str) -> ModelRecord {
    ModelRecord {
        id: id.to_string(),
        name: id.to_string(),
        path: path.to_string(),
        loaded: false,
    }
}

#[test]
fn resolve_prefers_shell_wrapper_script() {
    let rec = record("beta", "./models/beta");
    let facts = FsFacts {
        is_dir: true,
        has_run_script: true,
        has_batch_script: true,
        has_worker_binary: true,
    };
    let spec = resolve(&rec, &facts);
    assert_eq!(spec.program, "sh");
    assert_eq!(spec.args, vec!["./models/beta/run.sh".to_string()]);
    assert!(spec.via_shell);
}

#[test]
fn resolve_falls_back_to_batch_wrapper_script() {
    let rec = record("beta", "./models/beta");
    let facts = FsFacts {
        is_dir: true,
        has_run_script: false,
        has_batch_script: true,
        has_worker_binary: true,
    };
    let spec = resolve(&rec, &facts);
    assert_eq!(spec.program, "cmd");
    assert_eq!(spec.args, vec!["/C".to_string(), "./models/beta/run.bat".to_string()]);
    assert!(spec.via_shell);
}

#[test]
fn resolve_uses_local_worker_binary() {
    let rec = record("alpha", "./models/alpha.gguf");
    let facts = FsFacts {
        is_dir: false,
        has_run_script: false,
        has_batch_script: false,
        has_worker_binary: true,
    };
    let spec = resolve(&rec, &facts);
    assert_eq!(spec.program, "./bin/llama");
    assert_eq!(
        spec.args,
        vec!["-m".to_string(), "./models/alpha.gguf".to_string(), "--stream".to_string()]
    );
    assert!(!spec.via_shell);
}

#[test]
fn resolve_demonstration_fallback() {
    let rec = record("alpha", "./models/alpha.gguf");
    let facts = FsFacts {
        is_dir: false,
        has_run_script: false,
        has_batch_script: false,
        has_worker_binary: false,
    };
    let spec = resolve(&rec, &facts);
    assert_eq!(spec.program, "python3");
    assert_eq!(spec.args.len(), 3);
    assert_eq!(spec.args[0], "-u");
    assert_eq!(spec.args[1], "-c");
    assert!(spec.args[2].contains("TOKEN"));
    assert!(!spec.via_shell);
}

#[test]
fn resolve_ignores_scripts_outside_directories() {
    let rec = record("alpha", "./models/alpha.gguf");
    let facts = FsFacts {
        is_dir: false,
        has_run_script: true,
        has_batch_script: true,
        has_worker_binary: false,
    };
    let spec = resolve(&rec, &facts);
    assert_eq!(spec.program, "python3");
}
