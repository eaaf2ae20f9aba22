use clai::config::ToolingConfig;
use clai::ephemeral_script::{attach_script_path, default_extension_for_program, normalized_extension, plan_ephemeral_script};
use clai::schema::CommandProposal;

fn proposal(program: &str, args: &[&str], body: Option<&str>, ext: Option<&str>) -> CommandProposal {
    CommandProposal {
        program: program.into(),
        args: args.iter().map(|s| s.to_string()).collect(),
        cwd: None,
        reason: None,
        needs_shell: false,
        confidence: None,
        script_body: body.map(String::from),
        script_extension: ext.map(String::from),
    }
}

#[test]
fn materializes_and_strips_body() {
    let mut tooling = ToolingConfig::default();
    tooling.ephemeral_scripts = true;
    let mut p = proposal("python3", &["-u"], Some("print(1)"), None);
    let plan = plan_ephemeral_script(&mut p, &tooling).expect("prep").expect("plan");
    assert_eq!(plan.body, "print(1)");
    assert_eq!(plan.file_name, "script.py");
    let ran = attach_script_path(p, "/tmp/clai-script-x/script.py".into());
    assert!(ran.script_body.is_none());
    assert_eq!(ran.args.len(), 2);
    assert_eq!(ran.args[0], "-u");
    assert!(ran.args[1].ends_with(".py"));
}

#[test]
fn rejects_body_when_disabled() {
    let tooling = ToolingConfig::default();
    let mut p = proposal("python3", &[], Some("x"), None);
    assert!(plan_ephemeral_script(&mut p, &tooling).is_err());
}

#[test]
fn rejects_body_with_shell() {
    let mut tooling = ToolingConfig::default();
    tooling.ephemeral_scripts = true;
    let mut p = proposal("python3", &[], Some("x"), None);
    p.needs_shell = true;
    assert!(plan_ephemeral_script(&mut p, &tooling).is_err());
}

#[test]
fn empty_script_body_is_no_script() {
    let mut tooling = ToolingConfig::default();
    tooling.ephemeral_scripts = true;
    let mut p = proposal("wc", &["-l"], Some(""), Some(""));
    let plan = plan_ephemeral_script(&mut p, &tooling).expect("prep");
    assert!(plan.is_none());
    assert!(p.script_body.is_none());
    assert!(p.script_extension.is_none());
    assert_eq!(p.args, vec!["-l"]);
}

#[test]
fn extensions() {
    assert_eq!(normalized_extension(Some(" .js "), "python3"), "js");
    assert_eq!(normalized_extension(Some(".."), "ruby"), "rb");
    assert_eq!(default_extension_for_program("/usr/bin/node"), "js");
    assert_eq!(default_extension_for_program("Perl"), "pl");
    assert_eq!(default_extension_for_program("php8"), "php");
    assert_eq!(default_extension_for_program("bash"), "txt");
}
