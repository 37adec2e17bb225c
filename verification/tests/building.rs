use cli::fns::{build, build_report, BuildOptions, BuildPlan, BuildReport, PublishOptions};
use cli::runner::{classify, Platform, ProcessOutput};

fn json_tls() -> BuildOptions<'static> {
    BuildOptions {
        release: true,
        features: Some(vec!["json", "tls"]),
        all_features: false,
        no_default_features: false,
    }
}

#[test]
fn build_hands_the_runner_its_name_and_features() {
    let plan = build(json_tls());
    assert_eq!(plan.command, "build");
    assert_eq!(plan.args, vec!["json", "tls"]);
}

#[test]
fn build_announces_its_options() {
    let plan = build(json_tls());
    assert_eq!(
        plan.banner,
        "Build, release: true, features: json tls, all-features: false, no-default-features: false"
    );
}

#[test]
fn build_without_features() {
    let plan = build(BuildOptions {
        release: false,
        features: None,
        all_features: true,
        no_default_features: true,
    });
    assert_eq!(
        plan,
        BuildPlan {
            banner: String::from(
                "Build, release: false, features: (no features), all-features: true, no-default-features: true"
            ),
            command: "build",
            args: vec![],
        }
    );
}

#[test]
fn build_with_an_empty_feature_list() {
    let plan = build(BuildOptions {
        release: false,
        features: Some(vec![]),
        all_features: false,
        no_default_features: false,
    });
    assert_eq!(
        plan.banner,
        "Build, release: false, features: (no features), all-features: false, no-default-features: false"
    );
    assert!(plan.args.is_empty());
}

#[test]
fn build_success_prints_the_output_and_exits_with_zero() {
    let plan = build(json_tls());
    let inv = Platform::Unix.invocation(plan.command, &plan.args);
    assert_eq!(inv.args[1], "osascript scripts/run.scpt build json tls");
    let output = ProcessOutput { stdout: b"compiled 3 blocks\n".to_vec(), stderr: vec![] };
    let report = build_report(classify(output));
    assert_eq!(report.lines[0], "compiled 3 blocks\n");
    assert_eq!(
        report,
        BuildReport {
            lines: vec![String::from("compiled 3 blocks\n"), String::from("Done.")],
            exit_code: 0,
        }
    );
}

#[test]
fn build_failure_prints_the_error_and_exits_with_one() {
    let plan = build(json_tls());
    assert_eq!(plan.command, "build");
    let output = ProcessOutput { stdout: vec![], stderr: b"missing crate foo".to_vec() };
    let report = build_report(classify(output));
    assert_eq!(
        report,
        BuildReport { lines: vec![String::from("ERROR: missing crate foo")], exit_code: 1 }
    );
}

#[test]
fn report_of_empty_output() {
    let report = build_report(Ok(String::new()));
    assert_eq!(report.lines, vec![String::new(), String::from("Done.")]);
    assert_eq!(report.exit_code, 0);
}

#[test]
fn report_of_a_failure_keeps_the_error_text_whole() {
    let report = build_report(Err(String::from("line one\nline two")));
    assert_eq!(report.lines, vec![String::from("ERROR: line one\nline two")]);
    assert_eq!(report.exit_code, 1);
}

#[test]
fn options_compare_by_value() {
    assert_eq!(json_tls(), json_tls());
    assert_ne!(PublishOptions { dry_run: true }, PublishOptions { dry_run: false });
}
