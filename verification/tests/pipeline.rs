use aadk::model::{Artifact, ArtifactType, BuildVariant, JobState, KeyValue, RunOutputKind};
use aadk::pipeline::messages::{
    job_error_detail, Call, Effect, ErrorCode, PipelineOptions, PipelineRequest, Reply, Turn,
};
use aadk::pipeline::plan::{
    clean_id_text, count_steps, is_wanted, plan_pipeline, resolve_project_name, resolve_variant,
    Step, STEP_COUNT,
};
use aadk::pipeline::run::{select_artifact_path, PipelineRun};
use aadk::pipeline::service::{
    invalid_endpoint, pipeline_job, publish_error, resolve_correlation_id, resolve_run_id, respond,
    run_id_with, service_unavailable, Admission, StatusCode,
};

fn no_steps() -> PipelineOptions {
    PipelineOptions {
        create_project: false,
        open_project: false,
        verify_toolchain: false,
        build: false,
        install_apk: false,
        launch_app: false,
        export_support_bundle: false,
        export_evidence_bundle: false,
    }
}

fn all_steps() -> PipelineOptions {
    PipelineOptions {
        create_project: true,
        open_project: true,
        verify_toolchain: true,
        build: true,
        install_apk: true,
        launch_app: true,
        export_support_bundle: true,
        export_evidence_bundle: true,
    }
}

fn request() -> PipelineRequest {
    PipelineRequest {
        run_id: None,
        correlation_id: String::new(),
        job_id: None,
        project_id: None,
        project_path: String::new(),
        project_name: String::new(),
        template_id: None,
        toolchain_id: None,
        toolchain_set_id: None,
        target_id: None,
        build_variant: BuildVariant::Unspecified,
        module: String::new(),
        variant_name: String::new(),
        tasks: vec![],
        apk_path: String::new(),
        application_id: String::new(),
        activity: String::new(),
        options: None,
    }
}

fn full_request() -> PipelineRequest {
    PipelineRequest {
        project_path: " /work/app ".to_string(),
        template_id: Some(" tmpl ".to_string()),
        toolchain_id: Some("tc".to_string()),
        toolchain_set_id: Some("set".to_string()),
        target_id: Some("dev".to_string()),
        module: " app ".to_string(),
        variant_name: " demo ".to_string(),
        tasks: vec!["assemble".to_string()],
        application_id: " com.a ".to_string(),
        activity: " .Main ".to_string(),
        options: Some(all_steps()),
        ..request()
    }
}

fn pairs(items: &[KeyValue]) -> String {
    items.iter().map(|kv| format!("{}={}", kv.key, kv.value)).collect::<Vec<_>>().join(",")
}

fn told(turn: &Turn) -> Vec<String> {
    turn.effects
        .items
        .iter()
        .map(|effect| match effect {
            Effect::PublishLog { stream, line } => format!("log {stream} {line}"),
            Effect::PublishState { state } => format!("state {state:?}"),
            Effect::PublishProgress { percent, phase, metrics } => {
                format!("progress {percent} {phase} {}", pairs(metrics))
            }
            Effect::PublishFailed { error } => format!(
                "failed {:?} {}: {} corr={} remedies={}",
                error.code, error.message, error.technical_details, error.correlation_id,
                error.remedies.len()
            ),
            Effect::PublishCompleted { summary, outputs } => {
                format!("completed {summary} {}", pairs(outputs))
            }
            Effect::RecordRun { record } => format!(
                "record {} {} {} jobs={} started={:?} finished={:?}",
                record.run_id,
                record.result,
                pairs(&record.summary),
                record.job_ids.join("+"),
                record.started_at,
                record.finished_at
            ),
            Effect::RecordOutputs { run_id, outputs } => format!(
                "outputs {run_id} {}",
                outputs
                    .iter()
                    .map(|o| format!(
                        "{}|{:?}|{}|{}|{}|{}|{}|{}",
                        o.output_id, o.kind, o.output_type, o.path, o.label, o.job_id, o.created_at,
                        pairs(&o.metadata)
                    ))
                    .collect::<Vec<_>>()
                    .join(";")
            ),
        })
        .collect()
}

fn accepted(job_id: Option<&str>, project_id: Option<&str>) -> Reply {
    Reply::Accepted {
        job_id: job_id.map(|x| x.to_string()),
        project_id: project_id.map(|x| x.to_string()),
        verified: true,
    }
}

fn succeeded() -> Reply {
    Reply::JobEnded { state: JobState::Success }
}

fn artifact(kind: ArtifactType, name: &str, path: &str) -> Artifact {
    Artifact {
        kind,
        name: name.to_string(),
        path: path.to_string(),
        size_bytes: 1,
        metadata: vec![KeyValue { key: "module".to_string(), value: "app".to_string() }],
    }
}

#[test]
fn a_run_takes_every_step_in_order() {
    let (mut run, turn) = PipelineRun::start(&full_request(), "run-1", "corr", 100);
    assert_eq!(told(&turn), vec![
        "log stdout pipeline run_id=run-1 correlation_id=corr\n",
        "state Running",
    ]);
    match &turn.call {
        Some(Call::RecordRun { record }) => {
            assert_eq!(record.run_id, "run-1");
            assert_eq!(record.correlation_id, "corr");
            assert_eq!(record.project_id, None);
            assert_eq!(record.target_id, Some("dev".to_string()));
            assert_eq!(record.toolchain_set_id, Some("set".to_string()));
            assert!(record.job_ids.is_empty());
            assert_eq!(record.result, "running");
            assert!(record.summary.is_empty());
            assert_eq!(record.started_at, Some(100));
            assert_eq!(record.finished_at, None);
        }
        other => panic!("{other:?}"),
    }

    let turn = run.advance(Reply::Recorded { problem: None }, 101);
    assert_eq!(told(&turn), vec![
        "progress 12 project.create pipeline_step=project.create,step_index=1,total_steps=8,run_id=run-1,correlation_id=corr,template_id=tmpl,project_path=/work/app",
    ]);
    match turn.call {
        Some(Call::CreateProject { name, path, template_id, toolchain_set_id, correlation_id, run_id }) => {
            assert_eq!(name, "app");
            assert_eq!(path, "/work/app");
            assert_eq!(template_id, "tmpl");
            assert_eq!(toolchain_set_id, Some("set".to_string()));
            assert_eq!(correlation_id, "corr");
            assert_eq!(run_id, "run-1");
        }
        other => panic!("{other:?}"),
    }

    let turn = run.advance(accepted(Some("job-c"), Some("p1")), 102);
    assert!(told(&turn).is_empty());
    assert!(matches!(&turn.call, Some(Call::WaitForJob { job_id }) if job_id == "job-c"));

    let turn = run.advance(Reply::JobEnded { state: JobState::Failed }, 103);
    assert_eq!(told(&turn), vec![
        "progress 25 project.open pipeline_step=project.open,step_index=2,total_steps=8,run_id=run-1,correlation_id=corr,project_path=/work/app",
    ]);
    assert!(matches!(&turn.call, Some(Call::OpenProject { path }) if path == "/work/app"));

    let turn = run.advance(accepted(None, Some("p2")), 104);
    assert_eq!(told(&turn), vec![
        "progress 37 toolchain.verify pipeline_step=toolchain.verify,step_index=3,total_steps=8,run_id=run-1,correlation_id=corr,toolchain_id=tc",
    ]);
    assert!(matches!(&turn.call, Some(Call::VerifyToolchain { toolchain_id, .. }) if toolchain_id == "tc"));

    let turn = run.advance(accepted(Some("job-v"), None), 105);
    assert!(matches!(&turn.call, Some(Call::WaitForJob { job_id }) if job_id == "job-v"));
    let turn = run.advance(succeeded(), 106);
    assert_eq!(told(&turn), vec![
        "progress 50 build.run pipeline_step=build.run,step_index=4,total_steps=8,run_id=run-1,correlation_id=corr,project_ref=p2",
    ]);
    match turn.call {
        Some(Call::Build {
            project_id, variant, clean_first, gradle_args, module, variant_name, tasks, correlation_id, run_id,
        }) => {
            assert_eq!(project_id, "p2");
            assert_eq!(variant, BuildVariant::Debug);
            assert!(!clean_first);
            assert!(gradle_args.is_empty());
            assert_eq!(module, " app ");
            assert_eq!(variant_name, " demo ");
            assert_eq!(tasks, vec!["assemble"]);
            assert_eq!(correlation_id, "corr");
            assert_eq!(run_id, "run-1");
        }
        other => panic!("{other:?}"),
    }

    let turn = run.advance(accepted(Some("job-b"), None), 107);
    assert!(matches!(&turn.call, Some(Call::WaitForJob { job_id }) if job_id == "job-b"));
    let turn = run.advance(succeeded(), 108);
    match turn.call {
        Some(Call::ListArtifacts { project_id, variant, modules, variant_name }) => {
            assert_eq!(project_id, "p2");
            assert_eq!(variant, BuildVariant::Debug);
            assert_eq!(modules, vec!["app"]);
            assert_eq!(variant_name, "demo");
        }
        other => panic!("{other:?}"),
    }

    let turn = run.advance(
        Reply::Artifacts {
            artifacts: vec![
                artifact(ArtifactType::Mapping, "", " /out/m.txt "),
                artifact(ArtifactType::Apk, " a.apk ", "/out/a.apk"),
                artifact(ArtifactType::Aab, "x", "  "),
            ],
        },
        109,
    );
    assert_eq!(told(&turn), vec![
        "outputs run-1 artifact:job-b:/out/m.txt|Artifact|mapping|/out/m.txt|/out/m.txt|job-b|109|module=app,artifact_type=mapping;artifact:job-b:/out/a.apk|Artifact|apk|/out/a.apk|a.apk|job-b|109|module=app,artifact_type=apk,artifact_name= a.apk ",
        "progress 62 targets.install pipeline_step=targets.install,step_index=5,total_steps=8,run_id=run-1,correlation_id=corr,target_id=dev,apk_path=/out/a.apk",
    ]);
    match turn.call {
        Some(Call::InstallApk { target_id, project_id, apk_path, .. }) => {
            assert_eq!(target_id, "dev");
            assert_eq!(project_id, Some("p2".to_string()));
            assert_eq!(apk_path, "/out/a.apk");
        }
        other => panic!("{other:?}"),
    }

    run.advance(accepted(Some("job-i"), None), 110);
    let turn = run.advance(succeeded(), 111);
    assert_eq!(told(&turn), vec![
        "progress 75 targets.launch pipeline_step=targets.launch,step_index=6,total_steps=8,run_id=run-1,correlation_id=corr,target_id=dev,application_id=com.a",
    ]);
    match turn.call {
        Some(Call::Launch { target_id, application_id, activity, .. }) => {
            assert_eq!(target_id, "dev");
            assert_eq!(application_id, "com.a");
            assert_eq!(activity, ".Main");
        }
        other => panic!("{other:?}"),
    }

    run.advance(accepted(Some("job-l"), None), 112);
    let turn = run.advance(succeeded(), 113);
    assert_eq!(told(&turn), vec![
        "progress 87 observe.support_bundle pipeline_step=observe.support_bundle,step_index=7,total_steps=8,run_id=run-1,correlation_id=corr",
    ]);
    match turn.call {
        Some(Call::ExportSupportBundle {
            include_logs, include_config, include_toolchain_provenance, include_recent_runs,
            recent_runs_limit, project_id, target_id, toolchain_set_id, ..
        }) => {
            assert!(include_logs && include_config && include_toolchain_provenance);
            assert!(!include_recent_runs);
            assert_eq!(recent_runs_limit, 10);
            assert_eq!(project_id, Some("p2".to_string()));
            assert_eq!(target_id, Some("dev".to_string()));
            assert_eq!(toolchain_set_id, Some("set".to_string()));
        }
        other => panic!("{other:?}"),
    }

    let turn = run.advance(accepted(None, None), 114);
    assert_eq!(told(&turn), vec![
        "progress 100 observe.evidence_bundle pipeline_step=observe.evidence_bundle,step_index=8,total_steps=8,run_id=run-1,correlation_id=corr",
    ]);
    assert!(matches!(&turn.call, Some(Call::ExportEvidenceBundle { run_id, correlation_id })
        if run_id == "run-1" && correlation_id == "corr"));

    let turn = run.advance(accepted(Some(""), None), 115);
    assert!(told(&turn).is_empty());
    match &turn.call {
        Some(Call::RecordRun { record }) => {
            assert_eq!(record.result, "success");
            assert_eq!(pairs(&record.summary), "pipeline=complete");
            assert_eq!(record.project_id, Some("p2".to_string()));
            assert_eq!(record.job_ids, vec!["job-c", "job-v", "job-b", "job-i", "job-l"]);
            assert_eq!(record.started_at, Some(100));
            assert_eq!(record.finished_at, Some(115));
        }
        other => panic!("{other:?}"),
    }

    let turn = run.advance(Reply::Recorded { problem: Some("down".to_string()) }, 116);
    assert_eq!(told(&turn), vec![
        "log stdout WARN: failed to upsert run completion: down\n",
        "completed Workflow pipeline completed run_id=run-1,correlation_id=corr,project_id=p1,project_id=p2,artifact_path=/out/a.apk",
    ]);
    assert!(turn.call.is_none());
}

#[test]
fn a_run_without_steps_completes_at_once() {
    let (mut run, _) = PipelineRun::start(&request(), "r", "c", 1);
    let turn = run.advance(Reply::Recorded { problem: Some("gone".to_string()) }, 2);
    assert_eq!(told(&turn), vec!["log stdout WARN: failed to upsert run start: gone\n"]);
    assert!(matches!(&turn.call, Some(Call::RecordRun { record }) if record.result == "success"));
    let turn = run.advance(Reply::Recorded { problem: None }, 3);
    assert_eq!(told(&turn), vec!["completed Workflow pipeline completed run_id=r,correlation_id=c"]);
    assert!(turn.call.is_none());
}

fn failing(req: &PipelineRequest, replies: Vec<Reply>) -> Vec<String> {
    let (mut run, _) = PipelineRun::start(req, "r", "c", 1);
    let mut turn = run.advance(Reply::Recorded { problem: None }, 2);
    for reply in replies {
        turn = run.advance(reply, 9);
    }
    assert!(turn.call.is_none());
    told(&turn)
}

#[test]
fn a_step_that_was_asked_for_and_lacks_something_fails_the_run() {
    let req = PipelineRequest {
        options: Some(PipelineOptions { install_apk: true, ..no_steps() }),
        ..request()
    };
    assert_eq!(failing(&req, vec![]), vec![
        "progress 100 targets.install pipeline_step=targets.install,step_index=1,total_steps=1,run_id=r,correlation_id=c,target_id=,apk_path=",
        "failed Internal pipeline failed: targets.install requires target_id and apk_path corr=c remedies=0",
        "record r failed error=pipeline failed,detail=targets.install requires target_id and apk_path jobs= started=Some(1) finished=Some(2)",
        "state Failed",
    ]);
}

#[test]
fn a_step_that_was_inferred_and_lacks_something_is_skipped() {
    let req = PipelineRequest { template_id: Some("t".to_string()), ..request() };
    let (mut run, _) = PipelineRun::start(&req, "r", "c", 1);
    let turn = run.advance(Reply::Recorded { problem: None }, 2);
    assert_eq!(told(&turn), vec![
        "progress 100 project.create pipeline_step=project.create,step_index=1,total_steps=1,run_id=r,correlation_id=c,template_id=t",
        "log stdout WARN: project.create requires template_id and project_path, skipping\n",
    ]);
    assert!(matches!(turn.call, Some(Call::RecordRun { .. })));
}

#[test]
fn an_inferred_run_goes_on_behind_a_step_without_what_the_next_one_needs() {
    let req = PipelineRequest {
        toolchain_id: Some("tc".to_string()),
        application_id: "com.a".to_string(),
        ..request()
    };
    let skipped = vec![
        "progress 100 targets.launch pipeline_step=targets.launch,step_index=2,total_steps=2,run_id=r,correlation_id=c,target_id=,application_id=com.a",
        "log stdout WARN: targets.launch requires target_id and application_id, skipping\n",
    ];
    let (mut run, _) = PipelineRun::start(&req, "r", "c", 1);
    run.advance(Reply::Recorded { problem: None }, 2);
    let turn = run.advance(accepted(None, None), 3);
    assert_eq!(told(&turn), skipped);
    assert!(matches!(turn.call, Some(Call::RecordRun { .. })));

    let (mut run, _) = PipelineRun::start(&req, "r", "c", 1);
    run.advance(Reply::Recorded { problem: None }, 2);
    run.advance(accepted(Some("j"), None), 3);
    let turn = run.advance(succeeded(), 4);
    assert_eq!(told(&turn), skipped);
    assert!(matches!(turn.call, Some(Call::RecordRun { .. })));
}

#[test]
fn a_completed_run_has_reported_every_step_once() {
    let req = full_request();
    let (mut run, turn) = PipelineRun::start(&req, "r", "c", 1);
    let mut lines = told(&turn);
    let mut call = turn.call;
    let mut answers = 0;
    while let Some(waiting) = call {
        let reply = match waiting {
            Call::RecordRun { .. } => Reply::Recorded { problem: None },
            Call::WaitForJob { .. } => succeeded(),
            Call::ListArtifacts { .. } => Reply::Artifacts {
                artifacts: vec![artifact(ArtifactType::Apk, "a", "/a.apk")],
            },
            _ => accepted(Some("j"), Some("p")),
        };
        let turn = run.advance(reply, 2);
        lines.extend(told(&turn));
        call = turn.call;
        answers += 1;
    }
    assert_eq!(answers, 18);
    let reports: Vec<String> = lines
        .iter()
        .filter(|line| line.starts_with("progress "))
        .map(|line| {
            let words: Vec<&str> = line.split(' ').collect();
            let metrics: Vec<&str> = words[3].split(',').collect();
            format!("{} {} {} {}", words[1], words[2], metrics[1], metrics[2])
        })
        .collect();
    assert_eq!(reports, vec![
        "12 project.create step_index=1 total_steps=8",
        "25 project.open step_index=2 total_steps=8",
        "37 toolchain.verify step_index=3 total_steps=8",
        "50 build.run step_index=4 total_steps=8",
        "62 targets.install step_index=5 total_steps=8",
        "75 targets.launch step_index=6 total_steps=8",
        "87 observe.support_bundle step_index=7 total_steps=8",
        "100 observe.evidence_bundle step_index=8 total_steps=8",
    ]);
    assert_eq!(lines.iter().filter(|line| line.starts_with("completed ")).count(), 1);
    assert!(lines[lines.len() - 1].starts_with("completed "));
}

#[test]
fn each_kind_of_failure_ends_the_run() {
    let build = PipelineRequest {
        project_id: Some("p".to_string()),
        options: Some(PipelineOptions { build: true, ..no_steps() }),
        ..request()
    };
    let last = |told: Vec<String>| told[told.len() - 3].clone();
    assert_eq!(
        last(failing(&build, vec![Reply::Unavailable { error: "no".to_string() }])),
        "failed Internal build service unavailable: no corr=c remedies=0"
    );
    assert_eq!(
        last(failing(&build, vec![Reply::Refused { error: "bad".to_string() }])),
        "failed Internal build.run failed: bad corr=c remedies=0"
    );
    assert_eq!(
        last(failing(&build, vec![accepted(None, None)])),
        "failed Internal build.run failed: empty job_id corr=c remedies=0"
    );
    assert_eq!(
        last(failing(&build, vec![accepted(Some("j"), None), Reply::WaitFailed { error: "lost".to_string() }])),
        "failed Internal build.run job failed: lost corr=c remedies=0"
    );
    assert_eq!(
        last(failing(&build, vec![accepted(Some("j"), None), Reply::JobEnded { state: JobState::Cancelled }])),
        "failed Internal build.run failed: build job failed corr=c remedies=0"
    );
    let verify = PipelineRequest { toolchain_id: Some("t".to_string()), ..request() };
    assert_eq!(
        failing(&verify, vec![
            Reply::Accepted { job_id: Some("j".to_string()), project_id: None, verified: false },
            succeeded(),
        ]),
        vec![
            "failed Internal toolchain.verify failed: verification failed corr=c remedies=0",
            "record r failed error=toolchain.verify failed,detail=verification failed jobs=j started=Some(1) finished=Some(9)",
            "state Failed",
        ]
    );
}

#[test]
fn artifacts_that_cannot_be_listed_do_no_harm() {
    let req = PipelineRequest { project_id: Some("p".to_string()), ..request() };
    let (mut run, _) = PipelineRun::start(&req, "r", "c", 1);
    run.advance(Reply::Recorded { problem: None }, 2);
    run.advance(accepted(Some("j"), None), 3);
    run.advance(succeeded(), 4);
    let turn = run.advance(Reply::Refused { error: "no".to_string() }, 5);
    assert!(told(&turn).is_empty());
    assert!(matches!(&turn.call, Some(Call::RecordRun { record }) if record.result == "success"));
}

#[test]
fn a_job_that_does_not_end_keeps_the_next_request_back() {
    let req = PipelineRequest {
        target_id: Some("t".to_string()),
        apk_path: "/a.apk".to_string(),
        application_id: "com.a".to_string(),
        ..request()
    };
    let (mut run, _) = PipelineRun::start(&req, "r", "c", 1);
    let turn = run.advance(Reply::Recorded { problem: None }, 2);
    assert!(matches!(turn.call, Some(Call::InstallApk { .. })));
    let turn = run.advance(accepted(Some("i"), None), 3);
    assert!(matches!(turn.call, Some(Call::WaitForJob { .. })));
    let turn = run.advance(succeeded(), 4);
    assert!(matches!(turn.call, Some(Call::Launch { .. })));
}

#[test]
fn steps_are_inferred_from_what_is_there() {
    let plan = plan_pipeline(&request(), "r", "c", 0);
    assert!(plan.inferred);
    assert_eq!(count_steps(&plan.steps), 1);
    assert_eq!(plan.project_name, "aadk-project");
    let req = PipelineRequest { options: None, ..full_request() };
    let plan = plan_pipeline(&req, "r", "c", 0);
    let wanted: Vec<bool> = (0..STEP_COUNT).map(|k| is_wanted(&plan.steps, Step::from_place(k))).collect();
    assert_eq!(wanted, vec![true, true, true, true, false, true, false, false]);
    assert_eq!(count_steps(&plan.steps), 5);
    let req = PipelineRequest {
        project_id: Some("p".to_string()),
        apk_path: " /a ".to_string(),
        options: None,
        ..full_request()
    };
    let plan = plan_pipeline(&req, "r", "c", 0);
    let wanted: Vec<bool> = (0..STEP_COUNT).map(|k| is_wanted(&plan.steps, Step::from_place(k))).collect();
    assert_eq!(wanted, vec![true, false, true, true, true, true, false, false]);
}

#[test]
fn options_decide_where_given() {
    let plan = plan_pipeline(&full_request(), "r", "c", 7);
    assert!(!plan.inferred);
    assert_eq!(count_steps(&plan.steps), 8);
    assert_eq!(plan.started_at, 7);
    assert_eq!(plan.template_id, "tmpl");
    assert_eq!(plan.application_id, "com.a");
    let req = PipelineRequest { options: Some(no_steps()), ..full_request() };
    let plan = plan_pipeline(&req, "r", "c", 7);
    assert_eq!(count_steps(&plan.steps), 1);
}

#[test]
fn steps_have_places_and_texts() {
    let all = [
        (Step::CreateProject, "project.create", "project service unavailable"),
        (Step::OpenProject, "project.open", "project service unavailable"),
        (Step::VerifyToolchain, "toolchain.verify", "toolchain service unavailable"),
        (Step::Build, "build.run", "build service unavailable"),
        (Step::InstallApk, "targets.install", "targets service unavailable"),
        (Step::LaunchApp, "targets.launch", "targets service unavailable"),
        (Step::SupportBundle, "observe.support_bundle", "observe service unavailable"),
        (Step::EvidenceBundle, "observe.evidence_bundle", "observe service unavailable"),
    ];
    for (place, (step, name, unavailable)) in all.into_iter().enumerate() {
        assert_eq!(step.place(), place);
        assert_eq!(Step::from_place(place), step);
        assert_eq!(step.name(), name);
        assert_eq!(step.unavailable_message(), unavailable);
    }
    assert_eq!(Step::Build.needs_message(), "build.run requires project_id or project_path");
    assert_eq!(Step::LaunchApp.needs_message(), "targets.launch requires target_id and application_id");
    assert_eq!(Step::SupportBundle.job_failed_message(), "support bundle failed");
}

#[test]
fn names_ids_and_variants_are_resolved() {
    assert_eq!(resolve_project_name("/a/b/"), "b");
    assert_eq!(resolve_project_name("/"), "aadk-project");
    assert_eq!(resolve_project_name("/a/  "), "aadk-project");
    assert_eq!(resolve_variant(BuildVariant::Unspecified), BuildVariant::Debug);
    assert_eq!(resolve_variant(BuildVariant::Release), BuildVariant::Release);
    assert_eq!(clean_id_text(&Some("  x ".to_string())), "x");
    assert_eq!(clean_id_text(&None), "");
}

#[test]
fn an_apk_is_preferred() {
    assert_eq!(select_artifact_path(&vec![]), None);
    let all = vec![
        artifact(ArtifactType::Aab, "", "/b"),
        artifact(ArtifactType::Apk, "", "/a"),
        artifact(ArtifactType::Apk, "", "/c"),
    ];
    assert_eq!(select_artifact_path(&all), Some("/a".to_string()));
    assert_eq!(
        select_artifact_path(&vec![artifact(ArtifactType::Aab, "", "/b"), artifact(ArtifactType::Aar, "", "/r")]),
        Some("/b".to_string())
    );
}

#[test]
fn runs_get_an_id() {
    assert_eq!(resolve_run_id(&Some(" r1 ".to_string())), "r1");
    let fresh = resolve_run_id(&None);
    assert!(fresh.starts_with("run-"));
    assert_eq!(fresh.len(), "run-".len() + 36);
    assert!(uuid::Uuid::parse_str(&fresh["run-".len()..]).is_ok());
    let other = resolve_run_id(&Some("  ".to_string()));
    assert_ne!(fresh, other);
    assert_eq!(run_id_with(&None, "f"), "run-f");
    assert_eq!(run_id_with(&Some(" x ".to_string()), "f"), "x");
    assert_eq!(resolve_correlation_id("  ", "r"), "r");
    assert_eq!(resolve_correlation_id(" c ", "r"), "c");
}

#[test]
fn a_job_is_taken_or_started() {
    let req = PipelineRequest { job_id: Some(" j ".to_string()), ..request() };
    assert!(matches!(pipeline_job(&req, "r", "c"), Admission::Existing { job_id } if job_id == "j"));
    let req = PipelineRequest {
        job_id: Some(" ".to_string()),
        project_id: Some(" p ".to_string()),
        toolchain_set_id: Some("".to_string()),
        ..request()
    };
    match pipeline_job(&req, "r", "c") {
        Admission::Start { request } => {
            assert_eq!(request.job_type, "workflow.pipeline");
            assert_eq!(pairs(&request.params), "run_id=r,correlation_id=c,project_id= p ,toolchain_set_id=");
            assert_eq!(request.project_id, Some(" p ".to_string()));
            assert_eq!(request.target_id, None);
            assert_eq!(request.toolchain_set_id, Some(String::new()));
            assert_eq!(request.correlation_id, "c");
            assert_eq!(request.run_id, Some("r".to_string()));
        }
        other => panic!("{other:?}"),
    }
}

#[test]
fn requests_are_answered() {
    let req = PipelineRequest { project_id: Some("p".to_string()), ..request() };
    let response = respond(&req, "r", "c", "j").unwrap();
    assert_eq!(response.run_id, "r");
    assert_eq!(response.job_id, "j");
    assert_eq!(response.project_id, Some("p".to_string()));
    assert_eq!(pairs(&response.outputs), "correlation_id=c");
    let error = respond(&req, "r", "c", "").unwrap_err();
    assert_eq!(error.code, StatusCode::Internal);
    assert_eq!(error.message, "pipeline job_id is empty");
}

#[test]
fn errors_have_codes_and_messages() {
    let e = invalid_endpoint("job", "bad uri");
    assert_eq!((e.code, e.message.as_str()), (StatusCode::Internal, "invalid job endpoint: bad uri"));
    let e = service_unavailable("build", "refused");
    assert_eq!((e.code, e.message.as_str()), (StatusCode::Unavailable, "build service unavailable: refused"));
    let e = publish_error("x");
    assert_eq!((e.code, e.message.as_str()), (StatusCode::Unavailable, "publish job event failed: x"));
    let d = job_error_detail(ErrorCode::Internal, "m", "t", "c");
    assert_eq!(d.message, "m");
    assert_eq!(d.technical_details, "t");
    assert_eq!(d.correlation_id, "c");
    assert!(d.remedies.is_empty());
}

#[test]
fn outputs_of_a_build_are_artifacts() {
    let req = PipelineRequest { project_id: Some("p".to_string()), ..request() };
    let (mut run, _) = PipelineRun::start(&req, "r", "c", 1);
    run.advance(Reply::Recorded { problem: None }, 2);
    run.advance(accepted(Some("j"), None), 3);
    run.advance(succeeded(), 4);
    let turn = run.advance(
        Reply::Artifacts { artifacts: vec![artifact(ArtifactType::Apk, "n", "/a")] },
        5,
    );
    match &turn.effects.items[0] {
        Effect::RecordOutputs { outputs, .. } => {
            assert_eq!(outputs.len(), 1);
            assert_eq!(outputs[0].kind, RunOutputKind::Artifact);
            assert_eq!(outputs[0].created_at, 5);
        }
        other => panic!("{other:?}"),
    }
}
