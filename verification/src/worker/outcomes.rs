//! What the pages are told of how requests ended.

use crate::commands::UiCommand;
use crate::job_events::{error_spelled, job_row, Job, JobError};
use crate::model::{or_else, or_empty, Artifact, KeyValue, ToolchainKind};
use crate::text::{
    blank, bool_spelled, dec_int, dec_nat, lemma_mentions_in_sum, lemma_mentions_itself, mentions,
    trimmed,
};
use crate::worker::builds::{
    artifact_line, artifact_rows, module_headings, module_key, module_keys, value_of,
};
use crate::worker::command::{begun, stepped};
use crate::worker::group::{
    group_lines, grouped, groups_lines, has_group, law_grouped, places_of, GroupView,
};
use crate::worker::jobs::{job_rows, run_headings, run_key, run_keys};
use crate::worker::lists::says;
use crate::worker::phase::PhaseView;
use crate::worker::reply::{InstalledToolchain, Reply};
use crate::worker::state::reloaded_line;
use crate::worker::toolchains::{of_kind, verdict_line};
use crate::worker::turn::logs;
use vstd::prelude::*;

verus! {

/// That a project was given its settings is told with the project, and for defaults with what they
/// are; that it was not is told without.
pub proof fn law_settled_projects_are_told(
    cmd: UiCommand,
    home: Option<Seq<char>>,
    phase: PhaseView,
    ok: bool,
    now: i64,
)
    ensures
        ({
            let turn = stepped(cmd, home, phase, Reply::Applied { ok }, now).turn;
            &&& cmd is ProjectSetConfig && phase is First ==> {
                &&& turn.next is Done && turn.effects.len() == 1
                &&& ok ==> says(
                    turn.effects[0],
                    "projects"@,
                    trimmed(cmd->ProjectSetConfig_project_id@),
                )
                &&& !ok ==> says(turn.effects[0], "projects"@, "ok=false"@)
            }
            &&& cmd is ProjectUseActiveDefaults && phase is UseApply ==> {
                &&& turn.next is Done && turn.effects.len() == 1
                &&& ok ==> says(
                    turn.effects[0],
                    "projects"@,
                    trimmed(cmd->ProjectUseActiveDefaults_project_id@),
                )
                &&& ok ==> says(turn.effects[0], "projects"@, or_empty(phase->UseApply_set_id))
                &&& ok ==> says(turn.effects[0], "projects"@, or_empty(phase->target_id))
                &&& !ok ==> says(turn.effects[0], "projects"@, "ok=false"@)
            }
            &&& cmd is TargetsSetDefault && phase is First ==> {
                &&& turn.next is Done
                &&& turn.effects.len() == if ok {
                    2int
                } else {
                    1
                }
                &&& says(
                    turn.effects[0],
                    "targets"@,
                    trimmed(cmd->TargetsSetDefault_target_id@),
                )
            }
        }),
{
    broadcast use {lemma_mentions_itself, lemma_mentions_in_sum};

    let refused = "Project config update returned ok=false.\n"@;
    reveal_strlit("Project config update returned ok=false.\n");
    reveal_strlit("ok=false");
    assert(refused.subrange(31, 31int + "ok=false"@.len()) =~= "ok=false"@);
    assert(mentions(refused, "ok=false"@));
}

/// How Cuttlefish is, is told with its state, its serial and every detail, in order.
pub proof fn law_cuttlefish_is_told(
    cmd: UiCommand,
    home: Option<Seq<char>>,
    phase: PhaseView,
    state: String,
    adb_serial: String,
    details: Vec<KeyValue>,
    now: i64,
    i: int,
)
    requires
        cmd is TargetsCuttlefishStatus,
        phase is First,
        0 <= i < details@.len(),
    ensures
        ({
            let turn = stepped(
                cmd,
                home,
                phase,
                Reply::Cuttlefish { state, adb_serial, details },
                now,
            ).turn;
            &&& turn.next is Done && turn.effects.len() == details@.len() + 1
            &&& says(turn.effects[0], "targets"@, state@)
            &&& says(turn.effects[0], "targets"@, adb_serial@)
            &&& says(turn.effects[i + 1], "targets"@, details@[i].key@)
            &&& says(turn.effects[i + 1], "targets"@, details@[i].value@)
        }),
{
    broadcast use {lemma_mentions_itself, lemma_mentions_in_sum};

}

/// What a check of a toolchain came to is told with the toolchain, and a failure with its reason; and a
/// success is never told as a failure.
pub proof fn law_verdicts(id: Seq<char>, verified: bool, err: Option<JobError>)
    ensures
        mentions(verdict_line(id, verified, err), id),
        verified ==> mentions(verdict_line(id, verified, err), " verified OK\n"@),
        !verified && err is Some ==> mentions(
            verdict_line(id, verified, err),
            error_spelled(err->0),
        ),
        !verified && err is None ==> mentions(
            verdict_line(id, verified, err),
            " verify failed (no details)\n"@,
        ),
{
    broadcast use {lemma_mentions_itself, lemma_mentions_in_sum};

}

/// What a service said of its state is told with its name, its address, how many items it has, and the
/// detail where there is one.
pub proof fn law_reloaded_services_are_told(
    name: Seq<char>,
    addr: Seq<char>,
    ok: bool,
    item_count: i64,
    detail: Seq<char>,
)
    ensures
        ({
            let line = reloaded_line(name, addr, ok, item_count, detail);
            &&& mentions(line, name)
            &&& mentions(line, addr)
            &&& mentions(line, dec_int(item_count as int))
            &&& !blank(detail) ==> mentions(line, detail)
            &&& ok ==> mentions(line, "true"@)
            &&& !ok ==> mentions(line, "false"@)
        }),
{
    broadcast use {lemma_mentions_itself, lemma_mentions_in_sum};

}

/// A toolchain is of a kind exactly where its provider is; one without a provider is of none.
pub proof fn law_of_kind(t: InstalledToolchain, kind: ToolchainKind)
    ensures
        t.provider matches Some(p) ==> (of_kind(t, kind) <==> p.kind == kind),
        t.provider is None ==> !of_kind(t, kind),
{
}

/// An artifact belongs to the module that its metadata names, or to the root where they name none; and
/// its line tells its name, its path, its size and its module.
pub proof fn law_artifact_lines(a: Artifact)
    ensures
        ({
            let module = value_of(a.metadata@, "module"@);
            &&& module is Some && !blank(module->0) ==> module_key(a) == module->0
            &&& module is None || blank(module->0) ==> module_key(a) == "<root>"@
            &&& mentions(artifact_line(a), a.name@)
            &&& mentions(artifact_line(a), a.path@)
            &&& mentions(artifact_line(a), dec_nat(a.size_bytes as nat))
            &&& mentions(artifact_line(a), or_else(module, "-"@))
            &&& mentions(artifact_line(a), or_else(value_of(a.metadata@, "variant"@), "-"@))
            &&& mentions(artifact_line(a), or_else(value_of(a.metadata@, "task"@), "-"@))
        }),
{
    broadcast use {lemma_mentions_itself, lemma_mentions_in_sum};

    reveal_strlit("");
    assert(blank(""@)) by {
        crate::text::law_blank(""@);
    }
}

/// A job belongs to its run, or where it has none to what ties it to others, or to nothing.
pub proof fn law_run_of_a_job(job: Job)
    ensures
        job.run_id matches Some(id) ==> !blank(id@) ==> run_key(job) == id@,
        (job.run_id is None || blank(job.run_id->0@)) && !blank(job.correlation_id@) ==> trimmed(
            job.correlation_id@,
        ).is_suffix_of(run_key(job)),
        (job.run_id is None || blank(job.run_id->0@)) && blank(job.correlation_id@) ==> run_key(job)
            == "unassigned"@,
{
    let key = run_key(job);
    let corr = trimmed(job.correlation_id@);
    if (job.run_id is None || blank(job.run_id->0@)) && !blank(job.correlation_id@) {
        assert(key.skip(key.len() - corr.len()) =~= corr);
    }
}

proof fn lemma_row_in_group(
    groups: Seq<GroupView>,
    headings: Seq<Seq<char>>,
    rows: Seq<Seq<char>>,
    a: int,
    b: int,
)
    requires
        0 <= a < groups.len(),
        0 <= b < groups[a].members.len(),
    ensures
        groups_lines(groups, headings, rows).contains(rows[groups[a].members[b] as int]),
        groups_lines(groups, headings, rows).contains(headings[a]),
    decreases groups.len(),
{
    let rest = groups.drop_last();
    let n = (groups.len() - 1) as int;
    let before = groups_lines(rest, headings, rows);
    let last = group_lines(headings[n], groups[n].members, rows);
    let all = groups_lines(groups, headings, rows);
    assert(all == before + last);
    if a < n {
        assert(rest[a] == groups[a]);
        lemma_row_in_group(rest, headings, rows, a, b);
        let row = rows[groups[a].members[b] as int];
        let k = choose|k: int| 0 <= k < before.len() && before[k] == row;
        assert(all[k] == row);
        let h = choose|h: int| 0 <= h < before.len() && before[h] == headings[a];
        assert(all[h] == headings[a]);
    } else {
        assert(last[b + 1] == rows[groups[a].members[b] as int]);
        assert(all[before.len() + b + 1] == last[b + 1]);
        assert(last[0] == headings[a]);
        assert(all[before.len() as int] == last[0]);
    }
}

proof fn lemma_place_is_listed(keys: Seq<Seq<char>>, i: int)
    requires
        0 <= i < keys.len() <= usize::MAX,
    ensures
        places_of(keys, keys[i]).contains(i as usize),
    decreases keys.len(),
{
    let rest = keys.drop_last();
    let before = places_of(rest, keys[i]);
    let all = places_of(keys, keys[i]);
    if i < rest.len() {
        assert(rest[i] == keys[i]);
        lemma_place_is_listed(rest, i);
        let k = choose|k: int| 0 <= k < before.len() && before[k] == i as usize;
        assert(all[k] == i as usize);
    } else {
        assert(all[before.len() as int] == i as usize);
    }
}

proof fn lemma_every_row_is_told(
    keys: Seq<Seq<char>>,
    headings: Seq<Seq<char>>,
    rows: Seq<Seq<char>>,
    i: int,
)
    requires
        0 <= i < keys.len() <= usize::MAX,
    ensures
        groups_lines(grouped(keys), headings, rows).contains(rows[i]),
{
    law_grouped(keys);
    let groups = grouped(keys);
    assert(has_group(groups, keys[i]));
    let a = choose|a: int| 0 <= a < groups.len() && (#[trigger] groups[a]).key == keys[i];
    lemma_place_is_listed(keys, i);
    let members = groups[a].members;
    let b = choose|b: int| 0 <= b < members.len() && members[b] == i as usize;
    lemma_row_in_group(groups, headings, rows, a, b);
}

/// Every artifact that was answered is told on its own line of the build page.
pub proof fn law_artifacts_are_told(
    cmd: UiCommand,
    home: Option<Seq<char>>,
    phase: PhaseView,
    artifacts: Vec<Artifact>,
    now: i64,
    i: int,
)
    requires
        cmd is BuildListArtifacts,
        phase is First,
        0 <= i < artifacts@.len(),
        artifacts@.len() <= usize::MAX,
    ensures
        ({
            let turn = stepped(cmd, home, phase, Reply::Artifacts { artifacts }, now).turn;
            &&& turn.next is Done
            &&& exists|k: int|
                0 <= k < turn.effects.len() && says(
                    #[trigger] turn.effects[k],
                    "console"@,
                    artifact_line(artifacts@[i]),
                )
        }),
{
    broadcast use {lemma_mentions_itself, lemma_mentions_in_sum};

    let turn = stepped(cmd, home, phase, Reply::Artifacts { artifacts }, now).turn;
    let keys = module_keys(artifacts@);
    let groups = grouped(keys);
    let rows = artifact_rows(artifacts@);
    lemma_every_row_is_told(keys, module_headings(groups), rows, i);
    let lines = groups_lines(groups, module_headings(groups), rows);
    let k = choose|k: int| 0 <= k < lines.len() && lines[k] == rows[i];
    assert(turn.effects[k + 1] == logs("console"@, lines)[k]);
    assert(says(turn.effects[k + 1], "console"@, artifact_line(artifacts@[i])));
}

/// Every job that was answered is told on its own line, on whatever page asked.
pub proof fn law_jobs_are_told(
    cmd: UiCommand,
    home: Option<Seq<char>>,
    phase: PhaseView,
    jobs: Vec<Job>,
    next_page_token: Option<String>,
    now: i64,
    i: int,
)
    requires
        cmd is JobsList,
        phase is First,
        0 <= i < jobs@.len(),
        jobs@.len() <= usize::MAX,
    ensures
        ({
            let turn = stepped(cmd, home, phase, Reply::Jobs { jobs, next_page_token }, now).turn;
            &&& turn.next is Done
            &&& exists|k: int|
                0 <= k < turn.effects.len() && says(
                    #[trigger] turn.effects[k],
                    cmd->JobsList_page@,
                    job_row(jobs@[i]),
                )
        }),
{
    broadcast use {lemma_mentions_itself, lemma_mentions_in_sum};

    let turn = stepped(cmd, home, phase, Reply::Jobs { jobs, next_page_token }, now).turn;
    let page = cmd->JobsList_page@;
    let keys = run_keys(jobs@);
    let groups = grouped(keys);
    let rows = job_rows(jobs@);
    if page == "jobs"@ {
        assert(turn.effects[i + 1] == logs(page, rows)[i]);
        assert(says(turn.effects[i + 1], page, job_row(jobs@[i])));
    } else {
        lemma_every_row_is_told(keys, run_headings(groups), rows, i);
        let lines = groups_lines(groups, run_headings(groups), rows);
        let k = choose|k: int| 0 <= k < lines.len() && lines[k] == rows[i];
        assert(turn.effects[k + 1] == logs(page, lines)[k]);
        assert(says(turn.effects[k + 1], page, job_row(jobs@[i])));
    }
}

/// The headings name the group, and for jobs how many there are in it.
pub proof fn law_headings(groups: Seq<GroupView>, i: int)
    requires
        0 <= i < groups.len(),
    ensures
        mentions(run_headings(groups)[i], groups[i].key),
        mentions(run_headings(groups)[i], dec_nat(groups[i].members.len())),
        mentions(module_headings(groups)[i], groups[i].key),
        run_headings(groups).len() == groups.len(),
        module_headings(groups).len() == groups.len(),
{
    broadcast use {lemma_mentions_itself, lemma_mentions_in_sum};

}

/// What was saved or restored is told with where it is and how much it was.
pub proof fn law_archives_are_told(
    cmd: UiCommand,
    home: Option<Seq<char>>,
    phase: PhaseView,
    reply: Reply,
    now: i64,
)
    requires
        phase is Archived,
    ensures
        ({
            let turn = stepped(cmd, home, phase, reply, now).turn;
            &&& cmd is StateSave && reply is Archived ==> {
                &&& turn.next is Done && turn.effects.len() >= 2
                &&& says(turn.effects[0], "settings"@, reply->Archived_output_path@)
                &&& says(turn.effects[1], "settings"@, dec_nat(reply->file_count as nat))
                &&& says(turn.effects[1], "settings"@, dec_nat(reply->dir_count as nat))
                &&& says(turn.effects[1], "settings"@, dec_nat(reply->total_bytes as nat))
            }
            &&& cmd is StateOpen && reply is Restored ==> {
                &&& turn.effects.len() >= 3
                &&& says(turn.effects[1], "settings"@, dec_nat(reply->restored_files as nat))
                &&& says(turn.effects[1], "settings"@, dec_nat(reply->restored_dirs as nat))
                &&& turn.effects.len() == 3 <==> reply->preserved_dirs@.len() == 0
            }
        }),
{
    broadcast use {lemma_mentions_itself, lemma_mentions_in_sum};

}

/// That the cache is cleaned up is told with what was asked for: whether anything is removed, and
/// whether all is.
pub proof fn law_cleanup_is_told(
    cmd: UiCommand,
    home: Option<Seq<char>>,
    current: Option<Seq<char>>,
    now: i64,
)
    requires
        cmd is ToolchainCleanupCache,
    ensures
        ({
            let told = begun(cmd, home, current, now).turn.effects;
            &&& told.len() == 1
            &&& says(told[0], "toolchains"@, cmd->ToolchainCleanupCache_cfg.toolchain_addr@)
            &&& says(
                told[0],
                "toolchains"@,
                " (dry_run="@ + bool_spelled(cmd->ToolchainCleanupCache_dry_run) + ", remove_all="@
                    + bool_spelled(cmd->ToolchainCleanupCache_remove_all) + ")\n"@,
            )
        }),
{
    broadcast use {lemma_mentions_itself, lemma_mentions_in_sum};

    let told = begun(cmd, home, current, now).turn.effects;
    let head = "Cleaning cache via "@ + cmd->ToolchainCleanupCache_cfg.toolchain_addr@;
    let tail = " (dry_run="@ + bool_spelled(cmd->ToolchainCleanupCache_dry_run) + ", remove_all="@
        + bool_spelled(cmd->ToolchainCleanupCache_remove_all) + ")\n"@;
    assert(told[0]->event->line =~= head + tail);
    assert(mentions(head + tail, tail));
    assert(mentions(head + tail, head));
}

} // verus!
