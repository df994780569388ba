use vstd::prelude::*;

use crate::args::ArgsView;
use crate::base::base_setup_plan;
use crate::base_gui::{backgrounds_plan, base_gui_setup_plan, DEFAULT_BACKGROUND_PATH};
use crate::contest_software::{
    browser_plan, compilers_plan, debuggers_plan, editors_plan, CA_CERTIFICATES_DIR,
};
use crate::lockdown::lockdown_plan;
use crate::plan::{image_plan, stages_after_backgrounds, stages_before_backgrounds};
use crate::pre::pre_install_plan;
use crate::users::{additional_user_files_plan, setup_users_plan, USER_FILES_DIR};
use crate::util::{
    copies_into, ensure_paru_plan, post_dir, pre_dir, under_root, StepModel, ISO_ROOT, PATH_SEP,
    POST_INSTALL_DIR, PRE_INSTALL_DIR,
};

verus! {

/// The path that a step creates or writes.
pub open spec fn step_target(s: StepModel) -> Seq<char> {
    match s {
        StepModel::CreateDir { path } => path,
        StepModel::CopyFile { from, to } => to,
        StepModel::CopyInto { from, dir } => dir,
        StepModel::WriteScript { dir, name, text } => dir,
    }
}

/// `path` lies below the root of the profile tree.
pub open spec fn inside_profile(path: Seq<char>) -> bool {
    (ISO_ROOT@ + PATH_SEP@).is_prefix_of(path)
}

/// Every step of `steps` creates or writes below the root of the profile tree.
pub open spec fn all_inside_profile(steps: Seq<StepModel>) -> bool {
    forall|i: int| 0 <= i < steps.len() ==> inside_profile(#[trigger] step_target(steps[i]))
}

proof fn lemma_under_root_inside(rel: Seq<char>)
    ensures
        inside_profile(under_root(rel)),
{
    let p = ISO_ROOT@ + PATH_SEP@;
    assert(under_root(rel).subrange(0, p.len() as int) =~= p);
}

proof fn lemma_concat_inside(x: Seq<StepModel>, y: Seq<StepModel>)
    requires
        all_inside_profile(x),
        all_inside_profile(y),
    ensures
        all_inside_profile(x + y),
{
    assert forall|i: int| 0 <= i < (x + y).len() implies inside_profile(
        #[trigger] step_target((x + y)[i]),
    ) by {
        if i < x.len() {
            assert((x + y)[i] == x[i]);
        } else {
            assert((x + y)[i] == y[i - x.len()]);
        }
    }
}

proof fn lemma_copies_inside(files: Seq<Seq<char>>, rel: Seq<char>)
    ensures
        all_inside_profile(copies_into(files, under_root(rel))),
{
    lemma_under_root_inside(rel);
}

proof fn lemma_stages_inside(a: ArgsView)
    ensures
        all_inside_profile(stages_before_backgrounds(a)),
        all_inside_profile(stages_after_backgrounds(a)),
        backgrounds_plan(a) is Ok ==> all_inside_profile(backgrounds_plan(a)->Ok_0),
{
    lemma_under_root_inside(PRE_INSTALL_DIR@);
    lemma_under_root_inside(POST_INSTALL_DIR@);
    lemma_under_root_inside(USER_FILES_DIR@);
    lemma_under_root_inside(CA_CERTIFICATES_DIR@);
    lemma_under_root_inside(DEFAULT_BACKGROUND_PATH@);
    lemma_copies_inside(a.additional_user_files, USER_FILES_DIR@);
    lemma_copies_inside(a.ca_certificate, CA_CERTIFICATES_DIR@);
    let user_files = additional_user_files_plan(a);
    assert(all_inside_profile(pre_install_plan(a)));
    assert(all_inside_profile(setup_users_plan(a)));
    assert(all_inside_profile(user_files)) by {
        let head = seq![StepModel::CreateDir { path: under_root(USER_FILES_DIR@) }];
        let copies = copies_into(a.additional_user_files, under_root(USER_FILES_DIR@));
        assert(all_inside_profile(head));
        lemma_concat_inside(head, copies);
        let tail = user_files.subrange((head + copies).len() as int, user_files.len() as int);
        assert(all_inside_profile(tail));
        assert(user_files =~= head + copies + tail);
        lemma_concat_inside(head + copies, tail);
    }
    assert(all_inside_profile(base_setup_plan(a)));
    assert(all_inside_profile(base_gui_setup_plan(a)));
    lemma_concat_inside(pre_install_plan(a), setup_users_plan(a));
    lemma_concat_inside(pre_install_plan(a) + setup_users_plan(a), user_files);
    lemma_concat_inside(pre_install_plan(a) + setup_users_plan(a) + user_files, base_setup_plan(a));
    lemma_concat_inside(
        pre_install_plan(a) + setup_users_plan(a) + user_files + base_setup_plan(a),
        base_gui_setup_plan(a),
    );
    let browser = browser_plan(a);
    assert(all_inside_profile(browser)) by {
        let head = browser.subrange(0, 1);
        assert(all_inside_profile(head));
        if a.ca_certificate.len() != 0 {
            let mid = seq![StepModel::CreateDir { path: under_root(CA_CERTIFICATES_DIR@) }];
            let copies = copies_into(a.ca_certificate, under_root(CA_CERTIFICATES_DIR@));
            let tail = browser.subrange(browser.len() - 1, browser.len() as int);
            assert(all_inside_profile(mid));
            assert(all_inside_profile(tail));
            lemma_concat_inside(head, mid);
            lemma_concat_inside(head + mid, copies);
            lemma_concat_inside(head + mid + copies, tail);
            assert(browser =~= head + mid + copies + tail);
        } else {
            assert(browser =~= head);
        }
    }
    assert(all_inside_profile(compilers_plan()));
    assert(all_inside_profile(debuggers_plan()));
    assert(all_inside_profile(editors_plan(a))) by {
        assert(all_inside_profile(ensure_paru_plan()));
    }
    assert(all_inside_profile(lockdown_plan(a)));
    lemma_concat_inside(browser, compilers_plan());
    lemma_concat_inside(browser + compilers_plan(), debuggers_plan());
    lemma_concat_inside(browser + compilers_plan() + debuggers_plan(), editors_plan(a));
    lemma_concat_inside(
        browser + compilers_plan() + debuggers_plan() + editors_plan(a),
        lockdown_plan(a),
    );
}

/// Preparing the image creates and writes files only inside the profile tree: every
/// directory it creates, every copy it makes and every script it writes lies below
/// `archiso-profile/airootfs/`.
pub proof fn law_writes_stay_inside_profile(a: ArgsView)
    ensures
        all_inside_profile(image_plan(a).0),
{
    lemma_stages_inside(a);
    match backgrounds_plan(a) {
        Ok(bg) => {
            lemma_concat_inside(stages_before_backgrounds(a), bg);
            lemma_concat_inside(stages_before_backgrounds(a) + bg, stages_after_backgrounds(a));
        },
        Err(e) => {},
    }
}

/// The step writes a script to be run before the system is installed.
pub open spec fn is_pre_install_script(s: StepModel) -> bool {
    match s {
        StepModel::WriteScript { dir, name, text } => dir == pre_dir(),
        _ => false,
    }
}

/// No step of `steps` writes a script to be run before the system is installed.
pub open spec fn no_pre_install_script(steps: Seq<StepModel>) -> bool {
    forall|i: int| 0 <= i < steps.len() ==> !is_pre_install_script(#[trigger] steps[i])
}

/// Every step of `steps` writes a script to be run before the system is installed.
pub open spec fn only_pre_install_scripts(steps: Seq<StepModel>) -> bool {
    forall|i: int| 0 <= i < steps.len() ==> is_pre_install_script(#[trigger] steps[i])
}

proof fn lemma_script_dirs_differ()
    ensures
        pre_dir() != post_dir(),
{
    reveal_strlit("pre_install");
    reveal_strlit("install/scripts");
    assert(pre_dir().len() != post_dir().len());
}

proof fn lemma_concat_no_pre(x: Seq<StepModel>, y: Seq<StepModel>)
    requires
        no_pre_install_script(x),
        no_pre_install_script(y),
    ensures
        no_pre_install_script(x + y),
{
    assert forall|i: int| 0 <= i < (x + y).len() implies !is_pre_install_script(#[trigger] (x + y)[i]) by {
        if i < x.len() {
            assert((x + y)[i] == x[i]);
        } else {
            assert((x + y)[i] == y[i - x.len()]);
        }
    }
}

proof fn lemma_later_stages_no_pre(a: ArgsView)
    ensures
        no_pre_install_script(setup_users_plan(a) + additional_user_files_plan(a) + base_setup_plan(a)
            + base_gui_setup_plan(a)),
        no_pre_install_script(stages_after_backgrounds(a)),
        backgrounds_plan(a) is Ok ==> no_pre_install_script(backgrounds_plan(a)->Ok_0),
{
    lemma_script_dirs_differ();
    let user_files = additional_user_files_plan(a);
    assert(no_pre_install_script(user_files)) by {
        let head = seq![StepModel::CreateDir { path: under_root(USER_FILES_DIR@) }];
        let copies = copies_into(a.additional_user_files, under_root(USER_FILES_DIR@));
        lemma_concat_no_pre(head, copies);
        let tail = user_files.subrange((head + copies).len() as int, user_files.len() as int);
        assert(no_pre_install_script(tail));
        assert(user_files =~= head + copies + tail);
        lemma_concat_no_pre(head + copies, tail);
    }
    assert(no_pre_install_script(setup_users_plan(a)));
    assert(no_pre_install_script(base_setup_plan(a)));
    assert(no_pre_install_script(base_gui_setup_plan(a)));
    lemma_concat_no_pre(setup_users_plan(a), user_files);
    lemma_concat_no_pre(setup_users_plan(a) + user_files, base_setup_plan(a));
    lemma_concat_no_pre(setup_users_plan(a) + user_files + base_setup_plan(a), base_gui_setup_plan(a));
    let browser = browser_plan(a);
    assert(no_pre_install_script(browser)) by {
        let head = browser.subrange(0, 1);
        assert(no_pre_install_script(head));
        if a.ca_certificate.len() != 0 {
            let mid = seq![StepModel::CreateDir { path: under_root(CA_CERTIFICATES_DIR@) }];
            let copies = copies_into(a.ca_certificate, under_root(CA_CERTIFICATES_DIR@));
            let tail = browser.subrange(browser.len() - 1, browser.len() as int);
            assert(no_pre_install_script(tail));
            lemma_concat_no_pre(head, mid);
            lemma_concat_no_pre(head + mid, copies);
            lemma_concat_no_pre(head + mid + copies, tail);
            assert(browser =~= head + mid + copies + tail);
        } else {
            assert(browser =~= head);
        }
    }
    assert(no_pre_install_script(compilers_plan()));
    assert(no_pre_install_script(debuggers_plan()));
    assert(no_pre_install_script(editors_plan(a)));
    assert(no_pre_install_script(lockdown_plan(a)));
    lemma_concat_no_pre(browser, compilers_plan());
    lemma_concat_no_pre(browser + compilers_plan(), debuggers_plan());
    lemma_concat_no_pre(browser + compilers_plan() + debuggers_plan(), editors_plan(a));
    lemma_concat_no_pre(
        browser + compilers_plan() + debuggers_plan() + editors_plan(a),
        lockdown_plan(a),
    );
}

proof fn lemma_pre_stage_only_pre(a: ArgsView)
    ensures
        only_pre_install_scripts(pre_install_plan(a)),
{
}

proof fn lemma_split_pre(pre: Seq<StepModel>, rest: Seq<StepModel>)
    requires
        only_pre_install_scripts(pre),
        no_pre_install_script(rest),
    ensures
        forall|i: int|
            0 <= i < (pre + rest).len() ==> (is_pre_install_script(#[trigger] (pre + rest)[i])
                <==> i < pre.len()),
{
    assert forall|i: int| 0 <= i < (pre + rest).len() implies (is_pre_install_script(
        #[trigger] (pre + rest)[i],
    ) <==> i < pre.len()) by {
        if i < pre.len() {
            assert((pre + rest)[i] == pre[i]);
        } else {
            assert((pre + rest)[i] == rest[i - pre.len()]);
        }
    }
}

/// The scripts run before the system is installed are exactly those of the pre-install
/// stage, and they come first: a step of the image plan writes such a script if and only if
/// it stands among the steps of that stage, at the start.
pub proof fn law_pre_install_scripts_first(a: ArgsView)
    ensures
        forall|i: int|
            0 <= i < image_plan(a).0.len() ==> (is_pre_install_script(#[trigger] image_plan(a).0[i])
                <==> i < pre_install_plan(a).len()),
{
    lemma_later_stages_no_pre(a);
    lemma_pre_stage_only_pre(a);
    let pre = pre_install_plan(a);
    let rest_before = setup_users_plan(a) + additional_user_files_plan(a) + base_setup_plan(a)
        + base_gui_setup_plan(a);
    match backgrounds_plan(a) {
        Ok(bg) => {
            let rest = rest_before + bg + stages_after_backgrounds(a);
            lemma_concat_no_pre(rest_before, bg);
            lemma_concat_no_pre(rest_before + bg, stages_after_backgrounds(a));
            assert(image_plan(a).0 =~= pre + rest);
            lemma_split_pre(pre, rest);
        },
        Err(e) => {
            assert(image_plan(a).0 =~= pre + rest_before);
            lemma_split_pre(pre, rest_before);
        },
    }
}

} // verus!
