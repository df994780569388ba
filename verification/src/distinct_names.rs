use vstd::prelude::*;

use crate::args::ArgsView;
use crate::base::{
    base_setup_plan, PIXIE_PING_SCRIPT, WAIT_ONLINE_UNIT_SCRIPT, HOSTS_SCRIPT,
    NODE_EXPORTER_SCRIPT, TIME_SCRIPT, LOCALE_SCRIPT, MISC_SCRIPT, MKINITCPIO_SCRIPT, GRUB_SCRIPT,
    NETWORKD_SCRIPT, TIMESYNCD_SCRIPT, RESOLVED_SCRIPT, CLEAN_CACHE_SCRIPT,
};
use crate::base_gui::{
    backgrounds_plan, base_gui_setup_plan, BACKGROUNDS_SCRIPT, LID_SCRIPT, GNOME_SCRIPT,
    DISABLE_KEYRING_SCRIPT, XORG_SCRIPT, VIRTUALBOX_SCRIPT, DESKTOP_FILES_SCRIPT,
};
use crate::contest_software::{
    browser_plan, compilers_plan, debuggers_plan, editors_plan, CA_CERTIFICATES_DIR,
    COMPILERS_SCRIPT, DEBUGGERS_SCRIPT, BROWSER_SCRIPT, CA_CERTIFICATES_SCRIPT, EDITORS_SCRIPT,
    PYCHARM_SCRIPT, CODEBLOCKS_SCRIPT, VSCODE_SCRIPT, ECLIPSE_SCRIPT,
};
use crate::lockdown::{lockdown_plan, LOCKDOWN_SCRIPT};
use crate::pre::{
    pre_install_plan, WAIT_SCRIPT, PARTITIONS_SCRIPT, FS_SCRIPT, WAIT_ONLINE_SCRIPT,
    FIX_MIRRORS_SCRIPT, MIRRORS_SCRIPT, INSTALL_BASE_SCRIPT, CONFIGURE_INNER_SCRIPT,
};
use crate::users::{
    additional_user_files_plan, setup_users_plan, USER_FILES_DIR, ADDITIONAL_USER_FILES_SCRIPT,
    SSHD_SCRIPT, CONTESTANT_SCRIPT, ORGA_SCRIPT,
};
use crate::util::{
    copies_into, under_root, StepModel, PARU_SCRIPT,
};
use crate::plan::{image_plan, stages_after_backgrounds, stages_before_backgrounds};

verus! {

/// The step writes a script.
pub open spec fn is_script(s: StepModel) -> bool {
    s is WriteScript
}

/// The file name of the script that the step writes.
pub open spec fn script_name(s: StepModel) -> Seq<char> {
    match s {
        StepModel::WriteScript { dir, name, text } => name,
        _ => Seq::empty(),
    }
}

/// The names of the scripts written by `steps`, in order.
pub open spec fn script_names(steps: Seq<StepModel>) -> Seq<Seq<char>>
    decreases steps.len(),
{
    if steps.len() == 0 {
        Seq::empty()
    } else if is_script(steps.last()) {
        script_names(steps.drop_last()).push(script_name(steps.last()))
    } else {
        script_names(steps.drop_last())
    }
}

proof fn lemma_names_concat(x: Seq<StepModel>, y: Seq<StepModel>)
    ensures
        script_names(x + y) == script_names(x) + script_names(y),
    decreases y.len(),
{
    if y.len() == 0 {
        assert(x + y =~= x);
        assert(script_names(x) + script_names(y) =~= script_names(x));
    } else {
        assert((x + y).drop_last() =~= x + y.drop_last());
        assert((x + y).last() == y.last());
        lemma_names_concat(x, y.drop_last());
        if is_script(y.last()) {
            assert(script_names(x) + script_names(y) =~= (script_names(x) + script_names(
                y.drop_last(),
            )).push(script_name(y.last())));
        }
    }
}

proof fn lemma_names_all_scripts(steps: Seq<StepModel>)
    requires
        forall|i: int| 0 <= i < steps.len() ==> is_script(#[trigger] steps[i]),
    ensures
        script_names(steps) =~= steps.map_values(|s: StepModel| script_name(s)),
    decreases steps.len(),
{
    if steps.len() != 0 {
        lemma_names_all_scripts(steps.drop_last());
    }
}

proof fn lemma_names_no_scripts(steps: Seq<StepModel>)
    requires
        forall|i: int| 0 <= i < steps.len() ==> !is_script(#[trigger] steps[i]),
    ensures
        script_names(steps) =~= Seq::<Seq<char>>::empty(),
    decreases steps.len(),
{
    if steps.len() != 0 {
        lemma_names_no_scripts(steps.drop_last());
    }
}

/// A few characters of a name, enough to tell the names of the scripts apart.
spec fn name_key(n: Seq<char>) -> (nat, char, char, char) {
    (n.len(), n[1], n[3], n[4])
}

/// The place of a script name in the order in which the stages write the scripts.
spec fn name_rank(n: Seq<char>) -> int {
    let k = name_key(n);
    if k == (7nat, '0', 'w', 'a') {
        0
    } else if k == (13nat, '0', 'p', 'a') {
        1
    } else if k == (5nat, '0', 'f', 's') {
        2
    } else if k == (14nat, '5', 'w', 'a') {
        3
    } else if k == (14nat, '0', 'f', 'i') {
        4
    } else if k == (10nat, '0', 'm', 'i') {
        5
    } else if k == (15nat, '0', 'i', 'n') {
        6
    } else if k == (18nat, '0', 'c', 'o') {
        7
    } else if k == (7nat, '0', 's', 's') {
        8
    } else if k == (13nat, '0', 'c', 'o') {
        9
    } else if k == (7nat, '0', 'o', 'r') {
        10
    } else if k == (24nat, '1', 'a', 'd') {
        11
    } else if k == (13nat, '0', 'p', 'i') {
        12
    } else if k == (19nat, '0', 'w', 'a') {
        13
    } else if k == (8nat, '0', 'h', 'o') {
        14
    } else if k == (16nat, '0', 'n', 'o') {
        15
    } else if k == (7nat, '0', 't', 'i') {
        16
    } else if k == (9nat, '0', 'l', 'o') {
        17
    } else if k == (7nat, '0', 'm', 'i') {
        18
    } else if k == (13nat, '7', 'm', 'k') {
        19
    } else if k == (7nat, '8', 'g', 'r') {
        20
    } else if k == (11nat, '9', 'n', 'e') {
        21
    } else if k == (12nat, '9', 't', 'i') {
        22
    } else if k == (11nat, '9', 'r', 'e') {
        23
    } else if k == (14nat, '9', 'c', 'l') {
        24
    } else if k == (6nat, '4', 'l', 'i') {
        25
    } else if k == (8nat, '5', 'g', 'n') {
        26
    } else if k == (18nat, '7', 'd', 'i') {
        27
    } else if k == (7nat, '5', 'x', 'o') {
        28
    } else if k == (13nat, '5', 'v', 'i') {
        29
    } else if k == (16nat, '9', 'd', 'e') {
        30
    } else if k == (14nat, '6', 'b', 'a') {
        31
    } else if k == (10nat, '6', 'b', 'r') {
        32
    } else if k == (18nat, '7', 'c', 'a') {
        33
    } else if k == (12nat, '6', 'c', 'o') {
        34
    } else if k == (12nat, '6', 'd', 'e') {
        35
    } else if k == (7nat, '0', 'p', 'a') {
        36
    } else if k == (10nat, '6', 'e', 'd') {
        37
    } else if k == (10nat, '6', 'p', 'y') {
        38
    } else if k == (13nat, '6', 'c', 'o') {
        39
    } else if k == (9nat, '6', 'v', 's') {
        40
    } else if k == (10nat, '6', 'e', 'c') {
        41
    } else if k == (11nat, '0', 'l', 'o') {
        42
    } else {
        -1
    }
}

/// The ranks of the entries of `x` grow strictly from each entry to the next, and all lie
/// in `[lo, hi)`.
spec fn ranked(x: Seq<Seq<char>>, lo: int, hi: int) -> bool {
    &&& forall|i: int, j: int|
        0 <= i < j < x.len() ==> #[trigger] name_rank(x[i]) < #[trigger] name_rank(x[j])
    &&& forall|i: int| 0 <= i < x.len() ==> lo <= #[trigger] name_rank(x[i]) && name_rank(x[i]) < hi
}

proof fn lemma_ranked_concat(x: Seq<Seq<char>>, y: Seq<Seq<char>>, lo: int, mid: int, hi: int)
    requires
        lo <= mid <= hi,
        ranked(x, lo, mid),
        ranked(y, mid, hi),
    ensures
        ranked(x + y, lo, hi),
{
    assert forall|i: int, j: int| 0 <= i < j < (x + y).len() implies #[trigger] name_rank(
        (x + y)[i],
    ) < #[trigger] name_rank((x + y)[j]) by {
        if j < x.len() {
            assert(name_rank(x[i]) < name_rank(x[j]));
        } else if i >= x.len() {
            assert(name_rank(y[i - x.len()]) < name_rank(y[j - x.len()]));
        } else {
            assert((x + y)[i] == x[i]);
            assert((x + y)[j] == y[j - x.len()]);
            assert(name_rank(x[i]) < mid);
            assert(mid <= name_rank(y[j - x.len()]));
        }
    }
    assert forall|i: int| 0 <= i < (x + y).len() implies lo <= #[trigger] name_rank((x + y)[i])
        && name_rank((x + y)[i]) < hi by {
        if i < x.len() {
            assert((x + y)[i] == x[i]);
            assert(lo <= name_rank(x[i]) && name_rank(x[i]) < mid);
        } else {
            assert((x + y)[i] == y[i - x.len()]);
            assert(mid <= name_rank(y[i - x.len()]) && name_rank(y[i - x.len()]) < hi);
        }
    }
}

proof fn lemma_ranked_no_dup(x: Seq<Seq<char>>, lo: int, hi: int)
    requires
        ranked(x, lo, hi),
    ensures
        x.no_duplicates(),
{
    assert forall|i: int, j: int| 0 <= i < x.len() && 0 <= j < x.len() && i != j implies x[i]
        != x[j] by {
        if i < j {
            assert(name_rank(x[i]) < name_rank(x[j]));
        } else {
            assert(name_rank(x[j]) < name_rank(x[i]));
        }
    }
}


/// The names of the scripts of the pre stage, in order.
spec fn pre_names(a: ArgsView) -> Seq<Seq<char>> {
    (if !a.nowait {
        seq![WAIT_SCRIPT@]
    } else {
        Seq::empty()
    }) + seq![PARTITIONS_SCRIPT@, FS_SCRIPT@, WAIT_ONLINE_SCRIPT@] + (if a.pin_packages is Some {
        seq![FIX_MIRRORS_SCRIPT@]
    } else {
        seq![MIRRORS_SCRIPT@]
    }) + seq![INSTALL_BASE_SCRIPT@, CONFIGURE_INNER_SCRIPT@]
}

/// The names of the scripts of the users stage, in order.
spec fn users_names(a: ArgsView) -> Seq<Seq<char>> {
    seq![SSHD_SCRIPT@, CONTESTANT_SCRIPT@, ORGA_SCRIPT@]
}

/// The names of the scripts of the user files stage, in order.
spec fn user_files_names(a: ArgsView) -> Seq<Seq<char>> {
    (if a.additional_user_files.len() != 0 {
        seq![ADDITIONAL_USER_FILES_SCRIPT@]
    } else {
        Seq::empty()
    })
}

/// The names of the scripts of the base stage, in order.
spec fn base_names(a: ArgsView) -> Seq<Seq<char>> {
    (if a.pixie {
        seq![PIXIE_PING_SCRIPT@]
    } else {
        Seq::empty()
    }) + seq![WAIT_ONLINE_UNIT_SCRIPT@, HOSTS_SCRIPT@] + (if a.node_exporter {
        seq![NODE_EXPORTER_SCRIPT@]
    } else {
        Seq::empty()
    }) + seq![TIME_SCRIPT@, LOCALE_SCRIPT@, MISC_SCRIPT@, MKINITCPIO_SCRIPT@, GRUB_SCRIPT@, NETWORKD_SCRIPT@, TIMESYNCD_SCRIPT@, RESOLVED_SCRIPT@, CLEAN_CACHE_SCRIPT@]
}

/// The names of the scripts of the gui stage, in order.
spec fn gui_names(a: ArgsView) -> Seq<Seq<char>> {
    seq![LID_SCRIPT@, GNOME_SCRIPT@, DISABLE_KEYRING_SCRIPT@] + (if a.disable_wayland {
        seq![XORG_SCRIPT@]
    } else {
        Seq::empty()
    }) + (if a.virtualbox {
        seq![VIRTUALBOX_SCRIPT@]
    } else {
        Seq::empty()
    }) + seq![DESKTOP_FILES_SCRIPT@]
}

/// The names of the scripts of the backgrounds stage, in order.
spec fn backgrounds_names(a: ArgsView) -> Seq<Seq<char>> {
    (if a.backgrounds {
        seq![BACKGROUNDS_SCRIPT@]
    } else {
        Seq::empty()
    })
}

/// The names of the scripts of the browser stage, in order.
spec fn browser_names(a: ArgsView) -> Seq<Seq<char>> {
    seq![BROWSER_SCRIPT@] + (if a.ca_certificate.len() != 0 {
        seq![CA_CERTIFICATES_SCRIPT@]
    } else {
        Seq::empty()
    })
}

/// The names of the scripts of the compilers stage, in order.
spec fn compilers_names(a: ArgsView) -> Seq<Seq<char>> {
    seq![COMPILERS_SCRIPT@]
}

/// The names of the scripts of the debuggers stage, in order.
spec fn debuggers_names(a: ArgsView) -> Seq<Seq<char>> {
    seq![DEBUGGERS_SCRIPT@]
}

/// The names of the scripts of the editors stage, in order.
spec fn editors_names(a: ArgsView) -> Seq<Seq<char>> {
    seq![PARU_SCRIPT@, EDITORS_SCRIPT@] + (if a.pycharm {
        seq![PYCHARM_SCRIPT@]
    } else {
        Seq::empty()
    }) + (if a.codeblocks {
        seq![CODEBLOCKS_SCRIPT@]
    } else {
        Seq::empty()
    }) + seq![VSCODE_SCRIPT@, ECLIPSE_SCRIPT@]
}

/// The names of the scripts of the lockdown stage, in order.
spec fn lockdown_names(a: ArgsView) -> Seq<Seq<char>> {
    (if !a.no_lockdown {
        seq![LOCKDOWN_SCRIPT@]
    } else {
        Seq::empty()
    })
}

proof fn lemma_pre_names(a: ArgsView)
    ensures
        script_names(pre_install_plan(a)) == pre_names(a),
{
    lemma_names_all_scripts(pre_install_plan(a));
    assert(pre_install_plan(a).map_values(|s: StepModel| script_name(s)) =~= pre_names(a));
}

proof fn lemma_users_names(a: ArgsView)
    ensures
        script_names(setup_users_plan(a)) == users_names(a),
{
    lemma_names_all_scripts(setup_users_plan(a));
    assert(setup_users_plan(a).map_values(|s: StepModel| script_name(s)) =~= users_names(a));
}

proof fn lemma_base_names(a: ArgsView)
    ensures
        script_names(base_setup_plan(a)) == base_names(a),
{
    lemma_names_all_scripts(base_setup_plan(a));
    assert(base_setup_plan(a).map_values(|s: StepModel| script_name(s)) =~= base_names(a));
}

proof fn lemma_gui_names(a: ArgsView)
    ensures
        script_names(base_gui_setup_plan(a)) == gui_names(a),
{
    lemma_names_all_scripts(base_gui_setup_plan(a));
    assert(base_gui_setup_plan(a).map_values(|s: StepModel| script_name(s)) =~= gui_names(a));
}

proof fn lemma_compilers_names(a: ArgsView)
    ensures
        script_names(compilers_plan()) == compilers_names(a),
{
    lemma_names_all_scripts(compilers_plan());
    assert(compilers_plan().map_values(|s: StepModel| script_name(s)) =~= compilers_names(a));
}

proof fn lemma_debuggers_names(a: ArgsView)
    ensures
        script_names(debuggers_plan()) == debuggers_names(a),
{
    lemma_names_all_scripts(debuggers_plan());
    assert(debuggers_plan().map_values(|s: StepModel| script_name(s)) =~= debuggers_names(a));
}

proof fn lemma_editors_names(a: ArgsView)
    ensures
        script_names(editors_plan(a)) == editors_names(a),
{
    lemma_names_all_scripts(editors_plan(a));
    assert(editors_plan(a).map_values(|s: StepModel| script_name(s)) =~= editors_names(a));
}

proof fn lemma_lockdown_names(a: ArgsView)
    ensures
        script_names(lockdown_plan(a)) == lockdown_names(a),
{
    lemma_names_all_scripts(lockdown_plan(a));
    assert(lockdown_plan(a).map_values(|s: StepModel| script_name(s)) =~= lockdown_names(a));
}

proof fn lemma_user_files_names(a: ArgsView)
    ensures
        script_names(additional_user_files_plan(a)) == user_files_names(a),
{
    let user_files = additional_user_files_plan(a);
    let head = seq![StepModel::CreateDir { path: under_root(USER_FILES_DIR@) }] + copies_into(
        a.additional_user_files,
        under_root(USER_FILES_DIR@),
    );
    let tail = user_files.subrange(head.len() as int, user_files.len() as int);
    assert(user_files =~= head + tail);
    lemma_names_no_scripts(head);
    lemma_names_all_scripts(tail);
    lemma_names_concat(head, tail);
    assert(script_names(user_files) =~= user_files_names(a));
}

proof fn lemma_browser_names(a: ArgsView)
    ensures
        script_names(browser_plan(a)) == browser_names(a),
{
    let browser = browser_plan(a);
    let head = browser.subrange(0, 1);
    lemma_names_all_scripts(head);
    if a.ca_certificate.len() != 0 {
        let mid = seq![StepModel::CreateDir { path: under_root(CA_CERTIFICATES_DIR@) }]
            + copies_into(a.ca_certificate, under_root(CA_CERTIFICATES_DIR@));
        let tail = browser.subrange(browser.len() - 1, browser.len() as int);
        assert(browser =~= head + mid + tail);
        lemma_names_no_scripts(mid);
        lemma_names_all_scripts(tail);
        lemma_names_concat(head, mid);
        lemma_names_concat(head + mid, tail);
    } else {
        assert(browser =~= head);
    }
    assert(script_names(browser) =~= browser_names(a));
}

proof fn lemma_backgrounds_names(a: ArgsView)
    ensures
        backgrounds_plan(a) is Ok ==> script_names(backgrounds_plan(a)->Ok_0)
            == backgrounds_names(a),
{
    reveal_with_fuel(script_names, 3);
    if backgrounds_plan(a) is Ok {
        assert(script_names(backgrounds_plan(a)->Ok_0) =~= backgrounds_names(a));
    }
}

proof fn lemma_names_of_stages(a: ArgsView)
    ensures
        script_names(stages_before_backgrounds(a)) == pre_names(a) + users_names(a)
            + user_files_names(a) + base_names(a) + gui_names(a),
        script_names(stages_after_backgrounds(a)) == browser_names(a) + compilers_names(a)
            + debuggers_names(a) + editors_names(a) + lockdown_names(a),
        backgrounds_plan(a) is Ok ==> script_names(backgrounds_plan(a)->Ok_0)
            == backgrounds_names(a),
{
    let pre = pre_install_plan(a);
    let users = setup_users_plan(a);
    let files = additional_user_files_plan(a);
    let base = base_setup_plan(a);
    let gui = base_gui_setup_plan(a);
    lemma_pre_names(a);
    lemma_users_names(a);
    lemma_user_files_names(a);
    lemma_base_names(a);
    lemma_gui_names(a);
    lemma_names_concat(pre, users);
    lemma_names_concat(pre + users, files);
    lemma_names_concat(pre + users + files, base);
    lemma_names_concat(pre + users + files + base, gui);
    let browser = browser_plan(a);
    let compilers = compilers_plan();
    let debuggers = debuggers_plan();
    let editors = editors_plan(a);
    let lock = lockdown_plan(a);
    lemma_browser_names(a);
    lemma_compilers_names(a);
    lemma_debuggers_names(a);
    lemma_editors_names(a);
    lemma_lockdown_names(a);
    lemma_names_concat(browser, compilers);
    lemma_names_concat(browser + compilers, debuggers);
    lemma_names_concat(browser + compilers + debuggers, editors);
    lemma_names_concat(browser + compilers + debuggers + editors, lock);
    lemma_backgrounds_names(a);
}


/// The names of the scripts of every stage, in order.
spec fn all_names(a: ArgsView) -> Seq<Seq<char>> {
    pre_names(a) + (users_names(a) + (user_files_names(a) + (base_names(a) + (gui_names(a) + (backgrounds_names(a) + (browser_names(a) + (compilers_names(a) + (debuggers_names(a) + (editors_names(a) + lockdown_names(a))))))))))
}

/// The names of the scripts of the stages before the background stage, in order.
spec fn names_before_backgrounds(a: ArgsView) -> Seq<Seq<char>> {
    pre_names(a) + (users_names(a) + (user_files_names(a) + (base_names(a) + gui_names(a))))
}

proof fn lemma_stage_ranks(a: ArgsView)
    ensures
        ranked(pre_names(a), 0, 8),
        ranked(users_names(a), 8, 11),
        ranked(user_files_names(a), 11, 12),
        ranked(base_names(a), 12, 25),
        ranked(gui_names(a), 25, 31),
        ranked(backgrounds_names(a), 31, 32),
        ranked(browser_names(a), 32, 34),
        ranked(compilers_names(a), 34, 35),
        ranked(debuggers_names(a), 35, 36),
        ranked(editors_names(a), 36, 42),
        ranked(lockdown_names(a), 42, 43),
{
    reveal_strlit("00-wait");
    reveal_strlit("10-partitions");
    reveal_strlit("20-fs");
    reveal_strlit("25-wait-online");
    reveal_strlit("30-fix-mirrors");
    reveal_strlit("30-mirrors");
    reveal_strlit("40-install-base");
    reveal_strlit("50-configure-inner");
    reveal_strlit("70-sshd");
    reveal_strlit("80-contestant");
    reveal_strlit("80-orga");
    reveal_strlit("81-additional-user-files");
    reveal_strlit("00-pixie-ping");
    reveal_strlit("00-wait-online-unit");
    reveal_strlit("00-hosts");
    reveal_strlit("00-node-exporter");
    reveal_strlit("00-time");
    reveal_strlit("00-locale");
    reveal_strlit("00-misc");
    reveal_strlit("97-mkinitcpio");
    reveal_strlit("98-grub");
    reveal_strlit("99-networkd");
    reveal_strlit("99-timesyncd");
    reveal_strlit("99-resolved");
    reveal_strlit("99-clean-cache");
    reveal_strlit("84-lid");
    reveal_strlit("85-gnome");
    reveal_strlit("87-disable-keyring");
    reveal_strlit("85-xorg");
    reveal_strlit("85-virtualbox");
    reveal_strlit("89-desktop-files");
    reveal_strlit("86-backgrounds");
    reveal_strlit("86-browser");
    reveal_strlit("87-ca-certificates");
    reveal_strlit("86-compilers");
    reveal_strlit("86-debuggers");
    reveal_strlit("00-paru");
    reveal_strlit("86-editors");
    reveal_strlit("86-pycharm");
    reveal_strlit("86-codeblocks");
    reveal_strlit("86-vscode");
    reveal_strlit("86-eclipse");
    reveal_strlit("80-lockdown");
}

proof fn lemma_all_ranked(a: ArgsView)
    ensures
        ranked(all_names(a), 0, 43),
        ranked(names_before_backgrounds(a), 0, 31),
{
    lemma_stage_ranks(a);
    let before4 = gui_names(a);
    let before3 = base_names(a) + before4;
    lemma_ranked_concat(base_names(a), before4, 12, 25, 31);
    let before2 = user_files_names(a) + before3;
    lemma_ranked_concat(user_files_names(a), before3, 11, 12, 31);
    let before1 = users_names(a) + before2;
    lemma_ranked_concat(users_names(a), before2, 8, 11, 31);
    let before0 = pre_names(a) + before1;
    lemma_ranked_concat(pre_names(a), before1, 0, 8, 31);
    let rest10 = lockdown_names(a);
    let rest9 = editors_names(a) + rest10;
    lemma_ranked_concat(editors_names(a), rest10, 36, 42, 43);
    let rest8 = debuggers_names(a) + rest9;
    lemma_ranked_concat(debuggers_names(a), rest9, 35, 36, 43);
    let rest7 = compilers_names(a) + rest8;
    lemma_ranked_concat(compilers_names(a), rest8, 34, 35, 43);
    let rest6 = browser_names(a) + rest7;
    lemma_ranked_concat(browser_names(a), rest7, 32, 34, 43);
    let rest5 = backgrounds_names(a) + rest6;
    lemma_ranked_concat(backgrounds_names(a), rest6, 31, 32, 43);
    let rest4 = gui_names(a) + rest5;
    lemma_ranked_concat(gui_names(a), rest5, 25, 31, 43);
    let rest3 = base_names(a) + rest4;
    lemma_ranked_concat(base_names(a), rest4, 12, 25, 43);
    let rest2 = user_files_names(a) + rest3;
    lemma_ranked_concat(user_files_names(a), rest3, 11, 12, 43);
    let rest1 = users_names(a) + rest2;
    lemma_ranked_concat(users_names(a), rest2, 8, 11, 43);
    let rest0 = pre_names(a) + rest1;
    lemma_ranked_concat(pre_names(a), rest1, 0, 8, 43);
}

proof fn lemma_regroup(
    n0: Seq<Seq<char>>,
    n1: Seq<Seq<char>>,
    n2: Seq<Seq<char>>,
    n3: Seq<Seq<char>>,
    n4: Seq<Seq<char>>,
    n5: Seq<Seq<char>>,
    n6: Seq<Seq<char>>,
    n7: Seq<Seq<char>>,
    n8: Seq<Seq<char>>,
    n9: Seq<Seq<char>>,
    n10: Seq<Seq<char>>,
)
    ensures
        n0 + n1 + n2 + n3 + n4 + n5 + (n6 + n7 + n8 + n9 + n10) == n0 + (n1 + (n2 + (n3 + (n4 + (n5 + (n6 + (n7 + (n8 + (n9 + n10))))))))),
{
    assert(n0 + n1 + n2 + n3 + n4 + n5 + (n6 + n7 + n8 + n9 + n10) =~= n0 + (n1 + (n2 + (n3 + (n4 + (n5 + (n6 + (n7 + (n8 + (n9 + n10))))))))));
}

proof fn lemma_regroup_five(
    n0: Seq<Seq<char>>,
    n1: Seq<Seq<char>>,
    n2: Seq<Seq<char>>,
    n3: Seq<Seq<char>>,
    n4: Seq<Seq<char>>,
)
    ensures
        n0 + n1 + n2 + n3 + n4 == n0 + (n1 + (n2 + (n3 + n4))),
{
    assert(n0 + n1 + n2 + n3 + n4 =~= n0 + (n1 + (n2 + (n3 + n4))));
}

proof fn lemma_image_names(a: ArgsView)
    ensures
        backgrounds_plan(a) is Ok ==> script_names(image_plan(a).0) == all_names(a),
        backgrounds_plan(a) is Err ==> script_names(image_plan(a).0) == names_before_backgrounds(a),
{
    lemma_names_of_stages(a);
    match backgrounds_plan(a) {
        Ok(bg) => {
            lemma_names_concat(stages_before_backgrounds(a), bg);
            lemma_names_concat(stages_before_backgrounds(a) + bg, stages_after_backgrounds(a));
            lemma_regroup(
                pre_names(a),
                users_names(a),
                user_files_names(a),
                base_names(a),
                gui_names(a),
                backgrounds_names(a),
                browser_names(a),
                compilers_names(a),
                debuggers_names(a),
                editors_names(a),
                lockdown_names(a),
            );
        },
        Err(e) => {
            lemma_regroup_five(
                pre_names(a),
                users_names(a),
                user_files_names(a),
                base_names(a),
                gui_names(a),
            );
        },
    }
}

/// No two scripts of the image share a name: each script that a stage writes keeps its own
/// file, and none overwrites another.
pub proof fn law_script_names_distinct(a: ArgsView)
    ensures
        script_names(image_plan(a).0).no_duplicates(),
{
    lemma_image_names(a);
    lemma_all_ranked(a);
    if backgrounds_plan(a) is Ok {
        lemma_ranked_no_dup(all_names(a), 0, 43);
    } else {
        lemma_ranked_no_dup(names_before_backgrounds(a), 0, 31);
    }
}

/// `steps` writes a script named `name`.
pub open spec fn writes_script(steps: Seq<StepModel>, name: Seq<char>) -> bool {
    exists|i: int| 0 <= i < steps.len() && is_script(steps[i]) && #[trigger] script_name(steps[i]) == name
}

proof fn lemma_writes_script_names(steps: Seq<StepModel>)
    ensures
        forall|n: Seq<char>|
            #![trigger writes_script(steps, n)]
            #![trigger script_names(steps).contains(n)]
            writes_script(steps, n) <==> script_names(steps).contains(n),
    decreases steps.len(),
{
    if steps.len() != 0 {
        let init = steps.drop_last();
        lemma_writes_script_names(init);
        let last_is_script = is_script(steps.last());
        assert(script_names(steps) == if last_is_script {
            script_names(init).push(script_name(steps.last()))
        } else {
            script_names(init)
        });
        assert forall|n: Seq<char>| writes_script(steps, n) implies #[trigger] script_names(
            steps,
        ).contains(n) by {
            let i = choose|i: int|
                0 <= i < steps.len() && is_script(steps[i]) && #[trigger] script_name(steps[i]) == n;
            if i < init.len() {
                assert(init[i] == steps[i]);
                assert(script_name(init[i]) == n);
                assert(writes_script(init, n));
                assert(script_names(init).contains(n));
                let j = choose|j: int| 0 <= j < script_names(init).len() && script_names(init)[j] == n;
                assert(script_names(steps)[j] == n);
            } else {
                assert(script_names(steps)[script_names(steps).len() - 1] == n);
            }
        }
        assert forall|n: Seq<char>| #[trigger] script_names(steps).contains(n) implies writes_script(
            steps,
            n,
        ) by {
            let j = choose|j: int| 0 <= j < script_names(steps).len() && script_names(steps)[j] == n;
            if last_is_script && j == script_names(steps).len() - 1 {
                let k = steps.len() - 1;
                assert(is_script(steps[k]) && script_name(steps[k]) == n);
            } else {
                assert(script_names(init)[j] == n);
                assert(script_names(init).contains(n));
                assert(writes_script(init, n));
                let i = choose|i: int|
                    0 <= i < init.len() && is_script(init[i]) && #[trigger] script_name(init[i]) == n;
                assert(steps[i] == init[i]);
                assert(script_name(steps[i]) == n);
            }
        }
    }
}


/// Which scripts the pre-install stage writes, for every choice of options: each script
/// named here is written exactly when its option asks for it, whatever the other options say.
pub proof fn law_pre_scripts(a: ArgsView)
    ensures
        writes_script(pre_install_plan(a), WAIT_SCRIPT@) <==> !a.nowait,
        writes_script(pre_install_plan(a), PARTITIONS_SCRIPT@),
        writes_script(pre_install_plan(a), FS_SCRIPT@),
        writes_script(pre_install_plan(a), WAIT_ONLINE_SCRIPT@),
        writes_script(pre_install_plan(a), FIX_MIRRORS_SCRIPT@) <==> a.pin_packages is Some,
        writes_script(pre_install_plan(a), MIRRORS_SCRIPT@) <==> !(a.pin_packages is Some),
        writes_script(pre_install_plan(a), INSTALL_BASE_SCRIPT@),
        writes_script(pre_install_plan(a), CONFIGURE_INNER_SCRIPT@),
{
    lemma_pre_names(a);
    lemma_writes_script_names(pre_install_plan(a));
    let names = pre_names(a);
    reveal_strlit("00-wait");
    reveal_strlit("10-partitions");
    reveal_strlit("20-fs");
    reveal_strlit("25-wait-online");
    reveal_strlit("30-fix-mirrors");
    reveal_strlit("30-mirrors");
    reveal_strlit("40-install-base");
    reveal_strlit("50-configure-inner");
    if !a.nowait {
        assert(names[0] == WAIT_SCRIPT@);
        assert(names.contains(WAIT_SCRIPT@));
    } else {
        assert forall|i: int| 0 <= i < names.len() implies names[i] != WAIT_SCRIPT@ by {
            assert(name_key(names[i]) != name_key(WAIT_SCRIPT@));
        }
        assert(!names.contains(WAIT_SCRIPT@));
    }
    assert(names[(if !a.nowait { 1int } else { 0int })] == PARTITIONS_SCRIPT@);
    assert(names.contains(PARTITIONS_SCRIPT@));
    assert(names[(if !a.nowait { 1int } else { 0int }) + 1] == FS_SCRIPT@);
    assert(names.contains(FS_SCRIPT@));
    assert(names[(if !a.nowait { 1int } else { 0int }) + 2] == WAIT_ONLINE_SCRIPT@);
    assert(names.contains(WAIT_ONLINE_SCRIPT@));
    if a.pin_packages is Some {
        assert(names[(if !a.nowait { 1int } else { 0int }) + 3] == FIX_MIRRORS_SCRIPT@);
        assert(names.contains(FIX_MIRRORS_SCRIPT@));
    } else {
        assert forall|i: int| 0 <= i < names.len() implies names[i] != FIX_MIRRORS_SCRIPT@ by {
            assert(name_key(names[i]) != name_key(FIX_MIRRORS_SCRIPT@));
        }
        assert(!names.contains(FIX_MIRRORS_SCRIPT@));
    }
    if !(a.pin_packages is Some) {
        assert(names[(if !a.nowait { 1int } else { 0int }) + 3] == MIRRORS_SCRIPT@);
        assert(names.contains(MIRRORS_SCRIPT@));
    } else {
        assert forall|i: int| 0 <= i < names.len() implies names[i] != MIRRORS_SCRIPT@ by {
            assert(name_key(names[i]) != name_key(MIRRORS_SCRIPT@));
        }
        assert(!names.contains(MIRRORS_SCRIPT@));
    }
    assert(names[(if !a.nowait { 1int } else { 0int }) + 4] == INSTALL_BASE_SCRIPT@);
    assert(names.contains(INSTALL_BASE_SCRIPT@));
    assert(names[(if !a.nowait { 1int } else { 0int }) + 5] == CONFIGURE_INNER_SCRIPT@);
    assert(names.contains(CONFIGURE_INNER_SCRIPT@));
}

/// Which scripts the accounts stage writes, for every choice of options: each script
/// named here is written exactly when its option asks for it, whatever the other options say.
pub proof fn law_users_scripts(a: ArgsView)
    ensures
        writes_script(setup_users_plan(a), SSHD_SCRIPT@),
        writes_script(setup_users_plan(a), CONTESTANT_SCRIPT@),
        writes_script(setup_users_plan(a), ORGA_SCRIPT@),
{
    lemma_users_names(a);
    lemma_writes_script_names(setup_users_plan(a));
    let names = users_names(a);
    reveal_strlit("70-sshd");
    reveal_strlit("80-contestant");
    reveal_strlit("80-orga");
    assert(names[0] == SSHD_SCRIPT@);
    assert(names.contains(SSHD_SCRIPT@));
    assert(names[1] == CONTESTANT_SCRIPT@);
    assert(names.contains(CONTESTANT_SCRIPT@));
    assert(names[2] == ORGA_SCRIPT@);
    assert(names.contains(ORGA_SCRIPT@));
}

/// Which scripts the files stage writes, for every choice of options: each script
/// named here is written exactly when its option asks for it, whatever the other options say.
pub proof fn law_user_files_scripts(a: ArgsView)
    ensures
        writes_script(additional_user_files_plan(a), ADDITIONAL_USER_FILES_SCRIPT@) <==> a.additional_user_files.len() != 0,
{
    lemma_user_files_names(a);
    lemma_writes_script_names(additional_user_files_plan(a));
    let names = user_files_names(a);
    reveal_strlit("81-additional-user-files");
    if a.additional_user_files.len() != 0 {
        assert(names[0] == ADDITIONAL_USER_FILES_SCRIPT@);
        assert(names.contains(ADDITIONAL_USER_FILES_SCRIPT@));
    } else {
        assert forall|i: int| 0 <= i < names.len() implies names[i] != ADDITIONAL_USER_FILES_SCRIPT@ by {
            assert(name_key(names[i]) != name_key(ADDITIONAL_USER_FILES_SCRIPT@));
        }
        assert(!names.contains(ADDITIONAL_USER_FILES_SCRIPT@));
    }
}

/// Which scripts the base stage writes, for every choice of options: each script
/// named here is written exactly when its option asks for it, whatever the other options say.
pub proof fn law_base_scripts(a: ArgsView)
    ensures
        writes_script(base_setup_plan(a), PIXIE_PING_SCRIPT@) <==> a.pixie,
        writes_script(base_setup_plan(a), WAIT_ONLINE_UNIT_SCRIPT@),
        writes_script(base_setup_plan(a), HOSTS_SCRIPT@),
        writes_script(base_setup_plan(a), NODE_EXPORTER_SCRIPT@) <==> a.node_exporter,
        writes_script(base_setup_plan(a), TIME_SCRIPT@),
        writes_script(base_setup_plan(a), LOCALE_SCRIPT@),
        writes_script(base_setup_plan(a), MISC_SCRIPT@),
        writes_script(base_setup_plan(a), MKINITCPIO_SCRIPT@),
        writes_script(base_setup_plan(a), GRUB_SCRIPT@),
        writes_script(base_setup_plan(a), NETWORKD_SCRIPT@),
        writes_script(base_setup_plan(a), TIMESYNCD_SCRIPT@),
        writes_script(base_setup_plan(a), RESOLVED_SCRIPT@),
        writes_script(base_setup_plan(a), CLEAN_CACHE_SCRIPT@),
{
    lemma_base_names(a);
    lemma_writes_script_names(base_setup_plan(a));
    let names = base_names(a);
    reveal_strlit("00-pixie-ping");
    reveal_strlit("00-wait-online-unit");
    reveal_strlit("00-hosts");
    reveal_strlit("00-node-exporter");
    reveal_strlit("00-time");
    reveal_strlit("00-locale");
    reveal_strlit("00-misc");
    reveal_strlit("97-mkinitcpio");
    reveal_strlit("98-grub");
    reveal_strlit("99-networkd");
    reveal_strlit("99-timesyncd");
    reveal_strlit("99-resolved");
    reveal_strlit("99-clean-cache");
    if a.pixie {
        assert(names[0] == PIXIE_PING_SCRIPT@);
        assert(names.contains(PIXIE_PING_SCRIPT@));
    } else {
        assert forall|i: int| 0 <= i < names.len() implies names[i] != PIXIE_PING_SCRIPT@ by {
            assert(name_key(names[i]) != name_key(PIXIE_PING_SCRIPT@));
        }
        assert(!names.contains(PIXIE_PING_SCRIPT@));
    }
    assert(names[(if a.pixie { 1int } else { 0int })] == WAIT_ONLINE_UNIT_SCRIPT@);
    assert(names.contains(WAIT_ONLINE_UNIT_SCRIPT@));
    assert(names[(if a.pixie { 1int } else { 0int }) + 1] == HOSTS_SCRIPT@);
    assert(names.contains(HOSTS_SCRIPT@));
    if a.node_exporter {
        assert(names[(if a.pixie { 1int } else { 0int }) + 2] == NODE_EXPORTER_SCRIPT@);
        assert(names.contains(NODE_EXPORTER_SCRIPT@));
    } else {
        assert forall|i: int| 0 <= i < names.len() implies names[i] != NODE_EXPORTER_SCRIPT@ by {
            assert(name_key(names[i]) != name_key(NODE_EXPORTER_SCRIPT@));
        }
        assert(!names.contains(NODE_EXPORTER_SCRIPT@));
    }
    assert(names[(if a.pixie { 1int } else { 0int }) + (if a.node_exporter { 1int } else { 0int }) + 2] == TIME_SCRIPT@);
    assert(names.contains(TIME_SCRIPT@));
    assert(names[(if a.pixie { 1int } else { 0int }) + (if a.node_exporter { 1int } else { 0int }) + 3] == LOCALE_SCRIPT@);
    assert(names.contains(LOCALE_SCRIPT@));
    assert(names[(if a.pixie { 1int } else { 0int }) + (if a.node_exporter { 1int } else { 0int }) + 4] == MISC_SCRIPT@);
    assert(names.contains(MISC_SCRIPT@));
    assert(names[(if a.pixie { 1int } else { 0int }) + (if a.node_exporter { 1int } else { 0int }) + 5] == MKINITCPIO_SCRIPT@);
    assert(names.contains(MKINITCPIO_SCRIPT@));
    assert(names[(if a.pixie { 1int } else { 0int }) + (if a.node_exporter { 1int } else { 0int }) + 6] == GRUB_SCRIPT@);
    assert(names.contains(GRUB_SCRIPT@));
    assert(names[(if a.pixie { 1int } else { 0int }) + (if a.node_exporter { 1int } else { 0int }) + 7] == NETWORKD_SCRIPT@);
    assert(names.contains(NETWORKD_SCRIPT@));
    assert(names[(if a.pixie { 1int } else { 0int }) + (if a.node_exporter { 1int } else { 0int }) + 8] == TIMESYNCD_SCRIPT@);
    assert(names.contains(TIMESYNCD_SCRIPT@));
    assert(names[(if a.pixie { 1int } else { 0int }) + (if a.node_exporter { 1int } else { 0int }) + 9] == RESOLVED_SCRIPT@);
    assert(names.contains(RESOLVED_SCRIPT@));
    assert(names[(if a.pixie { 1int } else { 0int }) + (if a.node_exporter { 1int } else { 0int }) + 10] == CLEAN_CACHE_SCRIPT@);
    assert(names.contains(CLEAN_CACHE_SCRIPT@));
}

/// Which scripts the desktop stage writes, for every choice of options: each script
/// named here is written exactly when its option asks for it, whatever the other options say.
pub proof fn law_gui_scripts(a: ArgsView)
    ensures
        writes_script(base_gui_setup_plan(a), LID_SCRIPT@),
        writes_script(base_gui_setup_plan(a), GNOME_SCRIPT@),
        writes_script(base_gui_setup_plan(a), DISABLE_KEYRING_SCRIPT@),
        writes_script(base_gui_setup_plan(a), XORG_SCRIPT@) <==> a.disable_wayland,
        writes_script(base_gui_setup_plan(a), VIRTUALBOX_SCRIPT@) <==> a.virtualbox,
        writes_script(base_gui_setup_plan(a), DESKTOP_FILES_SCRIPT@),
{
    lemma_gui_names(a);
    lemma_writes_script_names(base_gui_setup_plan(a));
    let names = gui_names(a);
    reveal_strlit("84-lid");
    reveal_strlit("85-gnome");
    reveal_strlit("87-disable-keyring");
    reveal_strlit("85-xorg");
    reveal_strlit("85-virtualbox");
    reveal_strlit("89-desktop-files");
    assert(names[0] == LID_SCRIPT@);
    assert(names.contains(LID_SCRIPT@));
    assert(names[1] == GNOME_SCRIPT@);
    assert(names.contains(GNOME_SCRIPT@));
    assert(names[2] == DISABLE_KEYRING_SCRIPT@);
    assert(names.contains(DISABLE_KEYRING_SCRIPT@));
    if a.disable_wayland {
        assert(names[3] == XORG_SCRIPT@);
        assert(names.contains(XORG_SCRIPT@));
    } else {
        assert forall|i: int| 0 <= i < names.len() implies names[i] != XORG_SCRIPT@ by {
            assert(name_key(names[i]) != name_key(XORG_SCRIPT@));
        }
        assert(!names.contains(XORG_SCRIPT@));
    }
    if a.virtualbox {
        assert(names[(if a.disable_wayland { 1int } else { 0int }) + 3] == VIRTUALBOX_SCRIPT@);
        assert(names.contains(VIRTUALBOX_SCRIPT@));
    } else {
        assert forall|i: int| 0 <= i < names.len() implies names[i] != VIRTUALBOX_SCRIPT@ by {
            assert(name_key(names[i]) != name_key(VIRTUALBOX_SCRIPT@));
        }
        assert(!names.contains(VIRTUALBOX_SCRIPT@));
    }
    assert(names[(if a.disable_wayland { 1int } else { 0int }) + (if a.virtualbox { 1int } else { 0int }) + 3] == DESKTOP_FILES_SCRIPT@);
    assert(names.contains(DESKTOP_FILES_SCRIPT@));
}

/// Which scripts the browser stage writes, for every choice of options: each script
/// named here is written exactly when its option asks for it, whatever the other options say.
pub proof fn law_browser_scripts(a: ArgsView)
    ensures
        writes_script(browser_plan(a), BROWSER_SCRIPT@),
        writes_script(browser_plan(a), CA_CERTIFICATES_SCRIPT@) <==> a.ca_certificate.len() != 0,
{
    lemma_browser_names(a);
    lemma_writes_script_names(browser_plan(a));
    let names = browser_names(a);
    reveal_strlit("86-browser");
    reveal_strlit("87-ca-certificates");
    assert(names[0] == BROWSER_SCRIPT@);
    assert(names.contains(BROWSER_SCRIPT@));
    if a.ca_certificate.len() != 0 {
        assert(names[1] == CA_CERTIFICATES_SCRIPT@);
        assert(names.contains(CA_CERTIFICATES_SCRIPT@));
    } else {
        assert forall|i: int| 0 <= i < names.len() implies names[i] != CA_CERTIFICATES_SCRIPT@ by {
            assert(name_key(names[i]) != name_key(CA_CERTIFICATES_SCRIPT@));
        }
        assert(!names.contains(CA_CERTIFICATES_SCRIPT@));
    }
}

/// Which scripts the compilers stage writes, for every choice of options: each script
/// named here is written exactly when its option asks for it, whatever the other options say.
pub proof fn law_compilers_scripts(a: ArgsView)
    ensures
        writes_script(compilers_plan(), COMPILERS_SCRIPT@),
{
    lemma_compilers_names(a);
    lemma_writes_script_names(compilers_plan());
    let names = compilers_names(a);
    reveal_strlit("86-compilers");
    assert(names[0] == COMPILERS_SCRIPT@);
    assert(names.contains(COMPILERS_SCRIPT@));
}

/// Which scripts the debuggers stage writes, for every choice of options: each script
/// named here is written exactly when its option asks for it, whatever the other options say.
pub proof fn law_debuggers_scripts(a: ArgsView)
    ensures
        writes_script(debuggers_plan(), DEBUGGERS_SCRIPT@),
{
    lemma_debuggers_names(a);
    lemma_writes_script_names(debuggers_plan());
    let names = debuggers_names(a);
    reveal_strlit("86-debuggers");
    assert(names[0] == DEBUGGERS_SCRIPT@);
    assert(names.contains(DEBUGGERS_SCRIPT@));
}

/// Which scripts the editors stage writes, for every choice of options: each script
/// named here is written exactly when its option asks for it, whatever the other options say.
pub proof fn law_editors_scripts(a: ArgsView)
    ensures
        writes_script(editors_plan(a), PARU_SCRIPT@),
        writes_script(editors_plan(a), EDITORS_SCRIPT@),
        writes_script(editors_plan(a), PYCHARM_SCRIPT@) <==> a.pycharm,
        writes_script(editors_plan(a), CODEBLOCKS_SCRIPT@) <==> a.codeblocks,
        writes_script(editors_plan(a), VSCODE_SCRIPT@),
        writes_script(editors_plan(a), ECLIPSE_SCRIPT@),
{
    lemma_editors_names(a);
    lemma_writes_script_names(editors_plan(a));
    let names = editors_names(a);
    reveal_strlit("00-paru");
    reveal_strlit("86-editors");
    reveal_strlit("86-pycharm");
    reveal_strlit("86-codeblocks");
    reveal_strlit("86-vscode");
    reveal_strlit("86-eclipse");
    assert(names[0] == PARU_SCRIPT@);
    assert(names.contains(PARU_SCRIPT@));
    assert(names[1] == EDITORS_SCRIPT@);
    assert(names.contains(EDITORS_SCRIPT@));
    if a.pycharm {
        assert(names[2] == PYCHARM_SCRIPT@);
        assert(names.contains(PYCHARM_SCRIPT@));
    } else {
        assert forall|i: int| 0 <= i < names.len() implies names[i] != PYCHARM_SCRIPT@ by {
            assert(name_key(names[i]) != name_key(PYCHARM_SCRIPT@));
        }
        assert(!names.contains(PYCHARM_SCRIPT@));
    }
    if a.codeblocks {
        assert(names[(if a.pycharm { 1int } else { 0int }) + 2] == CODEBLOCKS_SCRIPT@);
        assert(names.contains(CODEBLOCKS_SCRIPT@));
    } else {
        assert forall|i: int| 0 <= i < names.len() implies names[i] != CODEBLOCKS_SCRIPT@ by {
            assert(name_key(names[i]) != name_key(CODEBLOCKS_SCRIPT@));
        }
        assert(!names.contains(CODEBLOCKS_SCRIPT@));
    }
    assert(names[(if a.pycharm { 1int } else { 0int }) + (if a.codeblocks { 1int } else { 0int }) + 2] == VSCODE_SCRIPT@);
    assert(names.contains(VSCODE_SCRIPT@));
    assert(names[(if a.pycharm { 1int } else { 0int }) + (if a.codeblocks { 1int } else { 0int }) + 3] == ECLIPSE_SCRIPT@);
    assert(names.contains(ECLIPSE_SCRIPT@));
}

/// Which scripts the lockdown stage writes, for every choice of options: each script
/// named here is written exactly when its option asks for it, whatever the other options say.
pub proof fn law_lockdown_scripts(a: ArgsView)
    ensures
        writes_script(lockdown_plan(a), LOCKDOWN_SCRIPT@) <==> !a.no_lockdown,
{
    lemma_lockdown_names(a);
    lemma_writes_script_names(lockdown_plan(a));
    let names = lockdown_names(a);
    reveal_strlit("80-lockdown");
    if !a.no_lockdown {
        assert(names[0] == LOCKDOWN_SCRIPT@);
        assert(names.contains(LOCKDOWN_SCRIPT@));
    } else {
        assert forall|i: int| 0 <= i < names.len() implies names[i] != LOCKDOWN_SCRIPT@ by {
            assert(name_key(names[i]) != name_key(LOCKDOWN_SCRIPT@));
        }
        assert(!names.contains(LOCKDOWN_SCRIPT@));
    }
}

} // verus!
