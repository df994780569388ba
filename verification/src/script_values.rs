use vstd::prelude::*;

use crate::args::ArgsView;
use crate::base::{
    base_setup_plan, gnome_locale_line, hosts_line, hosts_text, locale_text, pixie_ping_text,
    time_text, HOSTS_A, HOSTS_B, HOSTS_C, HOSTS_SCRIPT, LOCALE_A, LOCALE_B, LOCALE_C, LOCALE_D,
    LOCALE_SCRIPT, PIXIE_PING_A, PIXIE_PING_B, PIXIE_PING_C, PIXIE_PING_SCRIPT, TIME_A, TIME_B,
    TIME_SCRIPT,
};
use crate::base_gui::{
    backgrounds_plan, backgrounds_text, base_gui_setup_plan, desktop_files_text,
    disable_keyring_text, gdm_wayland_line, gnome_text, input_sources_line, BACKGROUNDS_A,
    BACKGROUNDS_B, BACKGROUNDS_C, BACKGROUNDS_D, BACKGROUNDS_E, BACKGROUNDS_F, BACKGROUNDS_G,
    BACKGROUNDS_SCRIPT, DEFAULT_BACKGROUND_PATH, DESKTOP_FILES_A, DESKTOP_FILES_B, DESKTOP_FILES_C,
    DESKTOP_FILES_D, DESKTOP_FILES_E, DESKTOP_FILES_F, DESKTOP_FILES_G, DESKTOP_FILES_SCRIPT,
    DISABLE_KEYRING_A, DISABLE_KEYRING_B, DISABLE_KEYRING_C, DISABLE_KEYRING_D, DISABLE_KEYRING_E,
    DISABLE_KEYRING_SCRIPT, GNOME_A, GNOME_C, GNOME_D, GNOME_E, GNOME_F, GNOME_G, GNOME_SCRIPT,
};
use crate::contest_software::{
    browser_plan, browser_text, editors_plan, homepage_line, pycharm_text, vscode_text, BROWSER_A,
    BROWSER_B, BROWSER_C, BROWSER_D, BROWSER_SCRIPT, PYCHARM_A, PYCHARM_B, PYCHARM_C,
    PYCHARM_SCRIPT, VSCODE_A, VSCODE_B, VSCODE_C, VSCODE_D, VSCODE_E, VSCODE_F, VSCODE_SCRIPT,
};
use crate::lockdown::{
    lockdown_plan, lockdown_text, LOCKDOWN_A, LOCKDOWN_B, LOCKDOWN_C, LOCKDOWN_SCRIPT,
};
use crate::pre::{
    fix_mirrors_text, pre_install_plan, FIX_MIRRORS_A, FIX_MIRRORS_B, FIX_MIRRORS_SCRIPT,
};
use crate::users::{
    additional_user_files_plan, additional_user_files_text, authorized_keys_body, contestant_text,
    orga_text, setup_users_plan, sshd_text, ADDITIONAL_USER_FILES_A, ADDITIONAL_USER_FILES_SCRIPT,
    CONTESTANT_A, CONTESTANT_B, CONTESTANT_C, CONTESTANT_SCRIPT, ORGA_A, ORGA_B, ORGA_C, ORGA_D,
    ORGA_E, ORGA_F, ORGA_SCRIPT, SSHD_A, SSHD_B, SSHD_SCRIPT,
};
use crate::distinct_names::{is_script, script_name, writes_script};
use crate::util::{under_root, post_script, pre_script, script_text, StepModel, NEWLINE, SCRIPT_HEADER};

verus! {

/// The text of the script that a step writes; empty for other steps.
pub open spec fn step_text(s: StepModel) -> Seq<char> {
    match s {
        StepModel::WriteScript { dir, name, text } => text,
        _ => Seq::empty(),
    }
}

/// `part` occurs in `text`.
pub open spec fn contains_text(text: Seq<char>, part: Seq<char>) -> bool {
    exists|k: int|
        0 <= k && k + part.len() <= text.len() && #[trigger] text.subrange(k, k + part.len())
            == part
}

/// `steps` writes a script named `name` whose text holds `part`.
pub open spec fn writes_script_containing(
    steps: Seq<StepModel>,
    name: Seq<char>,
    part: Seq<char>,
) -> bool {
    exists|i: int|
        #![trigger steps[i]]
        0 <= i < steps.len() && steps[i] is WriteScript && steps[i]->WriteScript_name == name
            && contains_text(step_text(steps[i]), part)
}

proof fn lemma_contains_middle(x: Seq<char>, v: Seq<char>, y: Seq<char>)
    ensures
        contains_text(x + v + y, v),
{
    assert((x + v + y).subrange(x.len() as int, (x.len() + v.len()) as int) =~= v);
}

proof fn lemma_fix_mirrors_text_holds(pin_packages: Seq<char>)
    ensures
        contains_text(script_text(fix_mirrors_text(pin_packages)), pin_packages),
{
    lemma_contains_middle(SCRIPT_HEADER@ + FIX_MIRRORS_A@, pin_packages, FIX_MIRRORS_B@ + NEWLINE@);
    assert((SCRIPT_HEADER@ + FIX_MIRRORS_A@) + pin_packages + (FIX_MIRRORS_B@ + NEWLINE@) =~= script_text(fix_mirrors_text(pin_packages)));
}

proof fn lemma_sshd_text_holds(gen_authorized_keys: Seq<char>)
    ensures
        contains_text(script_text(sshd_text(gen_authorized_keys)), gen_authorized_keys),
{
    lemma_contains_middle(SCRIPT_HEADER@ + SSHD_A@, gen_authorized_keys, SSHD_B@ + NEWLINE@);
    assert((SCRIPT_HEADER@ + SSHD_A@) + gen_authorized_keys + (SSHD_B@ + NEWLINE@) =~= script_text(sshd_text(gen_authorized_keys)));
}

proof fn lemma_contestant_text_holds(contestant_account: Seq<char>)
    ensures
        contains_text(script_text(contestant_text(contestant_account)), contestant_account),
{
    lemma_contains_middle(
        SCRIPT_HEADER@ + CONTESTANT_A@,
        contestant_account,
        CONTESTANT_B@ + contestant_account + CONTESTANT_C@ + contestant_account + NEWLINE@,
    );
    assert((SCRIPT_HEADER@ + CONTESTANT_A@) + contestant_account + (CONTESTANT_B@ + contestant_account + CONTESTANT_C@ + contestant_account + NEWLINE@) =~= script_text(contestant_text(contestant_account)));
}

proof fn lemma_orga_text_holds(orga_account: Seq<char>, password: Seq<char>)
    ensures
        contains_text(script_text(orga_text(orga_account, password)), orga_account),
        contains_text(script_text(orga_text(orga_account, password)), password),
{
    lemma_contains_middle(
        SCRIPT_HEADER@ + ORGA_A@,
        orga_account,
        ORGA_B@ + password + ORGA_C@ + orga_account + ORGA_D@ + password + ORGA_E@ + orga_account + ORGA_F@ + NEWLINE@,
    );
    assert((SCRIPT_HEADER@ + ORGA_A@) + orga_account + (ORGA_B@ + password + ORGA_C@ + orga_account + ORGA_D@ + password + ORGA_E@ + orga_account + ORGA_F@ + NEWLINE@) =~= script_text(orga_text(orga_account, password)));
    lemma_contains_middle(
        SCRIPT_HEADER@ + ORGA_A@ + orga_account + ORGA_B@,
        password,
        ORGA_C@ + orga_account + ORGA_D@ + password + ORGA_E@ + orga_account + ORGA_F@ + NEWLINE@,
    );
    assert((SCRIPT_HEADER@ + ORGA_A@ + orga_account + ORGA_B@) + password + (ORGA_C@ + orga_account + ORGA_D@ + password + ORGA_E@ + orga_account + ORGA_F@ + NEWLINE@) =~= script_text(orga_text(orga_account, password)));
}

proof fn lemma_additional_user_files_text_holds(contestant_account: Seq<char>)
    ensures
        contains_text(script_text(additional_user_files_text(contestant_account)), contestant_account),
{
    lemma_contains_middle(SCRIPT_HEADER@ + ADDITIONAL_USER_FILES_A@, contestant_account, NEWLINE@);
    assert((SCRIPT_HEADER@ + ADDITIONAL_USER_FILES_A@) + contestant_account + (NEWLINE@) =~= script_text(additional_user_files_text(contestant_account)));
}

proof fn lemma_pixie_ping_text_holds(orga_account: Seq<char>)
    ensures
        contains_text(script_text(pixie_ping_text(orga_account)), orga_account),
{
    lemma_contains_middle(
        SCRIPT_HEADER@ + PIXIE_PING_A@,
        orga_account,
        PIXIE_PING_B@ + orga_account + PIXIE_PING_C@ + NEWLINE@,
    );
    assert((SCRIPT_HEADER@ + PIXIE_PING_A@) + orga_account + (PIXIE_PING_B@ + orga_account + PIXIE_PING_C@ + NEWLINE@) =~= script_text(pixie_ping_text(orga_account)));
}

proof fn lemma_hosts_text_holds(server_ip: Seq<char>, hline: Seq<char>)
    ensures
        contains_text(script_text(hosts_text(server_ip, hline)), server_ip),
        contains_text(script_text(hosts_text(server_ip, hline)), hline),
{
    lemma_contains_middle(
        SCRIPT_HEADER@ + HOSTS_A@,
        server_ip,
        HOSTS_B@ + hline + HOSTS_C@ + NEWLINE@,
    );
    assert((SCRIPT_HEADER@ + HOSTS_A@) + server_ip + (HOSTS_B@ + hline + HOSTS_C@ + NEWLINE@) =~= script_text(hosts_text(server_ip, hline)));
    lemma_contains_middle(
        SCRIPT_HEADER@ + HOSTS_A@ + server_ip + HOSTS_B@,
        hline,
        HOSTS_C@ + NEWLINE@,
    );
    assert((SCRIPT_HEADER@ + HOSTS_A@ + server_ip + HOSTS_B@) + hline + (HOSTS_C@ + NEWLINE@) =~= script_text(hosts_text(server_ip, hline)));
}

proof fn lemma_time_text_holds(timezone: Seq<char>)
    ensures
        contains_text(script_text(time_text(timezone)), timezone),
{
    lemma_contains_middle(SCRIPT_HEADER@ + TIME_A@, timezone, TIME_B@ + NEWLINE@);
    assert((SCRIPT_HEADER@ + TIME_A@) + timezone + (TIME_B@ + NEWLINE@) =~= script_text(time_text(timezone)));
}

proof fn lemma_locale_text_holds(locale: Seq<char>, gnome_locale: Seq<char>)
    ensures
        contains_text(script_text(locale_text(locale, gnome_locale)), locale),
        contains_text(script_text(locale_text(locale, gnome_locale)), gnome_locale),
{
    lemma_contains_middle(
        SCRIPT_HEADER@ + LOCALE_A@,
        locale,
        LOCALE_B@ + gnome_locale + LOCALE_C@ + locale + LOCALE_D@ + NEWLINE@,
    );
    assert((SCRIPT_HEADER@ + LOCALE_A@) + locale + (LOCALE_B@ + gnome_locale + LOCALE_C@ + locale + LOCALE_D@ + NEWLINE@) =~= script_text(locale_text(locale, gnome_locale)));
    lemma_contains_middle(
        SCRIPT_HEADER@ + LOCALE_A@ + locale + LOCALE_B@,
        gnome_locale,
        LOCALE_C@ + locale + LOCALE_D@ + NEWLINE@,
    );
    assert((SCRIPT_HEADER@ + LOCALE_A@ + locale + LOCALE_B@) + gnome_locale + (LOCALE_C@ + locale + LOCALE_D@ + NEWLINE@) =~= script_text(locale_text(locale, gnome_locale)));
}

proof fn lemma_gnome_text_holds(contestant_account: Seq<char>, gdm_wayland: Seq<char>, input_sources: Seq<char>)
    ensures
        contains_text(script_text(gnome_text(contestant_account, gdm_wayland, input_sources)), contestant_account),
        contains_text(script_text(gnome_text(contestant_account, gdm_wayland, input_sources)), gdm_wayland),
        contains_text(script_text(gnome_text(contestant_account, gdm_wayland, input_sources)), input_sources),
{
    lemma_contains_middle(
        SCRIPT_HEADER@ + GNOME_A@,
        contestant_account,
        gdm_wayland + GNOME_C@ + contestant_account + GNOME_D@ + contestant_account + GNOME_E@ + contestant_account + GNOME_F@ + input_sources + GNOME_G@ + NEWLINE@,
    );
    assert((SCRIPT_HEADER@ + GNOME_A@) + contestant_account + (gdm_wayland + GNOME_C@ + contestant_account + GNOME_D@ + contestant_account + GNOME_E@ + contestant_account + GNOME_F@ + input_sources + GNOME_G@ + NEWLINE@) =~= script_text(gnome_text(contestant_account, gdm_wayland, input_sources)));
    lemma_contains_middle(
        SCRIPT_HEADER@ + GNOME_A@ + contestant_account,
        gdm_wayland,
        GNOME_C@ + contestant_account + GNOME_D@ + contestant_account + GNOME_E@ + contestant_account + GNOME_F@ + input_sources + GNOME_G@ + NEWLINE@,
    );
    assert((SCRIPT_HEADER@ + GNOME_A@ + contestant_account) + gdm_wayland + (GNOME_C@ + contestant_account + GNOME_D@ + contestant_account + GNOME_E@ + contestant_account + GNOME_F@ + input_sources + GNOME_G@ + NEWLINE@) =~= script_text(gnome_text(contestant_account, gdm_wayland, input_sources)));
    lemma_contains_middle(
        SCRIPT_HEADER@ + GNOME_A@ + contestant_account + gdm_wayland + GNOME_C@ + contestant_account + GNOME_D@ + contestant_account + GNOME_E@ + contestant_account + GNOME_F@,
        input_sources,
        GNOME_G@ + NEWLINE@,
    );
    assert((SCRIPT_HEADER@ + GNOME_A@ + contestant_account + gdm_wayland + GNOME_C@ + contestant_account + GNOME_D@ + contestant_account + GNOME_E@ + contestant_account + GNOME_F@) + input_sources + (GNOME_G@ + NEWLINE@) =~= script_text(gnome_text(contestant_account, gdm_wayland, input_sources)));
}

proof fn lemma_disable_keyring_text_holds(contestant_account: Seq<char>)
    ensures
        contains_text(script_text(disable_keyring_text(contestant_account)), contestant_account),
{
    lemma_contains_middle(
        SCRIPT_HEADER@ + DISABLE_KEYRING_A@,
        contestant_account,
        DISABLE_KEYRING_B@ + contestant_account + DISABLE_KEYRING_C@ + contestant_account + DISABLE_KEYRING_D@ + contestant_account + DISABLE_KEYRING_E@ + NEWLINE@,
    );
    assert((SCRIPT_HEADER@ + DISABLE_KEYRING_A@) + contestant_account + (DISABLE_KEYRING_B@ + contestant_account + DISABLE_KEYRING_C@ + contestant_account + DISABLE_KEYRING_D@ + contestant_account + DISABLE_KEYRING_E@ + NEWLINE@) =~= script_text(disable_keyring_text(contestant_account)));
}

proof fn lemma_desktop_files_text_holds(contestant_account: Seq<char>)
    ensures
        contains_text(script_text(desktop_files_text(contestant_account)), contestant_account),
{
    lemma_contains_middle(
        SCRIPT_HEADER@ + DESKTOP_FILES_A@,
        contestant_account,
        DESKTOP_FILES_B@ + contestant_account + DESKTOP_FILES_C@ + contestant_account + DESKTOP_FILES_D@ + contestant_account + DESKTOP_FILES_E@ + contestant_account + DESKTOP_FILES_F@ + contestant_account + DESKTOP_FILES_G@ + NEWLINE@,
    );
    assert((SCRIPT_HEADER@ + DESKTOP_FILES_A@) + contestant_account + (DESKTOP_FILES_B@ + contestant_account + DESKTOP_FILES_C@ + contestant_account + DESKTOP_FILES_D@ + contestant_account + DESKTOP_FILES_E@ + contestant_account + DESKTOP_FILES_F@ + contestant_account + DESKTOP_FILES_G@ + NEWLINE@) =~= script_text(desktop_files_text(contestant_account)));
}

proof fn lemma_backgrounds_text_holds(orga_account: Seq<char>, contestant_account: Seq<char>)
    ensures
        contains_text(script_text(backgrounds_text(orga_account, contestant_account)), orga_account),
        contains_text(script_text(backgrounds_text(orga_account, contestant_account)), contestant_account),
{
    lemma_contains_middle(
        SCRIPT_HEADER@ + BACKGROUNDS_A@,
        orga_account,
        BACKGROUNDS_B@ + orga_account + BACKGROUNDS_C@ + orga_account + BACKGROUNDS_D@ + orga_account + BACKGROUNDS_E@ + contestant_account + BACKGROUNDS_F@ + contestant_account + BACKGROUNDS_G@ + NEWLINE@,
    );
    assert((SCRIPT_HEADER@ + BACKGROUNDS_A@) + orga_account + (BACKGROUNDS_B@ + orga_account + BACKGROUNDS_C@ + orga_account + BACKGROUNDS_D@ + orga_account + BACKGROUNDS_E@ + contestant_account + BACKGROUNDS_F@ + contestant_account + BACKGROUNDS_G@ + NEWLINE@) =~= script_text(backgrounds_text(orga_account, contestant_account)));
    lemma_contains_middle(
        SCRIPT_HEADER@ + BACKGROUNDS_A@ + orga_account + BACKGROUNDS_B@ + orga_account + BACKGROUNDS_C@ + orga_account + BACKGROUNDS_D@ + orga_account + BACKGROUNDS_E@,
        contestant_account,
        BACKGROUNDS_F@ + contestant_account + BACKGROUNDS_G@ + NEWLINE@,
    );
    assert((SCRIPT_HEADER@ + BACKGROUNDS_A@ + orga_account + BACKGROUNDS_B@ + orga_account + BACKGROUNDS_C@ + orga_account + BACKGROUNDS_D@ + orga_account + BACKGROUNDS_E@) + contestant_account + (BACKGROUNDS_F@ + contestant_account + BACKGROUNDS_G@ + NEWLINE@) =~= script_text(backgrounds_text(orga_account, contestant_account)));
}

proof fn lemma_browser_text_holds(set_homepage: Seq<char>, contestant_account: Seq<char>)
    ensures
        contains_text(script_text(browser_text(set_homepage, contestant_account)), set_homepage),
        contains_text(script_text(browser_text(set_homepage, contestant_account)), contestant_account),
{
    lemma_contains_middle(
        SCRIPT_HEADER@ + BROWSER_A@,
        set_homepage,
        BROWSER_B@ + contestant_account + BROWSER_C@ + contestant_account + BROWSER_D@ + NEWLINE@,
    );
    assert((SCRIPT_HEADER@ + BROWSER_A@) + set_homepage + (BROWSER_B@ + contestant_account + BROWSER_C@ + contestant_account + BROWSER_D@ + NEWLINE@) =~= script_text(browser_text(set_homepage, contestant_account)));
    lemma_contains_middle(
        SCRIPT_HEADER@ + BROWSER_A@ + set_homepage + BROWSER_B@,
        contestant_account,
        BROWSER_C@ + contestant_account + BROWSER_D@ + NEWLINE@,
    );
    assert((SCRIPT_HEADER@ + BROWSER_A@ + set_homepage + BROWSER_B@) + contestant_account + (BROWSER_C@ + contestant_account + BROWSER_D@ + NEWLINE@) =~= script_text(browser_text(set_homepage, contestant_account)));
}

proof fn lemma_pycharm_text_holds(contestant_account: Seq<char>)
    ensures
        contains_text(script_text(pycharm_text(contestant_account)), contestant_account),
{
    lemma_contains_middle(
        SCRIPT_HEADER@ + PYCHARM_A@,
        contestant_account,
        PYCHARM_B@ + contestant_account + PYCHARM_C@ + NEWLINE@,
    );
    assert((SCRIPT_HEADER@ + PYCHARM_A@) + contestant_account + (PYCHARM_B@ + contestant_account + PYCHARM_C@ + NEWLINE@) =~= script_text(pycharm_text(contestant_account)));
}

proof fn lemma_vscode_text_holds(contestant_account: Seq<char>)
    ensures
        contains_text(script_text(vscode_text(contestant_account)), contestant_account),
{
    lemma_contains_middle(
        SCRIPT_HEADER@ + VSCODE_A@,
        contestant_account,
        VSCODE_B@ + contestant_account + VSCODE_C@ + contestant_account + VSCODE_D@ + contestant_account + VSCODE_E@ + contestant_account + VSCODE_F@ + NEWLINE@,
    );
    assert((SCRIPT_HEADER@ + VSCODE_A@) + contestant_account + (VSCODE_B@ + contestant_account + VSCODE_C@ + contestant_account + VSCODE_D@ + contestant_account + VSCODE_E@ + contestant_account + VSCODE_F@ + NEWLINE@) =~= script_text(vscode_text(contestant_account)));
}

proof fn lemma_lockdown_text_holds(server_ip: Seq<char>, orga_net: Seq<char>)
    ensures
        contains_text(script_text(lockdown_text(server_ip, orga_net)), server_ip),
        contains_text(script_text(lockdown_text(server_ip, orga_net)), orga_net),
{
    lemma_contains_middle(
        SCRIPT_HEADER@ + LOCKDOWN_A@,
        server_ip,
        LOCKDOWN_B@ + orga_net + LOCKDOWN_C@ + NEWLINE@,
    );
    assert((SCRIPT_HEADER@ + LOCKDOWN_A@) + server_ip + (LOCKDOWN_B@ + orga_net + LOCKDOWN_C@ + NEWLINE@) =~= script_text(lockdown_text(server_ip, orga_net)));
    lemma_contains_middle(
        SCRIPT_HEADER@ + LOCKDOWN_A@ + server_ip + LOCKDOWN_B@,
        orga_net,
        LOCKDOWN_C@ + NEWLINE@,
    );
    assert((SCRIPT_HEADER@ + LOCKDOWN_A@ + server_ip + LOCKDOWN_B@) + orga_net + (LOCKDOWN_C@ + NEWLINE@) =~= script_text(lockdown_text(server_ip, orga_net)));
}

/// The script `30-fix-mirrors` of the pre-install stage holds, somewhere in its text, every option
/// value it is made from.
pub proof fn law_fix_mirrors_script_values(a: ArgsView)
    ensures
        a.pin_packages is Some ==> writes_script_containing(pre_install_plan(a), FIX_MIRRORS_SCRIPT@, a.pin_packages->0),
{
    if a.pin_packages is Some {
        let s = pre_install_plan(a)[(if !a.nowait { 1int } else { 0int }) + 3];
        assert(s == pre_script(FIX_MIRRORS_SCRIPT@, fix_mirrors_text(a.pin_packages->0)));
        lemma_fix_mirrors_text_holds(a.pin_packages->0);
    }
}

/// The script `70-sshd` of the accounts stage holds, somewhere in its text, every option
/// value it is made from.
pub proof fn law_sshd_script_values(a: ArgsView)
    ensures
        writes_script_containing(setup_users_plan(a), SSHD_SCRIPT@, authorized_keys_body(a.ssh_github, a.ssh)),
{
    let s = setup_users_plan(a)[0];
    assert(s == post_script(SSHD_SCRIPT@, sshd_text(authorized_keys_body(a.ssh_github, a.ssh))));
    lemma_sshd_text_holds(authorized_keys_body(a.ssh_github, a.ssh));
}

/// The script `80-contestant` of the accounts stage holds, somewhere in its text, every option
/// value it is made from.
pub proof fn law_contestant_script_values(a: ArgsView)
    ensures
        writes_script_containing(setup_users_plan(a), CONTESTANT_SCRIPT@, a.contestant_account),
{
    let s = setup_users_plan(a)[1];
    assert(s == post_script(CONTESTANT_SCRIPT@, contestant_text(a.contestant_account)));
    lemma_contestant_text_holds(a.contestant_account);
}

/// The script `80-orga` of the accounts stage holds, somewhere in its text, every option
/// value it is made from.
pub proof fn law_orga_script_values(a: ArgsView)
    ensures
        writes_script_containing(setup_users_plan(a), ORGA_SCRIPT@, a.orga_account),
        writes_script_containing(setup_users_plan(a), ORGA_SCRIPT@, a.password),
{
    let s = setup_users_plan(a)[2];
    assert(s == post_script(ORGA_SCRIPT@, orga_text(a.orga_account, a.password)));
    lemma_orga_text_holds(a.orga_account, a.password);
}

/// The script `81-additional-user-files` of the files stage holds, somewhere in its text, every option
/// value it is made from.
pub proof fn law_additional_user_files_script_values(a: ArgsView)
    ensures
        a.additional_user_files.len() != 0 ==> writes_script_containing(additional_user_files_plan(a), ADDITIONAL_USER_FILES_SCRIPT@, a.contestant_account),
{
    if a.additional_user_files.len() != 0 {
        let s = additional_user_files_plan(a)[a.additional_user_files.len() + 1int];
        assert(s == post_script(ADDITIONAL_USER_FILES_SCRIPT@, additional_user_files_text(a.contestant_account)));
        lemma_additional_user_files_text_holds(a.contestant_account);
    }
}

/// The script `00-pixie-ping` of the base stage holds, somewhere in its text, every option
/// value it is made from.
pub proof fn law_pixie_ping_script_values(a: ArgsView)
    ensures
        a.pixie ==> writes_script_containing(base_setup_plan(a), PIXIE_PING_SCRIPT@, a.orga_account),
{
    if a.pixie {
        let s = base_setup_plan(a)[0];
        assert(s == post_script(PIXIE_PING_SCRIPT@, pixie_ping_text(a.orga_account)));
        lemma_pixie_ping_text_holds(a.orga_account);
    }
}

/// The script `00-hosts` of the base stage holds, somewhere in its text, every option
/// value it is made from.
pub proof fn law_hosts_script_values(a: ArgsView)
    ensures
        writes_script_containing(base_setup_plan(a), HOSTS_SCRIPT@, a.server_ip),
        writes_script_containing(base_setup_plan(a), HOSTS_SCRIPT@, hosts_line(a.additional_server_names)),
{
    let s = base_setup_plan(a)[(if a.pixie { 1int } else { 0int }) + 1];
    assert(s == post_script(HOSTS_SCRIPT@, hosts_text(a.server_ip, hosts_line(a.additional_server_names))));
    lemma_hosts_text_holds(a.server_ip, hosts_line(a.additional_server_names));
}

/// The script `00-time` of the base stage holds, somewhere in its text, every option
/// value it is made from.
pub proof fn law_time_script_values(a: ArgsView)
    ensures
        writes_script_containing(base_setup_plan(a), TIME_SCRIPT@, a.timezone),
{
    let s = base_setup_plan(a)[(if a.pixie { 1int } else { 0int }) + (if a.node_exporter { 1int } else { 0int }) + 2];
    assert(s == post_script(TIME_SCRIPT@, time_text(a.timezone)));
    lemma_time_text_holds(a.timezone);
}

/// The script `00-locale` of the base stage holds, somewhere in its text, every option
/// value it is made from.
pub proof fn law_locale_script_values(a: ArgsView)
    ensures
        writes_script_containing(base_setup_plan(a), LOCALE_SCRIPT@, a.locale),
        writes_script_containing(base_setup_plan(a), LOCALE_SCRIPT@, gnome_locale_line(a.gnome_locale)),
{
    let s = base_setup_plan(a)[(if a.pixie { 1int } else { 0int }) + (if a.node_exporter { 1int } else { 0int }) + 3];
    assert(s == post_script(LOCALE_SCRIPT@, locale_text(a.locale, gnome_locale_line(a.gnome_locale))));
    lemma_locale_text_holds(a.locale, gnome_locale_line(a.gnome_locale));
}

/// The script `85-gnome` of the desktop stage holds, somewhere in its text, every option
/// value it is made from.
pub proof fn law_gnome_script_values(a: ArgsView)
    ensures
        writes_script_containing(base_gui_setup_plan(a), GNOME_SCRIPT@, a.contestant_account),
        writes_script_containing(base_gui_setup_plan(a), GNOME_SCRIPT@, gdm_wayland_line(a.disable_wayland)),
        writes_script_containing(base_gui_setup_plan(a), GNOME_SCRIPT@, input_sources_line(a.keyboard_layout)),
{
    let s = base_gui_setup_plan(a)[1];
    assert(s == post_script(GNOME_SCRIPT@, gnome_text(a.contestant_account, gdm_wayland_line(a.disable_wayland), input_sources_line(a.keyboard_layout))));
    lemma_gnome_text_holds(a.contestant_account, gdm_wayland_line(a.disable_wayland), input_sources_line(a.keyboard_layout));
}

/// The script `87-disable-keyring` of the desktop stage holds, somewhere in its text, every option
/// value it is made from.
pub proof fn law_disable_keyring_script_values(a: ArgsView)
    ensures
        writes_script_containing(base_gui_setup_plan(a), DISABLE_KEYRING_SCRIPT@, a.contestant_account),
{
    let s = base_gui_setup_plan(a)[2];
    assert(s == post_script(DISABLE_KEYRING_SCRIPT@, disable_keyring_text(a.contestant_account)));
    lemma_disable_keyring_text_holds(a.contestant_account);
}

/// The script `89-desktop-files` of the desktop stage holds, somewhere in its text, every option
/// value it is made from.
pub proof fn law_desktop_files_script_values(a: ArgsView)
    ensures
        writes_script_containing(base_gui_setup_plan(a), DESKTOP_FILES_SCRIPT@, a.contestant_account),
{
    let s = base_gui_setup_plan(a)[(if a.disable_wayland { 1int } else { 0int }) + (if a.virtualbox { 1int } else { 0int }) + 3];
    assert(s == post_script(DESKTOP_FILES_SCRIPT@, desktop_files_text(a.contestant_account)));
    lemma_desktop_files_text_holds(a.contestant_account);
}

/// The script `86-browser` of the browser stage holds, somewhere in its text, every option
/// value it is made from.
pub proof fn law_browser_script_values(a: ArgsView)
    ensures
        writes_script_containing(browser_plan(a), BROWSER_SCRIPT@, homepage_line(a.homepage)),
        writes_script_containing(browser_plan(a), BROWSER_SCRIPT@, a.contestant_account),
{
    let s = browser_plan(a)[0];
    assert(s == post_script(BROWSER_SCRIPT@, browser_text(homepage_line(a.homepage), a.contestant_account)));
    lemma_browser_text_holds(homepage_line(a.homepage), a.contestant_account);
}

/// The script `86-pycharm` of the editors stage holds, somewhere in its text, every option
/// value it is made from.
pub proof fn law_pycharm_script_values(a: ArgsView)
    ensures
        a.pycharm ==> writes_script_containing(editors_plan(a), PYCHARM_SCRIPT@, a.contestant_account),
{
    if a.pycharm {
        let s = editors_plan(a)[2];
        assert(s == post_script(PYCHARM_SCRIPT@, pycharm_text(a.contestant_account)));
        lemma_pycharm_text_holds(a.contestant_account);
    }
}

/// The script `86-vscode` of the editors stage holds, somewhere in its text, every option
/// value it is made from.
pub proof fn law_vscode_script_values(a: ArgsView)
    ensures
        writes_script_containing(editors_plan(a), VSCODE_SCRIPT@, a.contestant_account),
{
    let s = editors_plan(a)[(if a.pycharm { 1int } else { 0int }) + (if a.codeblocks { 1int } else { 0int }) + 2];
    assert(s == post_script(VSCODE_SCRIPT@, vscode_text(a.contestant_account)));
    lemma_vscode_text_holds(a.contestant_account);
}

/// The script `80-lockdown` of the lockdown stage holds, somewhere in its text, every option
/// value it is made from.
pub proof fn law_lockdown_script_values(a: ArgsView)
    ensures
        !a.no_lockdown ==> writes_script_containing(lockdown_plan(a), LOCKDOWN_SCRIPT@, a.server_ip),
        !a.no_lockdown ==> writes_script_containing(lockdown_plan(a), LOCKDOWN_SCRIPT@, a.orga_net),
{
    if !a.no_lockdown {
        let s = lockdown_plan(a)[0];
        assert(s == post_script(LOCKDOWN_SCRIPT@, lockdown_text(a.server_ip, a.orga_net)));
        lemma_lockdown_text_holds(a.server_ip, a.orga_net);
    }
}

/// The background stage refuses exactly when backgrounds are asked for without a default
/// image. Otherwise it writes the background script exactly when backgrounds are asked for,
/// copies the given default image into the profile, and the script names both accounts.
pub proof fn law_backgrounds_stage(a: ArgsView)
    ensures
        backgrounds_plan(a) is Err <==> a.backgrounds && a.default_background is None,
        backgrounds_plan(a) is Ok ==> (writes_script(backgrounds_plan(a)->Ok_0, BACKGROUNDS_SCRIPT@)
            <==> a.backgrounds),
        backgrounds_plan(a) is Ok && a.backgrounds ==> backgrounds_plan(a)->Ok_0.contains(
            StepModel::CopyFile {
                from: a.default_background->0,
                to: under_root(DEFAULT_BACKGROUND_PATH@),
            },
        ),
        backgrounds_plan(a) is Ok && a.backgrounds ==> writes_script_containing(
            backgrounds_plan(a)->Ok_0,
            BACKGROUNDS_SCRIPT@,
            a.orga_account,
        ) && writes_script_containing(
            backgrounds_plan(a)->Ok_0,
            BACKGROUNDS_SCRIPT@,
            a.contestant_account,
        ),
{
    if backgrounds_plan(a) is Ok {
        let bg = backgrounds_plan(a)->Ok_0;
        if a.backgrounds {
            assert(bg[0] == StepModel::CopyFile {
                from: a.default_background->0,
                to: under_root(DEFAULT_BACKGROUND_PATH@),
            });
            let s = bg[1];
            assert(s == post_script(
                BACKGROUNDS_SCRIPT@,
                backgrounds_text(a.orga_account, a.contestant_account),
            ));
            lemma_backgrounds_text_holds(a.orga_account, a.contestant_account);
            assert(is_script(bg[1]) && script_name(bg[1]) == BACKGROUNDS_SCRIPT@);
        } else {
            assert(bg.len() == 0);
        }
    }
}

} // verus!
