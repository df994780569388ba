use vstd::prelude::*;

use crate::args::{strings_view, Args, ArgsView};
use crate::util::{
    add_post_script, append_each, copies_into, iso_root, join, post_script, push_copies_into,
    steps_view, under_root, wrapped_concat, Step, StepModel,
};

verus! {

/// Where, below the profile root, the files for the contestant's home are placed.
pub const USER_FILES_DIR: &'static str = "install/additional_user_files";

/// Text in front of a GitHub user name in the command that fetches that user's keys.
pub const GITHUB_KEYS_A: &'static str = "\ncurl https://github.com/";

/// Text behind a GitHub user name in the command that fetches that user's keys.
pub const GITHUB_KEYS_B: &'static str = ".keys";

/// Text in front of an SSH public key in the command that prints it.
pub const SSH_KEY_A: &'static str = "\necho ";

/// The body of the shell function that prints the authorized keys: one command per GitHub
/// user, in order, then one per given key, in order.
pub open spec fn authorized_keys_body(github: Seq<Seq<char>>, ssh: Seq<Seq<char>>) -> Seq<char> {
    wrapped_concat(github, GITHUB_KEYS_A@, GITHUB_KEYS_B@) + wrapped_concat(
        ssh,
        SSH_KEY_A@,
        Seq::empty(),
    )
}

/// Name of the script `81-additional-user-files`.
pub const ADDITIONAL_USER_FILES_SCRIPT: &'static str = "81-additional-user-files";

/// A fixed part of the script `81-additional-user-files`.
pub const ADDITIONAL_USER_FILES_A: &'static str = "cp -av /install/additional_user_files/* ~";

/// Contents of the script `81-additional-user-files`.
pub open spec fn additional_user_files_text(contestant_account: Seq<char>) -> Seq<char> {
    ADDITIONAL_USER_FILES_A@ + contestant_account
}

/// Renders the contents of the script `81-additional-user-files`.
pub fn make_additional_user_files(contestant_account: &str) -> (r: String)
    ensures
        r@ == additional_user_files_text(contestant_account@),
{
    let mut r = String::from_str(ADDITIONAL_USER_FILES_A);
    r.append(contestant_account);
    r
}

/// Name of the script `70-sshd`.
pub const SSHD_SCRIPT: &'static str = "70-sshd";

/// A fixed part of the script `70-sshd`.
pub const SSHD_A: &'static str = r#"
pacman -S --noconfirm openssh rsync
systemctl enable sshd
gen_authorized_keys() {
    "#;

/// A fixed part of the script `70-sshd`.
pub const SSHD_B: &'static str = r#"
}
mkdir -p /root/.ssh /etc/skel/.ssh
gen_authorized_keys > /root/.ssh/authorized_keys
cp /root/.ssh/authorized_keys /etc/skel/.ssh/authorized_keys
"#;

/// Contents of the script `70-sshd`.
pub open spec fn sshd_text(gen_authorized_keys: Seq<char>) -> Seq<char> {
    SSHD_A@ + gen_authorized_keys + SSHD_B@
}

/// Renders the contents of the script `70-sshd`.
pub fn make_sshd(gen_authorized_keys: &str) -> (r: String)
    ensures
        r@ == sshd_text(gen_authorized_keys@),
{
    let mut r = String::from_str(SSHD_A);
    r.append(gen_authorized_keys);
    r.append(SSHD_B);
    r
}

/// Name of the script `80-contestant`.
pub const CONTESTANT_SCRIPT: &'static str = "80-contestant";

/// A fixed part of the script `80-contestant`.
pub const CONTESTANT_A: &'static str = "useradd -m ";

/// A fixed part of the script `80-contestant`.
pub const CONTESTANT_B: &'static str = "\necho ";

/// A fixed part of the script `80-contestant`.
pub const CONTESTANT_C: &'static str = " | passwd -s ";

/// Contents of the script `80-contestant`.
pub open spec fn contestant_text(contestant_account: Seq<char>) -> Seq<char> {
    CONTESTANT_A@ + contestant_account + CONTESTANT_B@ + contestant_account + CONTESTANT_C@
        + contestant_account
}

/// Renders the contents of the script `80-contestant`.
pub fn make_contestant(contestant_account: &str) -> (r: String)
    ensures
        r@ == contestant_text(contestant_account@),
{
    let mut r = String::from_str(CONTESTANT_A);
    r.append(contestant_account);
    r.append(CONTESTANT_B);
    r.append(contestant_account);
    r.append(CONTESTANT_C);
    r.append(contestant_account);
    r
}

/// Name of the script `80-orga`.
pub const ORGA_SCRIPT: &'static str = "80-orga";

/// A fixed part of the script `80-orga`.
pub const ORGA_A: &'static str = r#"
pacman -S --noconfirm sudo
useradd -m "#;

/// A fixed part of the script `80-orga`.
pub const ORGA_B: &'static str = r#"
echo ""#;

/// A fixed part of the script `80-orga`.
pub const ORGA_C: &'static str = r#"" | passwd -s "#;

/// A fixed part of the script `80-orga`.
pub const ORGA_D: &'static str = r#"
echo ""#;

/// A fixed part of the script `80-orga`.
pub const ORGA_E: &'static str = r#"" | passwd -s root
echo ""#;

/// A fixed part of the script `80-orga`.
pub const ORGA_F: &'static str = r#" ALL=(ALL:ALL) NOPASSWD: ALL" > /etc/sudoers.d/orga_account
"#;

/// Contents of the script `80-orga`.
pub open spec fn orga_text(orga_account: Seq<char>, password: Seq<char>) -> Seq<char> {
    ORGA_A@ + orga_account + ORGA_B@ + password + ORGA_C@ + orga_account + ORGA_D@ + password
        + ORGA_E@ + orga_account + ORGA_F@
}

/// Renders the contents of the script `80-orga`.
pub fn make_orga(orga_account: &str, password: &str) -> (r: String)
    ensures
        r@ == orga_text(orga_account@, password@),
{
    let mut r = String::from_str(ORGA_A);
    r.append(orga_account);
    r.append(ORGA_B);
    r.append(password);
    r.append(ORGA_C);
    r.append(orga_account);
    r.append(ORGA_D);
    r.append(password);
    r.append(ORGA_E);
    r.append(orga_account);
    r.append(ORGA_F);
    r
}

/// The files stage: the directory for the contestant's extra files, a copy of each of them,
/// and, when there is at least one, the script that puts them in the contestant's home.
pub open spec fn additional_user_files_plan(a: ArgsView) -> Seq<StepModel> {
    seq![StepModel::CreateDir { path: under_root(USER_FILES_DIR@) }] + copies_into(
        a.additional_user_files,
        under_root(USER_FILES_DIR@),
    ) + (if a.additional_user_files.len() == 0 {
        Seq::empty()
    } else {
        seq![post_script(ADDITIONAL_USER_FILES_SCRIPT@, additional_user_files_text(a.contestant_account))]
    })
}

/// The accounts stage: SSH access with the authorized keys, the contestant and the organizer.
pub open spec fn setup_users_plan(a: ArgsView) -> Seq<StepModel> {
    seq![
        post_script(SSHD_SCRIPT@, sshd_text(authorized_keys_body(a.ssh_github, a.ssh))),
        post_script(CONTESTANT_SCRIPT@, contestant_text(a.contestant_account)),
        post_script(ORGA_SCRIPT@, orga_text(a.orga_account, a.password)),
    ]
}

/// The steps that bring the contestant's extra files into the image.
pub fn additional_user_files(args: &Args) -> (r: Vec<Step>)
    ensures
        steps_view(r@) == additional_user_files_plan(args@),
{
    let file_dir = join(iso_root(), USER_FILES_DIR);
    let mut steps: Vec<Step> = Vec::new();
    steps.push(Step::CreateDir { path: file_dir.clone() });
    let ghost first = steps_view(steps@);
    push_copies_into(&mut steps, &args.additional_user_files, &file_dir);
    let ghost second = steps_view(steps@);
    if args.additional_user_files.len() != 0 {
        let text = make_additional_user_files(args.contestant_account.as_str());
        steps.push(add_post_script(ADDITIONAL_USER_FILES_SCRIPT, text.as_str()));
    }
    proof {
        assert(first =~= seq![StepModel::CreateDir { path: under_root(USER_FILES_DIR@) }]);
        assert(steps_view(steps@) =~= additional_user_files_plan(args@));
    }
    steps
}

/// The body of the shell function that prints the authorized keys.
pub fn make_authorized_keys_body(github: &Vec<String>, ssh: &Vec<String>) -> (r: String)
    ensures
        r@ == authorized_keys_body(strings_view(github@), strings_view(ssh@)),
{
    let mut r = String::new();
    append_each(&mut r, github, GITHUB_KEYS_A, GITHUB_KEYS_B);
    append_each(&mut r, ssh, SSH_KEY_A, "");
    proof {
        reveal_strlit("");
        assert(""@ =~= Seq::<char>::empty());
        assert(r@ =~= authorized_keys_body(strings_view(github@), strings_view(ssh@)));
    }
    r
}

/// The steps that set up SSH access and the accounts.
pub fn setup_users(args: &Args) -> (r: Vec<Step>)
    ensures
        steps_view(r@) == setup_users_plan(args@),
{
    let mut steps: Vec<Step> = Vec::new();
    let keys = make_authorized_keys_body(&args.ssh_github, &args.ssh);
    let text = make_sshd(keys.as_str());
    steps.push(add_post_script(SSHD_SCRIPT, text.as_str()));
    let text = make_contestant(args.contestant_account.as_str());
    steps.push(add_post_script(CONTESTANT_SCRIPT, text.as_str()));
    let text = make_orga(args.orga_account.as_str(), args.password.as_str());
    steps.push(add_post_script(ORGA_SCRIPT, text.as_str()));
    proof {
        assert(steps_view(steps@) =~= setup_users_plan(args@));
    }
    steps
}

/// Each given SSH key adds one line that prints it, at the end of the authorized keys,
/// whatever the GitHub users are.
pub proof fn law_authorized_keys_each_key(
    github: Seq<Seq<char>>,
    ssh: Seq<Seq<char>>,
    key: Seq<char>,
)
    ensures
        authorized_keys_body(github, ssh.push(key)) == authorized_keys_body(github, ssh) + SSH_KEY_A@
            + key,
{
    assert(ssh.push(key).drop_last() =~= ssh);
    assert(ssh.push(key).last() == key);
    reveal_strlit("");
    assert(wrapped_concat(ssh.push(key), SSH_KEY_A@, Seq::empty()) =~= wrapped_concat(
        ssh,
        SSH_KEY_A@,
        Seq::empty(),
    ) + SSH_KEY_A@ + key);
    assert(authorized_keys_body(github, ssh.push(key)) =~= authorized_keys_body(github, ssh)
        + SSH_KEY_A@ + key);
}

/// Each GitHub user adds one command that fetches that user's keys, after those of the
/// users before it.
pub proof fn law_authorized_keys_each_user(github: Seq<Seq<char>>, user: Seq<char>)
    ensures
        authorized_keys_body(github.push(user), Seq::empty()) == authorized_keys_body(
            github,
            Seq::empty(),
        ) + GITHUB_KEYS_A@ + user + GITHUB_KEYS_B@,
{
    assert(github.push(user).drop_last() =~= github);
    assert(authorized_keys_body(github.push(user), Seq::empty()) =~= authorized_keys_body(
        github,
        Seq::empty(),
    ) + GITHUB_KEYS_A@ + user + GITHUB_KEYS_B@);
}

/// The commands for the GitHub users all come first, then those for the given keys: each
/// list is handled the same whatever the other holds.
pub proof fn law_authorized_keys_users_then_keys(github: Seq<Seq<char>>, ssh: Seq<Seq<char>>)
    ensures
        authorized_keys_body(github, ssh) == authorized_keys_body(github, Seq::empty())
            + authorized_keys_body(Seq::empty(), ssh),
{
    assert(authorized_keys_body(github, ssh) =~= authorized_keys_body(github, Seq::empty())
        + authorized_keys_body(Seq::empty(), ssh));
}

/// Without GitHub users and keys, no key is authorized: the body is empty.
pub proof fn law_authorized_keys_none()
    ensures
        authorized_keys_body(Seq::empty(), Seq::empty()) == Seq::<char>::empty(),
{
    assert(authorized_keys_body(Seq::empty(), Seq::empty()) =~= Seq::<char>::empty());
}

/// Every given file is copied into the files directory of the profile, and nothing else is
/// copied there.
pub proof fn law_every_user_file_copied(a: ArgsView)
    ensures
        forall|i: int|
            0 <= i < a.additional_user_files.len() ==> #[trigger] additional_user_files_plan(
                a,
            ).contains(StepModel::CopyInto {
                from: a.additional_user_files[i],
                dir: under_root(USER_FILES_DIR@),
            }),
        forall|j: int|
            0 <= j < additional_user_files_plan(a).len() && additional_user_files_plan(
                a,
            )[j] is CopyInto ==> a.additional_user_files.contains(
                #[trigger] additional_user_files_plan(a)[j]->CopyInto_from,
            ),
{
    let plan = additional_user_files_plan(a);
    let files = a.additional_user_files;
    assert forall|i: int| 0 <= i < files.len() implies #[trigger] additional_user_files_plan(
        a,
    ).contains(StepModel::CopyInto { from: files[i], dir: under_root(USER_FILES_DIR@) }) by {
        assert(plan[i + 1] == StepModel::CopyInto { from: files[i], dir: under_root(USER_FILES_DIR@) });
    }
    assert forall|j: int| 0 <= j < plan.len() && plan[j] is CopyInto implies files.contains(
        #[trigger] additional_user_files_plan(a)[j]->CopyInto_from,
    ) by {
        assert(1 <= j <= files.len());
        assert(plan[j]->CopyInto_from == files[j - 1]);
    }
}

} // verus!
