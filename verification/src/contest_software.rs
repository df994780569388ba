use vstd::prelude::*;

use crate::args::{strings_view, Args, ArgsView};
use crate::util::{
    add_post_script, copies_into, ensure_paru, ensure_paru_plan, iso_root, join, post_script,
    push_copies_into, steps_view, under_root, Step, StepModel,
};

verus! {

/// Where, below the profile root, the extra CA certificates are placed.
pub const CA_CERTIFICATES_DIR: &'static str = "install/ca-certificates";

/// Text in front of the homepage in the Firefox preference that pins it.
pub const HOMEPAGE_A: &'static str = r#"lockPref("browser.startup.homepage", ""#;

/// Text behind the homepage in the Firefox preference that pins it.
pub const HOMEPAGE_B: &'static str = r#"");"#;

/// The Firefox preference line that pins the homepage; empty without one.
pub open spec fn homepage_line(homepage: Option<Seq<char>>) -> Seq<char> {
    match homepage {
        Some(home) => HOMEPAGE_A@ + home + HOMEPAGE_B@,
        None => Seq::empty(),
    }
}

/// Name of the script `86-compilers`.
pub const COMPILERS_SCRIPT: &'static str = "86-compilers";

/// Contents of the script `86-compilers`.
pub const COMPILERS_TEXT: &'static str = "pacman -S --noconfirm base-devel pypy pypy3 python clang";

/// Name of the script `86-debuggers`.
pub const DEBUGGERS_SCRIPT: &'static str = "86-debuggers";

/// Contents of the script `86-debuggers`.
pub const DEBUGGERS_TEXT: &'static str = "pacman -S --noconfirm gdb valgrind perf";

/// Name of the script `86-browser`.
pub const BROWSER_SCRIPT: &'static str = "86-browser";

/// A fixed part of the script `86-browser`.
pub const BROWSER_A: &'static str = r#"
pacman -S --noconfirm firefox
cat > /usr/lib/firefox/defaults/pref/autoconfig.js << EOF
pref("general.config.filename", "firefox.cfg");
pref("general.config.obscure_value", 0);
EOF
cat > /usr/lib/firefox/firefox.cfg << EOF
//
lockPref("extensions.pocket.enabled", false);
lockPref("browser.newtabpage.activity-stream.feeds.section.topstories", false);
lockPref("trailhead.firstrun.branches", "nofirstrun-empty");
lockPref("browser.aboutwelcome.enabled", false);
lockPref("browser.startup.homepage_override.mstone", "ignore");
lockPref("datareporting.policy.dataSubmissionPolicyBypassNotification", true);
"#;

/// A fixed part of the script `86-browser`.
pub const BROWSER_B: &'static str = r#"
EOF
sudo -u "#;

/// A fixed part of the script `86-browser`.
pub const BROWSER_C: &'static str = r#" cp /usr/share/applications/firefox.desktop ~"#;

/// A fixed part of the script `86-browser`.
pub const BROWSER_D: &'static str = r#"/Desktop
"#;

/// Contents of the script `86-browser`.
pub open spec fn browser_text(set_homepage: Seq<char>, contestant_account: Seq<char>) -> Seq<char> {
    BROWSER_A@ + set_homepage + BROWSER_B@ + contestant_account + BROWSER_C@ + contestant_account
        + BROWSER_D@
}

/// Renders the contents of the script `86-browser`.
pub fn make_browser(set_homepage: &str, contestant_account: &str) -> (r: String)
    ensures
        r@ == browser_text(set_homepage@, contestant_account@),
{
    let mut r = String::from_str(BROWSER_A);
    r.append(set_homepage);
    r.append(BROWSER_B);
    r.append(contestant_account);
    r.append(BROWSER_C);
    r.append(contestant_account);
    r.append(BROWSER_D);
    r
}

/// Name of the script `87-ca-certificates`.
pub const CA_CERTIFICATES_SCRIPT: &'static str = "87-ca-certificates";

/// Contents of the script `87-ca-certificates`.
pub const CA_CERTIFICATES_TEXT: &'static str = r#"
for cert in /install/ca-certificates/*
do
    trust anchor $cert
done
update-ca-trust
"#;

/// Name of the script `86-editors`.
pub const EDITORS_SCRIPT: &'static str = "86-editors";

/// Contents of the script `86-editors`.
pub const EDITORS_TEXT: &'static str = "pacman -S --noconfirm emacs geany gedit gvim neovim kate kdevelop nano";

/// Name of the script `86-pycharm`.
pub const PYCHARM_SCRIPT: &'static str = "86-pycharm";

/// A fixed part of the script `86-pycharm`.
pub const PYCHARM_A: &'static str = r#"
pacman -S --noconfirm pycharm-community-edition
cd ~"#;

/// A fixed part of the script `86-pycharm`.
pub const PYCHARM_B: &'static str = r#"
sudo -u "#;

/// A fixed part of the script `86-pycharm`.
pub const PYCHARM_C: &'static str = r#" bash << AS_CONTESTANT
set -xe
mkdir -p .config/JetBrains/PyCharmCE2025.1/options/
cat > .config/JetBrains/PyCharmCE2025.1/options/other.xml << EOF
<application>
  <component name="LangManager">
    <option name="languageName" value="Python" />
  </component>
  <component name="NotRoamableUiSettings">
    <option name="presentationModeIdeScale" value="1.75" />
  </component>
  <component name="PropertyService"><![CDATA[{
  "keyToString": {
    "PyCharm.InitialConfiguration": "true",
    "PyCharm.InitialConfiguration.V2": "true",
    "PyCharm.InitialConfiguration.V3": "true",
    "PyCharm.InitialConfiguration.V4": "true",
    "PyCharm.InitialConfiguration.V5": "true",
    "PyCharm.InitialConfiguration.V6": "true",
    "PyCharm.InitialConfiguration.V7": "true",
    "PyCharm.InitialConfiguration.V8": "true",
    "ask.about.ctrl.y.shortcut.v2": "true",
    "experimental.ui.on.first.startup": "true",
    "experimental.ui.used.version": "251.26094.141",
    "experimentalFeature.terminal.shell.command.handling": "false",
    "fileTypeChangedCounter": "2",
    "fontSizeToResetConsole": "13.0",
    "fontSizeToResetEditor": "13.0",
    "ift.hide.welcome.screen.promo": "true",
    "ignore.ide.script.launcher.used": "true",
    "input.method.disabler.muted": "true",
    "previousColorScheme": "_@user_Dark",
    "registry.to.advanced.settings.migration.build": "PC-251.26094.141",
    "terminal.gen.one.option.visible": "false",
    "whats.new.last.shown.version": "9999-1.2-26094-6f065183c835868e278363490753d1b84b4aeb30"
  },
  "keyToStringList": {
    "fileTypeDetectors": [
      "com.intellij.ide.scratch.ScratchFileServiceImpl\\\$Detector",
      "org.jetbrains.plugins.textmate.TextMateFileType\\\$TextMateFileDetector"
    ]
  }
}]]></component>
</application>
EOF

cat > .config/JetBrains/PyCharmCE2025.1/options/actionSummary.xml << EOF
<application>
  <component name="ActionsLocalSummary">
    <e n="com.intellij.ide.startup.importSettings.chooser.productChooser.SkipImportAction">
      <i c="1" l="1752005559715" />
    </e>
  </component>
</application>
EOF

JAVA_PREF_DIR=.java/.userPrefs/jetbrains/_\!\(\!\!cg\"p\!\(\}\!\}@\"j\!\(k\!\|w\"w\!\'8\!b\!\"p\!\'\:\!e@\=\=/
mkdir -p \$JAVA_PREF_DIR
cat > \$JAVA_PREF_DIR/prefs.xml << EOF
<!DOCTYPE map SYSTEM "http://java.sun.com/dtd/preferences.dtd">
<map MAP_XML_VERSION="1.0">
  <entry key="euacommunity_accepted_version" value="1.0"/>
</map>
EOF
mkdir -p .local/share/JetBrains/consentOptions/
echo -n "rsch.send.usage.stat:1.1:0:1752009309526" > .local/share/JetBrains/consentOptions/accepted
AS_CONTESTANT
"#;

/// Contents of the script `86-pycharm`.
pub open spec fn pycharm_text(contestant_account: Seq<char>) -> Seq<char> {
    PYCHARM_A@ + contestant_account + PYCHARM_B@ + contestant_account + PYCHARM_C@
}

/// Renders the contents of the script `86-pycharm`.
pub fn make_pycharm(contestant_account: &str) -> (r: String)
    ensures
        r@ == pycharm_text(contestant_account@),
{
    let mut r = String::from_str(PYCHARM_A);
    r.append(contestant_account);
    r.append(PYCHARM_B);
    r.append(contestant_account);
    r.append(PYCHARM_C);
    r
}

/// Name of the script `86-codeblocks`.
pub const CODEBLOCKS_SCRIPT: &'static str = "86-codeblocks";

/// Contents of the script `86-codeblocks`.
pub const CODEBLOCKS_TEXT: &'static str = "pacman -S --noconfirm codeblocks xterm";

/// Name of the script `86-vscode`.
pub const VSCODE_SCRIPT: &'static str = "86-vscode";

/// A fixed part of the script `86-vscode`.
pub const VSCODE_A: &'static str = r#"
pacman -S --noconfirm sqlite3
sudo -u paruuser paru -S --noconfirm visual-studio-code-bin
sudo -u "#;

/// A fixed part of the script `86-vscode`.
pub const VSCODE_B: &'static str = r#" bash << EOF
set -xe
code --install-extension ms-python.python
code --install-extension ms-vscode.cpptools
code --install-extension vscodevim.vim
mkdir -p ~"#;

/// A fixed part of the script `86-vscode`.
pub const VSCODE_C: &'static str = r#"/.config/Code/User/globalStorage/
sqlite3 ~"#;

/// A fixed part of the script `86-vscode`.
pub const VSCODE_D: &'static str = r#"/.config/Code/User/globalStorage/state.vscdb << SQLITE
CREATE TABLE IF NOT EXISTS ItemTable (key TEXT UNIQUE ON CONFLICT REPLACE, value BLOB);
INSERT INTO ItemTable VALUES('extensionsIdentifiers/disabled', '[{"id":"vscodevim.vim","uuid":"d96e79c6-8b25-4be3-8545-0e0ecefcae03"}]');
SQLITE
echo '{"workbench.startupEditor": "none"}' > ~"#;

/// A fixed part of the script `86-vscode`.
pub const VSCODE_E: &'static str = r#"/.config/Code/User/settings.json
cp /usr/share/applications/code.desktop ~"#;

/// A fixed part of the script `86-vscode`.
pub const VSCODE_F: &'static str = r#"/Desktop
EOF
"#;

/// Contents of the script `86-vscode`.
pub open spec fn vscode_text(contestant_account: Seq<char>) -> Seq<char> {
    VSCODE_A@ + contestant_account + VSCODE_B@ + contestant_account + VSCODE_C@
        + contestant_account + VSCODE_D@ + contestant_account + VSCODE_E@ + contestant_account
        + VSCODE_F@
}

/// Renders the contents of the script `86-vscode`.
pub fn make_vscode(contestant_account: &str) -> (r: String)
    ensures
        r@ == vscode_text(contestant_account@),
{
    let mut r = String::from_str(VSCODE_A);
    r.append(contestant_account);
    r.append(VSCODE_B);
    r.append(contestant_account);
    r.append(VSCODE_C);
    r.append(contestant_account);
    r.append(VSCODE_D);
    r.append(contestant_account);
    r.append(VSCODE_E);
    r.append(contestant_account);
    r.append(VSCODE_F);
    r
}

/// Name of the script `86-eclipse`.
pub const ECLIPSE_SCRIPT: &'static str = "86-eclipse";

/// Contents of the script `86-eclipse`.
pub const ECLIPSE_TEXT: &'static str = "sudo -u paruuser paru -S --noconfirm eclipse-cpp-bin";

/// The compilers and interpreters for the contestants.
pub open spec fn compilers_plan() -> Seq<StepModel> {
    seq![post_script(COMPILERS_SCRIPT@, COMPILERS_TEXT@)]
}

/// The debugging tools for the contestants.
pub open spec fn debuggers_plan() -> Seq<StepModel> {
    seq![post_script(DEBUGGERS_SCRIPT@, DEBUGGERS_TEXT@)]
}

/// The steps of the browser setup: Firefox with locked preferences, then, when CA
/// certificates are given, their copies in the profile and the script that trusts them.
pub open spec fn browser_plan(a: ArgsView) -> Seq<StepModel> {
    seq![post_script(BROWSER_SCRIPT@, browser_text(homepage_line(a.homepage), a.contestant_account))]
        + (if a.ca_certificate.len() == 0 {
        Seq::empty()
    } else {
        seq![StepModel::CreateDir { path: under_root(CA_CERTIFICATES_DIR@) }] + copies_into(
            a.ca_certificate,
            under_root(CA_CERTIFICATES_DIR@),
        ) + seq![post_script(CA_CERTIFICATES_SCRIPT@, CA_CERTIFICATES_TEXT@)]
    })
}

/// The steps of the editor setup, in order, starting with the `paru` helper.
pub open spec fn editors_plan(a: ArgsView) -> Seq<StepModel> {
    ensure_paru_plan() + seq![post_script(EDITORS_SCRIPT@, EDITORS_TEXT@)] + (if a.pycharm {
        seq![post_script(PYCHARM_SCRIPT@, pycharm_text(a.contestant_account))]
    } else {
        Seq::empty()
    }) + (if a.codeblocks {
        seq![post_script(CODEBLOCKS_SCRIPT@, CODEBLOCKS_TEXT@)]
    } else {
        Seq::empty()
    }) + seq![
        post_script(VSCODE_SCRIPT@, vscode_text(a.contestant_account)),
        post_script(ECLIPSE_SCRIPT@, ECLIPSE_TEXT@),
    ]
}

/// The step that installs the compilers.
pub fn compilers() -> (r: Vec<Step>)
    ensures
        steps_view(r@) == compilers_plan(),
{
    let mut steps: Vec<Step> = Vec::new();
    steps.push(add_post_script(COMPILERS_SCRIPT, COMPILERS_TEXT));
    proof {
        assert(steps_view(steps@) =~= compilers_plan());
    }
    steps
}

/// The step that installs the debuggers.
pub fn debuggers() -> (r: Vec<Step>)
    ensures
        steps_view(r@) == debuggers_plan(),
{
    let mut steps: Vec<Step> = Vec::new();
    steps.push(add_post_script(DEBUGGERS_SCRIPT, DEBUGGERS_TEXT));
    proof {
        assert(steps_view(steps@) =~= debuggers_plan());
    }
    steps
}

/// The Firefox preference line that pins the homepage, or the empty string.
pub fn make_homepage_line(homepage: &Option<String>) -> (r: String)
    ensures
        r@ == homepage_line(crate::args::opt_view(*homepage)),
{
    match homepage {
        Some(home) => {
            let mut r = String::from_str(HOMEPAGE_A);
            r.append(home.as_str());
            r.append(HOMEPAGE_B);
            r
        },
        None => String::new(),
    }
}

/// The steps that install and configure the browser and the extra CA certificates.
pub fn browser(args: &Args) -> (r: Vec<Step>)
    ensures
        steps_view(r@) == browser_plan(args@),
{
    let mut steps: Vec<Step> = Vec::new();
    let set_homepage = make_homepage_line(&args.homepage);
    let text = make_browser(set_homepage.as_str(), args.contestant_account.as_str());
    steps.push(add_post_script(BROWSER_SCRIPT, text.as_str()));
    let ghost first = steps_view(steps@);
    if args.ca_certificate.len() != 0 {
        let file_dir = join(iso_root(), CA_CERTIFICATES_DIR);
        steps.push(Step::CreateDir { path: file_dir.clone() });
        let ghost second = steps_view(steps@);
        push_copies_into(&mut steps, &args.ca_certificate, &file_dir);
        let ghost third = steps_view(steps@);
        steps.push(add_post_script(CA_CERTIFICATES_SCRIPT, CA_CERTIFICATES_TEXT));
        proof {
            assert(second =~= first + seq![StepModel::CreateDir { path: under_root(CA_CERTIFICATES_DIR@) }]);
            assert(steps_view(steps@) =~= third + seq![post_script(CA_CERTIFICATES_SCRIPT@, CA_CERTIFICATES_TEXT@)]);
        }
    }
    proof {
        assert(steps_view(steps@) =~= browser_plan(args@));
    }
    steps
}

/// The steps that install the editors and IDEs.
pub fn editors(args: &Args) -> (r: Vec<Step>)
    ensures
        steps_view(r@) == editors_plan(args@),
{
    let contestant = args.contestant_account.as_str();
    let mut steps = ensure_paru();
    steps.push(add_post_script(EDITORS_SCRIPT, EDITORS_TEXT));
    if args.pycharm {
        let text = make_pycharm(contestant);
        steps.push(add_post_script(PYCHARM_SCRIPT, text.as_str()));
    }
    if args.codeblocks {
        steps.push(add_post_script(CODEBLOCKS_SCRIPT, CODEBLOCKS_TEXT));
    }
    let text = make_vscode(contestant);
    steps.push(add_post_script(VSCODE_SCRIPT, text.as_str()));
    steps.push(add_post_script(ECLIPSE_SCRIPT, ECLIPSE_TEXT));
    proof {
        assert(steps_view(steps@) =~= editors_plan(args@));
    }
    steps
}

/// Every given CA certificate is copied into the certificates directory of the profile, and
/// nothing else is copied there; without certificates nothing is copied and no trust script
/// is written.
pub proof fn law_every_certificate_copied(a: ArgsView)
    ensures
        forall|i: int|
            0 <= i < a.ca_certificate.len() ==> #[trigger] browser_plan(a).contains(
                StepModel::CopyInto {
                    from: a.ca_certificate[i],
                    dir: under_root(CA_CERTIFICATES_DIR@),
                },
            ),
        forall|j: int|
            0 <= j < browser_plan(a).len() && browser_plan(a)[j] is CopyInto
                ==> a.ca_certificate.contains(#[trigger] browser_plan(a)[j]->CopyInto_from),
        a.ca_certificate.len() == 0 ==> browser_plan(a).len() == 1,
{
    let plan = browser_plan(a);
    let files = a.ca_certificate;
    assert forall|i: int| 0 <= i < files.len() implies #[trigger] browser_plan(a).contains(
        StepModel::CopyInto { from: files[i], dir: under_root(CA_CERTIFICATES_DIR@) },
    ) by {
        assert(plan[i + 2] == StepModel::CopyInto {
            from: files[i],
            dir: under_root(CA_CERTIFICATES_DIR@),
        });
    }
    assert forall|j: int| 0 <= j < plan.len() && plan[j] is CopyInto implies files.contains(
        #[trigger] browser_plan(a)[j]->CopyInto_from,
    ) by {
        assert(2 <= j < files.len() + 2);
        assert(plan[j]->CopyInto_from == files[j - 2]);
    }
}

/// The homepage, when given, is pinned by its own preference line; without one the line is
/// empty.
pub proof fn law_homepage_line(home: Seq<char>)
    ensures
        homepage_line(None) == Seq::<char>::empty(),
        homepage_line(Some(home)) == HOMEPAGE_A@ + home + HOMEPAGE_B@,
{
}

} // verus!
