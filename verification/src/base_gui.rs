use vstd::prelude::*;

use crate::args::{Args, ArgsView};
use crate::util::{
    add_post_script, append_joined, iso_root, join, joined, post_script, steps_view, under_root,
    PrepareError, Step, StepModel,
};

verus! {

/// Where, below the profile root, the default background image is installed.
pub const DEFAULT_BACKGROUND_PATH: &'static str = "install/default_background.png";

/// The GDM setting that turns Wayland off, on a line of its own.
pub const WAYLAND_DISABLED: &'static str = "\nWaylandEnable=false";

/// The GDM setting line for Wayland: empty unless Wayland is disabled.
pub open spec fn gdm_wayland_line(disable_wayland: bool) -> Seq<char> {
    if disable_wayland {
        WAYLAND_DISABLED@
    } else {
        Seq::empty()
    }
}

/// Text in front of the keyboard layouts in the GNOME setting of the input sources.
pub const INPUT_SOURCES_A: &'static str = "gsettings set org.gnome.desktop.input-sources sources \"[";

/// Text behind the keyboard layouts in the GNOME setting of the input sources.
pub const INPUT_SOURCES_B: &'static str = "]\"\n";

/// Text in front of a keyboard layout in the list of input sources.
pub const XKB_SOURCE_A: &'static str = "('xkb', '";

/// Text behind a keyboard layout in the list of input sources.
pub const XKB_SOURCE_B: &'static str = "')";

/// Separator between two input sources.
pub const SOURCE_SEPARATOR: &'static str = ", ";

/// The contestant's GNOME setting that makes each given keyboard layout, in order, an input
/// source; empty when no layout is given, which keeps GNOME's default.
pub open spec fn input_sources_line(layouts: Seq<Seq<char>>) -> Seq<char> {
    if layouts.len() == 0 {
        Seq::empty()
    } else {
        INPUT_SOURCES_A@ + joined(layouts, XKB_SOURCE_A@, XKB_SOURCE_B@, SOURCE_SEPARATOR@)
            + INPUT_SOURCES_B@
    }
}

/// Name of the script `86-backgrounds`.
pub const BACKGROUNDS_SCRIPT: &'static str = "86-backgrounds";

/// A fixed part of the script `86-backgrounds`.
pub const BACKGROUNDS_A: &'static str = r#"
pacman -S --noconfirm wget
mkdir -p /opt/background
chmod ugo+rwX /opt/background
chown "#;

/// A fixed part of the script `86-backgrounds`.
pub const BACKGROUNDS_B: &'static str = r#":"#;

/// A fixed part of the script `86-backgrounds`.
pub const BACKGROUNDS_C: &'static str = r#" /opt/background
cp -v /install/default_background.png /opt/background

cat > /etc/systemd/system/get-background.service << EOF
[Unit]
Description=get background
Requires=wait-hostname.service
After=wait-hostname.service
Before=gdm.service

[Service]
User="#;

/// A fixed part of the script `86-backgrounds`.
pub const BACKGROUNDS_D: &'static str = r#"
Group="#;

/// A fixed part of the script `86-backgrounds`.
pub const BACKGROUNDS_E: &'static str = r#"
Type=oneshot
WorkingDirectory=/opt/background
ExecStart=/usr/local/bin/get_background.sh

[Install]
WantedBy=multi-user.target
EOF

cat > /usr/local/bin/get_background.sh << EOF
#!/bin/bash
cp -v default_background.png background.png
wget http://backgrounds.olympiads-server/\$(hostnamectl hostname)/background.png -O correct_background.png
mv correct_background.png background.png
EOF

chmod +x /usr/local/bin/get_background.sh

sudo -u "#;

/// A fixed part of the script `86-backgrounds`.
pub const BACKGROUNDS_F: &'static str = r#" -g "#;

/// A fixed part of the script `86-backgrounds`.
pub const BACKGROUNDS_G: &'static str = r#" dbus-launch bash << EOF
gsettings set org.gnome.desktop.background picture-uri 'file:///opt/background/background.png'
gsettings set org.gnome.desktop.background picture-uri-dark 'file:///opt/background/background.png'
EOF

systemctl enable get-background.service
"#;

/// Contents of the script `86-backgrounds`.
pub open spec fn backgrounds_text(orga_account: Seq<char>, contestant_account: Seq<char>) -> Seq<char> {
    BACKGROUNDS_A@ + orga_account + BACKGROUNDS_B@ + orga_account + BACKGROUNDS_C@ + orga_account
        + BACKGROUNDS_D@ + orga_account + BACKGROUNDS_E@ + contestant_account + BACKGROUNDS_F@
        + contestant_account + BACKGROUNDS_G@
}

/// Renders the contents of the script `86-backgrounds`.
pub fn make_backgrounds(orga_account: &str, contestant_account: &str) -> (r: String)
    ensures
        r@ == backgrounds_text(orga_account@, contestant_account@),
{
    let mut r = String::from_str(BACKGROUNDS_A);
    r.append(orga_account);
    r.append(BACKGROUNDS_B);
    r.append(orga_account);
    r.append(BACKGROUNDS_C);
    r.append(orga_account);
    r.append(BACKGROUNDS_D);
    r.append(orga_account);
    r.append(BACKGROUNDS_E);
    r.append(contestant_account);
    r.append(BACKGROUNDS_F);
    r.append(contestant_account);
    r.append(BACKGROUNDS_G);
    r
}

/// Name of the script `84-lid`.
pub const LID_SCRIPT: &'static str = "84-lid";

/// Contents of the script `84-lid`.
pub const LID_TEXT: &'static str = r#"
mkdir -p /etc/systemd/logind.conf.d/
echo -e "[Login]\nHandleLidSwitch=ignore\nHandlePowerKey=ignore" >> /etc/systemd/logind.conf.d/do_not_suspend.conf
"#;

/// Name of the script `85-gnome`.
pub const GNOME_SCRIPT: &'static str = "85-gnome";

/// A fixed part of the script `85-gnome`.
pub const GNOME_A: &'static str = r#"
pacman -S --noconfirm gnome gdm gnome-terminal gnome-shell-extension-desktop-icons-ng
pacman -R --noconfirm gnome-tour
systemctl enable gdm
echo -e "[daemon]\nAutomaticLoginEnable=True\nAutomaticLogin="#;

/// A fixed part of the script `85-gnome`.
pub const GNOME_C: &'static str = r#"" > /etc/gdm/custom.conf
sudo -u "#;

/// A fixed part of the script `85-gnome`.
pub const GNOME_D: &'static str = r#" -g "#;

/// A fixed part of the script `85-gnome`.
pub const GNOME_E: &'static str = r#" dbus-launch bash << EOF
set -xe

mkdir -p ~"#;

/// A fixed part of the script `85-gnome`.
pub const GNOME_F: &'static str = r#"/Desktop

# No dynamic workspaces
gsettings set org.gnome.mutter dynamic-workspaces false
gsettings set org.gnome.desktop.wm.preferences num-workspaces 4

# Power settings
gsettings set org.gnome.desktop.session idle-delay 0
gsettings set org.gnome.desktop.lockdown disable-lock-screen true
gsettings set org.gnome.settings-daemon.plugins.power sleep-inactive-ac-type nothing
gsettings set org.gnome.settings-daemon.plugins.power sleep-inactive-battery-type nothing
gsettings set org.gnome.settings-daemon.plugins.power power-button-action nothing

# Enable desktop icons
gnome-extensions enable ding@rastersoft.com

# ctrl-alt-t -> open terminal
dconf write /org/gnome/settings-daemon/plugins/media-keys/custom-keybindings/custom0/command "'gnome-terminal'"
dconf write /org/gnome/settings-daemon/plugins/media-keys/custom-keybindings/custom0/binding "'<Primary><Alt>t'"
dconf write /org/gnome/settings-daemon/plugins/media-keys/custom-keybindings/custom0/name "'gnome-terminal'"
gsettings set org.gnome.settings-daemon.plugins.media-keys custom-keybindings "['/org/gnome/settings-daemon/plugins/media-keys/custom-keybindings/custom0/']"

# Misc
gsettings set org.gnome.desktop.interface clock-format 24h
gsettings set org.gnome.desktop.wm.preferences button-layout appmenu:minimize,maximize,close
gsettings set org.gnome.desktop.wm.preferences audible-bell false
"#;

/// A fixed part of the script `85-gnome`.
pub const GNOME_G: &'static str = r#"EOF
"#;

/// Contents of the script `85-gnome`.
pub open spec fn gnome_text(
    contestant_account: Seq<char>,
    gdm_wayland: Seq<char>,
    input_sources: Seq<char>,
) -> Seq<char> {
    GNOME_A@ + contestant_account + gdm_wayland + GNOME_C@ + contestant_account + GNOME_D@
        + contestant_account + GNOME_E@ + contestant_account + GNOME_F@ + input_sources + GNOME_G@
}

/// Renders the contents of the script `85-gnome`.
pub fn make_gnome(contestant_account: &str, gdm_wayland: &str, input_sources: &str) -> (r: String)
    ensures
        r@ == gnome_text(contestant_account@, gdm_wayland@, input_sources@),
{
    let mut r = String::from_str(GNOME_A);
    r.append(contestant_account);
    r.append(gdm_wayland);
    r.append(GNOME_C);
    r.append(contestant_account);
    r.append(GNOME_D);
    r.append(contestant_account);
    r.append(GNOME_E);
    r.append(contestant_account);
    r.append(GNOME_F);
    r.append(input_sources);
    r.append(GNOME_G);
    r
}

/// Name of the script `87-disable-keyring`.
pub const DISABLE_KEYRING_SCRIPT: &'static str = "87-disable-keyring";

/// A fixed part of the script `87-disable-keyring`.
pub const DISABLE_KEYRING_A: &'static str = r#"
chmod 0700 /usr/bin/gnome-keyring-daemon
mkdir -p ~"#;

/// A fixed part of the script `87-disable-keyring`.
pub const DISABLE_KEYRING_B: &'static str = r#"/.config/autostart
echo -e "[Desktop Entry]\nHidden=true" >> ~"#;

/// A fixed part of the script `87-disable-keyring`.
pub const DISABLE_KEYRING_C: &'static str = r#"/.config/autostart/gnome-keyring-pkcs11.desktop
echo -e "[Desktop Entry]\nHidden=true" >> ~"#;

/// A fixed part of the script `87-disable-keyring`.
pub const DISABLE_KEYRING_D: &'static str = r#"/.config/autostart/gnome-keyring-secrets.desktop
echo -e "[Desktop Entry]\nHidden=true" >> ~"#;

/// A fixed part of the script `87-disable-keyring`.
pub const DISABLE_KEYRING_E: &'static str = r#"/.config/autostart/gnome-keyring-ssh.desktop
"#;

/// Contents of the script `87-disable-keyring`.
pub open spec fn disable_keyring_text(contestant_account: Seq<char>) -> Seq<char> {
    DISABLE_KEYRING_A@ + contestant_account + DISABLE_KEYRING_B@ + contestant_account
        + DISABLE_KEYRING_C@ + contestant_account + DISABLE_KEYRING_D@ + contestant_account
        + DISABLE_KEYRING_E@
}

/// Renders the contents of the script `87-disable-keyring`.
pub fn make_disable_keyring(contestant_account: &str) -> (r: String)
    ensures
        r@ == disable_keyring_text(contestant_account@),
{
    let mut r = String::from_str(DISABLE_KEYRING_A);
    r.append(contestant_account);
    r.append(DISABLE_KEYRING_B);
    r.append(contestant_account);
    r.append(DISABLE_KEYRING_C);
    r.append(contestant_account);
    r.append(DISABLE_KEYRING_D);
    r.append(contestant_account);
    r.append(DISABLE_KEYRING_E);
    r
}

/// Name of the script `85-xorg`.
pub const XORG_SCRIPT: &'static str = "85-xorg";

/// Contents of the script `85-xorg`.
pub const XORG_TEXT: &'static str = "pacman -S --noconfirm xorg-server";

/// Name of the script `85-virtualbox`.
pub const VIRTUALBOX_SCRIPT: &'static str = "85-virtualbox";

/// Contents of the script `85-virtualbox`.
pub const VIRTUALBOX_TEXT: &'static str = "pacman -S --noconfirm virtualbox virtualbox-host-modules-arch";

/// Name of the script `89-desktop-files`.
pub const DESKTOP_FILES_SCRIPT: &'static str = "89-desktop-files";

/// A fixed part of the script `89-desktop-files`.
pub const DESKTOP_FILES_A: &'static str = r#"
for dsk in ~"#;

/// A fixed part of the script `89-desktop-files`.
pub const DESKTOP_FILES_B: &'static str = r#"/Desktop/*.desktop
do
    sudo -u "#;

/// A fixed part of the script `89-desktop-files`.
pub const DESKTOP_FILES_C: &'static str = r#" -g "#;

/// A fixed part of the script `89-desktop-files`.
pub const DESKTOP_FILES_D: &'static str = r#" dbus-launch gio set $dsk metadata::trusted true
    chmod +x $dsk
done
sudo -u "#;

/// A fixed part of the script `89-desktop-files`.
pub const DESKTOP_FILES_E: &'static str = r#" -g "#;

/// A fixed part of the script `89-desktop-files`.
pub const DESKTOP_FILES_F: &'static str = r#" dbus-launch gsettings set org.gnome.shell favorite-apps \
    "[$((cd ~"#;

/// A fixed part of the script `89-desktop-files`.
pub const DESKTOP_FILES_G: &'static str = r#"/Desktop; echo org.gnome.Nautilus.desktop; ls *.desktop) | sed "s/^/'/g;s/$/'/g" | paste -sd,)]"
"#;

/// Contents of the script `89-desktop-files`.
pub open spec fn desktop_files_text(contestant_account: Seq<char>) -> Seq<char> {
    DESKTOP_FILES_A@ + contestant_account + DESKTOP_FILES_B@ + contestant_account
        + DESKTOP_FILES_C@ + contestant_account + DESKTOP_FILES_D@ + contestant_account
        + DESKTOP_FILES_E@ + contestant_account + DESKTOP_FILES_F@ + contestant_account
        + DESKTOP_FILES_G@
}

/// Renders the contents of the script `89-desktop-files`.
pub fn make_desktop_files(contestant_account: &str) -> (r: String)
    ensures
        r@ == desktop_files_text(contestant_account@),
{
    let mut r = String::from_str(DESKTOP_FILES_A);
    r.append(contestant_account);
    r.append(DESKTOP_FILES_B);
    r.append(contestant_account);
    r.append(DESKTOP_FILES_C);
    r.append(contestant_account);
    r.append(DESKTOP_FILES_D);
    r.append(contestant_account);
    r.append(DESKTOP_FILES_E);
    r.append(contestant_account);
    r.append(DESKTOP_FILES_F);
    r.append(contestant_account);
    r.append(DESKTOP_FILES_G);
    r
}

/// What the background stage does: nothing unless backgrounds are asked for; refused when
/// they are asked for without a default image; otherwise copy the image into the profile and
/// write the script that fetches each machine's background.
pub open spec fn backgrounds_plan(a: ArgsView) -> Result<Seq<StepModel>, PrepareError> {
    if !a.backgrounds {
        Ok(Seq::empty())
    } else {
        match a.default_background {
            None => Err(PrepareError::MissingDefaultBackground),
            Some(bg) => Ok(
                seq![
                    StepModel::CopyFile { from: bg, to: under_root(DEFAULT_BACKGROUND_PATH@) },
                    post_script(
                        BACKGROUNDS_SCRIPT@,
                        backgrounds_text(a.orga_account, a.contestant_account),
                    ),
                ],
            ),
        }
    }
}

/// The steps of the graphical desktop setup, in order.
pub open spec fn base_gui_setup_plan(a: ArgsView) -> Seq<StepModel> {
    seq![
        post_script(LID_SCRIPT@, LID_TEXT@),
        post_script(
            GNOME_SCRIPT@,
            gnome_text(
                a.contestant_account,
                gdm_wayland_line(a.disable_wayland),
                input_sources_line(a.keyboard_layout),
            ),
        ),
        post_script(DISABLE_KEYRING_SCRIPT@, disable_keyring_text(a.contestant_account)),
    ] + (if a.disable_wayland {
        seq![post_script(XORG_SCRIPT@, XORG_TEXT@)]
    } else {
        Seq::empty()
    }) + (if a.virtualbox {
        seq![post_script(VIRTUALBOX_SCRIPT@, VIRTUALBOX_TEXT@)]
    } else {
        Seq::empty()
    }) + seq![post_script(DESKTOP_FILES_SCRIPT@, desktop_files_text(a.contestant_account))]
}

/// The steps that install the per-machine desktop background.
pub fn backgrounds(args: &Args) -> (r: Result<Vec<Step>, PrepareError>)
    ensures
        match r {
            Ok(steps) => backgrounds_plan(args@) == Ok::<Seq<StepModel>, PrepareError>(
                steps_view(steps@),
            ),
            Err(e) => backgrounds_plan(args@) == Err::<Seq<StepModel>, PrepareError>(e),
        },
{
    let mut steps: Vec<Step> = Vec::new();
    if !args.backgrounds {
        proof {
            assert(steps_view(steps@) =~= Seq::<StepModel>::empty());
        }
        return Ok(steps);
    }
    let default_background = match &args.default_background {
        Some(bg) => bg,
        None => {
            return Err(PrepareError::MissingDefaultBackground);
        },
    };
    let bg_install = join(iso_root(), DEFAULT_BACKGROUND_PATH);
    steps.push(Step::CopyFile { from: default_background.clone(), to: bg_install });
    let text = make_backgrounds(args.orga_account.as_str(), args.contestant_account.as_str());
    steps.push(add_post_script(BACKGROUNDS_SCRIPT, text.as_str()));
    proof {
        let bg = args@.default_background->0;
        assert(steps_view(steps@) =~= seq![
            StepModel::CopyFile { from: bg, to: under_root(DEFAULT_BACKGROUND_PATH@) },
            post_script(BACKGROUNDS_SCRIPT@, backgrounds_text(args@.orga_account, args@.contestant_account)),
        ]);
    }
    Ok(steps)
}

/// The GDM setting line for Wayland.
pub fn make_gdm_wayland_line(disable_wayland: bool) -> (r: String)
    ensures
        r@ == gdm_wayland_line(disable_wayland),
{
    if disable_wayland {
        String::from_str(WAYLAND_DISABLED)
    } else {
        String::new()
    }
}

/// The GNOME setting line for the keyboard layouts.
pub fn make_input_sources_line(layouts: &Vec<String>) -> (r: String)
    ensures
        r@ == input_sources_line(crate::args::strings_view(layouts@)),
{
    if layouts.len() == 0 {
        String::new()
    } else {
        let mut r = String::from_str(INPUT_SOURCES_A);
        append_joined(&mut r, layouts, XKB_SOURCE_A, XKB_SOURCE_B, SOURCE_SEPARATOR);
        r.append(INPUT_SOURCES_B);
        r
    }
}

/// The steps that set up the GNOME desktop for the contestant.
pub fn base_gui_setup(args: &Args) -> (r: Vec<Step>)
    ensures
        steps_view(r@) == base_gui_setup_plan(args@),
{
    let contestant = args.contestant_account.as_str();
    let mut steps: Vec<Step> = Vec::new();
    steps.push(add_post_script(LID_SCRIPT, LID_TEXT));
    let gdm_wayland = make_gdm_wayland_line(args.disable_wayland);
    let input_sources = make_input_sources_line(&args.keyboard_layout);
    let text = make_gnome(contestant, gdm_wayland.as_str(), input_sources.as_str());
    steps.push(add_post_script(GNOME_SCRIPT, text.as_str()));
    let text = make_disable_keyring(contestant);
    steps.push(add_post_script(DISABLE_KEYRING_SCRIPT, text.as_str()));
    if args.disable_wayland {
        steps.push(add_post_script(XORG_SCRIPT, XORG_TEXT));
    }
    if args.virtualbox {
        steps.push(add_post_script(VIRTUALBOX_SCRIPT, VIRTUALBOX_TEXT));
    }
    let text = make_desktop_files(contestant);
    steps.push(add_post_script(DESKTOP_FILES_SCRIPT, text.as_str()));
    proof {
        assert(steps_view(steps@) =~= base_gui_setup_plan(args@));
    }
    steps
}

/// No layout keeps GNOME's default input sources; one layout gives a list of that one
/// source; each further layout is added at the end of the list, after a comma.
pub proof fn law_input_sources(layouts: Seq<Seq<char>>, layout: Seq<char>)
    ensures
        input_sources_line(Seq::empty()) == Seq::<char>::empty(),
        input_sources_line(seq![layout]) == INPUT_SOURCES_A@ + XKB_SOURCE_A@ + layout
            + XKB_SOURCE_B@ + INPUT_SOURCES_B@,
        layouts.len() > 0 ==> exists|sources: Seq<char>|
            {
                &&& input_sources_line(layouts) == INPUT_SOURCES_A@ + sources + INPUT_SOURCES_B@
                &&& input_sources_line(layouts.push(layout)) == INPUT_SOURCES_A@ + sources
                    + SOURCE_SEPARATOR@ + XKB_SOURCE_A@ + layout + XKB_SOURCE_B@
                    + INPUT_SOURCES_B@
            },
{
    assert(seq![layout][0] == layout);
    assert(input_sources_line(seq![layout]) =~= INPUT_SOURCES_A@ + XKB_SOURCE_A@ + layout
        + XKB_SOURCE_B@ + INPUT_SOURCES_B@);
    if layouts.len() > 0 {
        let sources = joined(layouts, XKB_SOURCE_A@, XKB_SOURCE_B@, SOURCE_SEPARATOR@);
        assert(layouts.push(layout).drop_last() =~= layouts);
        assert(input_sources_line(layouts.push(layout)) =~= INPUT_SOURCES_A@ + sources
            + SOURCE_SEPARATOR@ + XKB_SOURCE_A@ + layout + XKB_SOURCE_B@ + INPUT_SOURCES_B@);
    }
}

} // verus!
