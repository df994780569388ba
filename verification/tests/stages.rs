use prepare::args::Args;
use prepare::base::base_setup;
use prepare::base_gui::{backgrounds, base_gui_setup};
use prepare::contest_software::{browser, compilers, debuggers, editors};
use prepare::lockdown::lockdown;
use prepare::plan::plan;
use prepare::pre::pre_install_scripts;
use prepare::users::{additional_user_files, setup_users};
use prepare::util::{add_post_script, add_pre_script, ensure_paru, iso_root, PrepareError, Step};

const PRE_DIR: &str = "archiso-profile/airootfs/pre_install";
const POST_DIR: &str = "archiso-profile/airootfs/install/scripts";

/// The options with the defaults of the command line.
fn default_args() -> Args {
    Args {
        timezone: "UTC".to_string(),
        locale: "en_US".to_string(),
        gnome_locale: None,
        contestant_account: "olympiads".to_string(),
        orga_account: "orga".to_string(),
        password: "hunter2".to_string(),
        ssh_github: vec![],
        ssh: vec![],
        virtualbox: false,
        disable_wayland: false,
        additional_user_files: vec![],
        additional_server_names: vec![],
        nowait: false,
        pin_packages: None,
        homepage: None,
        pycharm: false,
        codeblocks: false,
        server_ip: "10.0.0.1".to_string(),
        pixie: false,
        node_exporter: false,
        no_lockdown: false,
        orga_net: "172.26.0.0/16".to_string(),
        backgrounds: false,
        default_background: None,
        keyboard_layout: vec![],
        ca_certificate: vec![],
        firefox_policies: None,
    }
}

/// Every option turned on or given a value.
fn full_args() -> Args {
    let mut a = default_args();
    a.gnome_locale = Some("de_CH".to_string());
    a.ssh_github = vec!["alice".to_string(), "bob".to_string()];
    a.ssh = vec!["ssh-ed25519 AAAA key1".to_string()];
    a.virtualbox = true;
    a.disable_wayland = true;
    a.additional_user_files = vec!["files/notes.txt".to_string(), "files/b.pdf".to_string()];
    a.additional_server_names = vec!["judge".to_string(), "cms".to_string()];
    a.nowait = true;
    a.pin_packages = Some("2025/07/01".to_string());
    a.homepage = Some("http://cms.olympiads-server".to_string());
    a.pycharm = true;
    a.codeblocks = true;
    a.pixie = true;
    a.node_exporter = true;
    a.backgrounds = true;
    a.default_background = Some("bg/default.png".to_string());
    a.ca_certificate = vec!["certs/root.pem".to_string()];
    a.keyboard_layout = vec!["ch".to_string(), "us+intl".to_string()];
    a.server_ip = "10.0.0.2".to_string();
    a
}

fn post(name: &str, contents: &str) -> Step {
    Step::WriteScript {
        dir: POST_DIR.to_string(),
        name: name.to_string(),
        text: format!("set -e\n{}\n", contents),
    }
}

fn pre(name: &str, contents: &str) -> Step {
    Step::WriteScript {
        dir: PRE_DIR.to_string(),
        name: name.to_string(),
        text: format!("set -e\n{}\n", contents),
    }
}

fn names(steps: &[Step]) -> Vec<String> {
    steps
        .iter()
        .filter_map(|s| match s {
            Step::WriteScript { name, .. } => Some(name.clone()),
            _ => None,
        })
        .collect()
}

fn target(s: &Step) -> &str {
    match s {
        Step::CreateDir { path } => path,
        Step::CopyFile { to, .. } => to,
        Step::CopyInto { dir, .. } => dir,
        Step::WriteScript { dir, .. } => dir,
    }
}

/// The steps of the base stage, written as the templates of the shell scripts spell them.
fn expected_base(a: &Args) -> Vec<Step> {
    let Args {
        timezone,
        locale,
        gnome_locale,
        server_ip,
        pixie,
        node_exporter,
        orga_account,
        additional_server_names,
        ..
    } = a;
    let mut v = vec![];
    if *pixie {
        v.push(post("00-pixie-ping", &format!(r#"
pacman -S --noconfirm openbsd-netcat
cat > /etc/systemd/system/pixie-ping.timer << EOF
[Unit]
Description=Pixie ping timer

[Timer]
OnBootSec=30s
OnUnitActiveSec=30s

[Install]
WantedBy=timers.target
EOF

cat > /etc/systemd/system/pixie-ping.service << EOF
[Unit]
Description=Pixie ping

[Service]
Type=oneshot
User={orga_account}
Group={orga_account}
ExecStart=/bin/bash -c "echo 'linux' | nc -w 0 -u olympiads-server 25643"

[Install]
WantedBy=multi-user.target
EOF

systemctl enable pixie-ping.timer
"#)));
    }
    v.push(post("00-wait-online-unit", &format!(r#"
cat > /etc/systemd/system/wait-hostname.service << EOF
[Unit]
Description=wait hostname
Wants=network-online.target
After=network-online.target
After=dhcpcd.service
Before=gdm.service

[Service]
Type=oneshot
ExecStart=/usr/local/bin/wait-hostname.sh
StartLimitBurst=100

[Install]
WantedBy=multi-user.target
EOF


cat > /usr/local/bin/wait-hostname.sh << EOF
#!/bin/bash
while true
do
        if [[ "\$(hostnamectl hostname)" = "archlinux" ]]
        then
            echo Waiting for hostname update
            sleep 1
        else
            break
        fi
done
EOF
chmod +x /usr/local/bin/wait-hostname.sh
systemctl enable wait-hostname.service
"#)));
    let mut hline = "olympiads-server".to_string();
    for s in additional_server_names.iter() {
        hline = format!("{hline} {s}");
    }
    v.push(post("00-hosts", &format!(r#"echo -e "127.0.0.1 localhost\n{server_ip} {hline}" > /etc/hosts"#)));
    if *node_exporter {
        v.push(post("00-node-exporter", &format!(r#"
pacman -S --noconfirm prometheus-node-exporter
systemctl enable prometheus-node-exporter
"#)));
    }
    v.push(post("00-time", &format!("ln -sf /usr/share/zoneinfo/{timezone} /etc/localtime\nhwclock --systohc")));
    let gnome_locale = gnome_locale
        .as_deref()
        .map(|s| format!(r#"echo "{s}.UTF-8 UTF-8" >> /etc/locale.gen"#))
        .unwrap_or_default();
    v.push(post("00-locale", &format!(r#"
echo "{locale}.UTF-8 UTF-8" > /etc/locale.gen
{gnome_locale}
locale-gen
echo LANG={locale}.UTF-8 > /etc/locale.conf"#)));
    v.push(post("00-misc", &format!("pacman -S --noconfirm less bash-completion screen tmux nano")));
    v.push(post("97-mkinitcpio", &format!("mkinitcpio -P linux")));
    v.push(post("98-grub", &format!(r#"
pacman -S --noconfirm grub efibootmgr
grub-install --target=x86_64-efi --efi-directory=/boot
grub-mkconfig -o /boot/grub/grub.cfg
"#)));
    v.push(post("99-networkd", &format!(r#"
systemctl enable systemd-networkd
echo -e "[Match]\nName=en*\nName=eth*\n[Network]\nDHCP=yes" >> /etc/systemd/network/20-ethernet.network
"#)));
    v.push(post("99-timesyncd", &format!(r#"
systemctl enable systemd-timesyncd
echo -e "[Time]\nNTP=olympiads-server\nRootDistanceMaxSec=30" > /etc/systemd/timesyncd.conf
"#)));
    v.push(post("99-resolved", &format!(r#"
systemctl enable systemd-resolved
umount /etc/resolv.conf
mkdir -p /etc/systemd/resolved.conf.d/
cat > /etc/systemd/resolved.conf.d/disable_stub.conf << EOF
[Resolve]
DNSStubListener=no
EOF
ln -sf /run/systemd/resolve/resolv.conf /etc/resolv.conf
sed -i "s/^hosts:.*/hosts: mymachines files myhostname dns/g" /etc/nsswitch.conf
"#)));
    v.push(post("99-clean-cache", &format!("yes | pacman -Scc")));
    v
}

fn expected_backgrounds(a: &Args) -> Vec<Step> {
    let Args { orga_account, contestant_account, default_background, .. } = a;
    vec![
        Step::CopyFile {
            from: default_background.clone().unwrap(),
            to: "archiso-profile/airootfs/install/default_background.png".to_string(),
        },
        post("86-backgrounds", &format!(r#"
pacman -S --noconfirm wget
mkdir -p /opt/background
chmod ugo+rwX /opt/background
chown {orga_account}:{orga_account} /opt/background
cp -v /install/default_background.png /opt/background

cat > /etc/systemd/system/get-background.service << EOF
[Unit]
Description=get background
Requires=wait-hostname.service
After=wait-hostname.service
Before=gdm.service

[Service]
User={orga_account}
Group={orga_account}
Type=oneshot
WorkingDirectory=/opt/background
ExecStart=/usr/local/bin/get_background.sh

[Install]
WantedBy=multi-user.target
EOF

cat > /usr/local/bin/get_background.sh << EOF
#!/bin/bash
cp -v default_background.png background.png
wget http://backgrounds.olympiads-server/\$(hostnamectl hostname)/background.png -O correct_background.png
mv correct_background.png background.png
EOF

chmod +x /usr/local/bin/get_background.sh

sudo -u {contestant_account} -g {contestant_account} dbus-launch bash << EOF
gsettings set org.gnome.desktop.background picture-uri 'file:///opt/background/background.png'
gsettings set org.gnome.desktop.background picture-uri-dark 'file:///opt/background/background.png'
EOF

systemctl enable get-background.service
"#)),
    ]
}

fn expected_base_gui(a: &Args) -> Vec<Step> {
    let Args { contestant_account, virtualbox, disable_wayland, keyboard_layout, .. } = a;
    let input_sources = if keyboard_layout.is_empty() {
        String::new()
    } else {
        let sources: Vec<String> = keyboard_layout.iter().map(|l| format!("('xkb', '{l}')")).collect();
        format!("gsettings set org.gnome.desktop.input-sources sources \"[{}]\"\n", sources.join(", "))
    };
    let mut v = vec![];
    v.push(post("84-lid", &format!(r#"
mkdir -p /etc/systemd/logind.conf.d/
echo -e "[Login]\nHandleLidSwitch=ignore\nHandlePowerKey=ignore" >> /etc/systemd/logind.conf.d/do_not_suspend.conf
"#)));
    let gdm_wayland = if *disable_wayland { "\nWaylandEnable=false" } else { "" };
    v.push(post("85-gnome", &format!(r#"
pacman -S --noconfirm gnome gdm gnome-terminal gnome-shell-extension-desktop-icons-ng
pacman -R --noconfirm gnome-tour
systemctl enable gdm
echo -e "[daemon]\nAutomaticLoginEnable=True\nAutomaticLogin={contestant_account}{gdm_wayland}" > /etc/gdm/custom.conf
sudo -u {contestant_account} -g {contestant_account} dbus-launch bash << EOF
set -xe

mkdir -p ~{contestant_account}/Desktop

# No dynamic workspaces
gsettings set org.gnome.mutter dynamic-workspaces false
gsettings set org.gnome.desktop.wm.preferences num-workspaces 4

# Power settings
gsettings set org.gnome.desktop.session idle-delay 0
gsettings set org.gnome.desktop.lockdown disable-lock-screen true
gsettings set org.gnome.settings-daemon.plugins.power sleep-inactive-ac-type nothing
gsettings set org.gnome.settings-daemon.plugins.power sleep-inactive-battery-type nothing
gsettings set org.gnome.settings-daemon.plugins.power power-button-action nothing

# Enable desktop icons
gnome-extensions enable ding@rastersoft.com

# ctrl-alt-t -> open terminal
dconf write /org/gnome/settings-daemon/plugins/media-keys/custom-keybindings/custom0/command "'gnome-terminal'"
dconf write /org/gnome/settings-daemon/plugins/media-keys/custom-keybindings/custom0/binding "'<Primary><Alt>t'"
dconf write /org/gnome/settings-daemon/plugins/media-keys/custom-keybindings/custom0/name "'gnome-terminal'"
gsettings set org.gnome.settings-daemon.plugins.media-keys custom-keybindings "['/org/gnome/settings-daemon/plugins/media-keys/custom-keybindings/custom0/']"

# Misc
gsettings set org.gnome.desktop.interface clock-format 24h
gsettings set org.gnome.desktop.wm.preferences button-layout appmenu:minimize,maximize,close
gsettings set org.gnome.desktop.wm.preferences audible-bell false
{input_sources}EOF
"#)));
    v.push(post("87-disable-keyring", &format!(r#"
chmod 0700 /usr/bin/gnome-keyring-daemon
mkdir -p ~{contestant_account}/.config/autostart
echo -e "[Desktop Entry]\nHidden=true" >> ~{contestant_account}/.config/autostart/gnome-keyring-pkcs11.desktop
echo -e "[Desktop Entry]\nHidden=true" >> ~{contestant_account}/.config/autostart/gnome-keyring-secrets.desktop
echo -e "[Desktop Entry]\nHidden=true" >> ~{contestant_account}/.config/autostart/gnome-keyring-ssh.desktop
"#)));
    if *disable_wayland {
        v.push(post("85-xorg", &format!("pacman -S --noconfirm xorg-server")));
    }
    if *virtualbox {
        v.push(post("85-virtualbox", &format!("pacman -S --noconfirm virtualbox virtualbox-host-modules-arch")));
    }
    v.push(post("89-desktop-files", &format!(r#"
for dsk in ~{contestant_account}/Desktop/*.desktop
do
    sudo -u {contestant_account} -g {contestant_account} dbus-launch gio set $dsk metadata::trusted true
    chmod +x $dsk
done
sudo -u {contestant_account} -g {contestant_account} dbus-launch gsettings set org.gnome.shell favorite-apps \
    "[$((cd ~{contestant_account}/Desktop; echo org.gnome.Nautilus.desktop; ls *.desktop) | sed "s/^/'/g;s/$/'/g" | paste -sd,)]"
"#)));
    v
}

fn expected_browser(a: &Args) -> Vec<Step> {
    let Args { homepage, contestant_account, ca_certificate, .. } = a;
    let set_homepage = if let Some(home) = homepage {
        format!(r#"lockPref("browser.startup.homepage", "{home}");"#)
    } else {
        String::new()
    };
    let mut v = vec![post("86-browser", &format!(r#"
pacman -S --noconfirm firefox
cat > /usr/lib/firefox/defaults/pref/autoconfig.js << EOF
pref("general.config.filename", "firefox.cfg");
pref("general.config.obscure_value", 0);
EOF
cat > /usr/lib/firefox/firefox.cfg << EOF
//
lockPref("extensions.pocket.enabled", false);
lockPref("browser.newtabpage.activity-stream.feeds.section.topstories", false);
lockPref("trailhead.firstrun.branches", "nofirstrun-empty");
lockPref("browser.aboutwelcome.enabled", false);
lockPref("browser.startup.homepage_override.mstone", "ignore");
lockPref("datareporting.policy.dataSubmissionPolicyBypassNotification", true);
{set_homepage}
EOF
sudo -u {contestant_account} cp /usr/share/applications/firefox.desktop ~{contestant_account}/Desktop
"#))];
    if !ca_certificate.is_empty() {
        let dir = "archiso-profile/airootfs/install/ca-certificates".to_string();
        v.push(Step::CreateDir { path: dir.clone() });
        for f in ca_certificate {
            v.push(Step::CopyInto { from: f.clone(), dir: dir.clone() });
        }
        v.push(post("87-ca-certificates", &format!(r#"
for cert in /install/ca-certificates/*
do
    trust anchor $cert
done
update-ca-trust
"#)));
    }
    v
}

fn expected_editors(a: &Args) -> Vec<Step> {
    let Args { pycharm, codeblocks, contestant_account, .. } = a;
    let mut v = vec![post("00-paru", &format!(r#"
set -x
pacman -S --noconfirm --needed base-devel git sudo
useradd -m paruuser
passwd -l paruuser
echo "paruuser ALL=(ALL:ALL) NOPASSWD: ALL" > /etc/sudoers.d/paruuser
TMP=$(mktemp -d /tmp/tmp.XXXXXXXX)
chown paruuser:paruuser $TMP
pushd $TMP
sudo -u paruuser git clone https://aur.archlinux.org/paru-bin.git
popd
pushd $TMP/paru-bin
sudo -u paruuser makepkg -si --noconfirm
popd
"#))];
    v.push(post("86-editors", &format!("pacman -S --noconfirm emacs geany gedit gvim neovim kate kdevelop nano")));
    if *pycharm {
        v.push(post("86-pycharm", &format!(r#"
pacman -S --noconfirm pycharm-community-edition
cd ~{contestant_account}
sudo -u {contestant_account} bash << AS_CONTESTANT
set -xe
mkdir -p .config/JetBrains/PyCharmCE2025.1/options/
cat > .config/JetBrains/PyCharmCE2025.1/options/other.xml << EOF
<application>
  <component name="LangManager">
    <option name="languageName" value="Python" />
  </component>
  <component name="NotRoamableUiSettings">
    <option name="presentationModeIdeScale" value="1.75" />
  </component>
  <component name="PropertyService"><![CDATA[{{
  "keyToString": {{
    "PyCharm.InitialConfiguration": "true",
    "PyCharm.InitialConfiguration.V2": "true",
    "PyCharm.InitialConfiguration.V3": "true",
    "PyCharm.InitialConfiguration.V4": "true",
    "PyCharm.InitialConfiguration.V5": "true",
    "PyCharm.InitialConfiguration.V6": "true",
    "PyCharm.InitialConfiguration.V7": "true",
    "PyCharm.InitialConfiguration.V8": "true",
    "ask.about.ctrl.y.shortcut.v2": "true",
    "experimental.ui.on.first.startup": "true",
    "experimental.ui.used.version": "251.26094.141",
    "experimentalFeature.terminal.shell.command.handling": "false",
    "fileTypeChangedCounter": "2",
    "fontSizeToResetConsole": "13.0",
    "fontSizeToResetEditor": "13.0",
    "ift.hide.welcome.screen.promo": "true",
    "ignore.ide.script.launcher.used": "true",
    "input.method.disabler.muted": "true",
    "previousColorScheme": "_@user_Dark",
    "registry.to.advanced.settings.migration.build": "PC-251.26094.141",
    "terminal.gen.one.option.visible": "false",
    "whats.new.last.shown.version": "9999-1.2-26094-6f065183c835868e278363490753d1b84b4aeb30"
  }},
  "keyToStringList": {{
    "fileTypeDetectors": [
      "com.intellij.ide.scratch.ScratchFileServiceImpl\\\$Detector",
      "org.jetbrains.plugins.textmate.TextMateFileType\\\$TextMateFileDetector"
    ]
  }}
}}]]></component>
</application>
EOF

cat > .config/JetBrains/PyCharmCE2025.1/options/actionSummary.xml << EOF
<application>
  <component name="ActionsLocalSummary">
    <e n="com.intellij.ide.startup.importSettings.chooser.productChooser.SkipImportAction">
      <i c="1" l="1752005559715" />
    </e>
  </component>
</application>
EOF

JAVA_PREF_DIR=.java/.userPrefs/jetbrains/_\!\(\!\!cg\"p\!\(\}}\!\}}@\"j\!\(k\!\|w\"w\!\'8\!b\!\"p\!\'\:\!e@\=\=/
mkdir -p \$JAVA_PREF_DIR
cat > \$JAVA_PREF_DIR/prefs.xml << EOF
<!DOCTYPE map SYSTEM "http://java.sun.com/dtd/preferences.dtd">
<map MAP_XML_VERSION="1.0">
  <entry key="euacommunity_accepted_version" value="1.0"/>
</map>
EOF
mkdir -p .local/share/JetBrains/consentOptions/
echo -n "rsch.send.usage.stat:1.1:0:1752009309526" > .local/share/JetBrains/consentOptions/accepted
AS_CONTESTANT
"#)));
    }
    if *codeblocks {
        v.push(post("86-codeblocks", &format!("pacman -S --noconfirm codeblocks xterm")));
    }
    v.push(post("86-vscode", &format!(r#"
pacman -S --noconfirm sqlite3
sudo -u paruuser paru -S --noconfirm visual-studio-code-bin
sudo -u {contestant_account} bash << EOF
set -xe
code --install-extension ms-python.python
code --install-extension ms-vscode.cpptools
code --install-extension vscodevim.vim
mkdir -p ~{contestant_account}/.config/Code/User/globalStorage/
sqlite3 ~{contestant_account}/.config/Code/User/globalStorage/state.vscdb << SQLITE
CREATE TABLE IF NOT EXISTS ItemTable (key TEXT UNIQUE ON CONFLICT REPLACE, value BLOB);
INSERT INTO ItemTable VALUES('extensionsIdentifiers/disabled', '[{{"id":"vscodevim.vim","uuid":"d96e79c6-8b25-4be3-8545-0e0ecefcae03"}}]');
SQLITE
echo '{{"workbench.startupEditor": "none"}}' > ~{contestant_account}/.config/Code/User/settings.json
cp /usr/share/applications/code.desktop ~{contestant_account}/Desktop
EOF
"#)));
    v.push(post("86-eclipse", &format!("sudo -u paruuser paru -S --noconfirm eclipse-cpp-bin")));
    v
}

fn expected_lockdown(a: &Args) -> Vec<Step> {
    let Args { no_lockdown, orga_net, server_ip, .. } = a;
    if *no_lockdown {
        return vec![];
    }
    vec![post("80-lockdown", &format!(r#"
pacman -S --noconfirm nftables
cat > /etc/systemd/system/lockdown.service << EOF
[Unit]
Description=lockdown
Requires=wait-hostname.service
After=wait-hostname.service
Before=gdm.service

[Service]
Type=oneshot
RemainAfterExit=true
ExecStart=/usr/local/bin/lockdown.sh
ExecStop=/usr/local/bin/unlock.sh

[Install]
WantedBy=multi-user.target
EOF

cat > /usr/local/bin/lockdown.sh << EOF
#!/bin/bash

nft -f - << NFT
destroy table inet lockdown

define server_ip = {server_ip}
define orga_net = {orga_net}

table inet lockdown {{
  chain input {{
    type filter hook input priority filter
    policy drop

    iif lo accept

    ip saddr {{ \\\$server_ip, \\\$orga_net }} accept

    counter reject with icmpx admin-prohibited
  }}

  chain output {{
    type filter hook output priority filter
    policy drop

    oif lo accept

    ip daddr {{ \\\$server_ip, \\\$orga_net }} ct state {{ related, established }} accept

    ip daddr \\\$server_ip meta l4proto . th dport {{
      tcp . 80,
      tcp . 443,
      udp . 53,
      udp . 123,
      udp . 67,
      udp . 68,
      udp . 25643
    }} accept

    counter reject with icmpx admin-prohibited
  }}
}}
NFT

# USB
KER=\$(uname -r)
rmmod uas
rmmod usb_storage
mv /lib/modules/\$KER/kernel/drivers/usb/storage/uas.ko.zst{{,.blacklist}}
mv /lib/modules/\$KER/kernel/drivers/usb/storage/usb-storage.ko.zst{{,.blacklist}}
EOF

cat > /usr/local/bin/unlock.sh << EOF
#!/bin/bash

nft destroy table inet lockdown

# USB
KER=\$(uname -r)
udevadm control --reload-rules
udevadm trigger
mv /lib/modules/\$KER/kernel/drivers/usb/storage/uas.ko.zst{{.blacklist,}}
mv /lib/modules/\$KER/kernel/drivers/usb/storage/usb-storage.ko.zst{{.blacklist,}}
modprobe uas
modprobe usb_storage
EOF

chmod +x /usr/local/bin/lockdown.sh /usr/local/bin/unlock.sh

systemctl enable lockdown
"#))]
}

fn expected_pre(a: &Args) -> Vec<Step> {
    let Args { nowait, pin_packages, .. } = a;
    let mut v = vec![];
    if !*nowait {
        v.push(pre("00-wait", &format!(r#"
for i in 60 50 40 30 20 10
do
  echo -n "$i... "
  sleep 10
done"#)));
    }
    v.push(pre("10-partitions", &format!(r#"
echo -e "label: gpt\n- 500MiB U -\n- - L -" | sfdisk $DISK
"#)));
    v.push(pre("20-fs", &format!(r#"
# Wait for partitions to be online.
while ! [ -e $DISK*1 ] || ! [ -e $DISK*2 ]
do
  sleep 5
done

mkfs -t vfat $DISK*1
mkfs -F -t ext4 $DISK*2

mount $DISK*2 /mnt
mount --mkdir $DISK*1 /mnt/boot
"#)));
    v.push(pre("25-wait-online", &format!(r#"
while ! curl gstatic.com/generate_204
do
    sleep 5
done"#)));
    if let Some(pin_packages) = pin_packages {
        v.push(pre("30-fix-mirrors", &format!(r#"echo 'Server=https://archive.archlinux.org/repos/{pin_packages}/$repo/os/$arch' > /etc/pacman.d/mirrorlist"#)));
    } else {
        v.push(pre("30-mirrors", &format!(r#"reflector --score 5 --fastest 5 -c "Switzerland,Italy" --save /etc/pacman.d/mirrorlist"#)));
    }
    v.push(pre("40-install-base", &format!(r#"
pacman-key --init
pacman-key --populate
pacstrap -K /mnt base linux linux-firmware
"#)));
    v.push(pre("50-configure-inner", &format!(r#"
genfstab -U /mnt >> /mnt/etc/fstab
mount --bind --mkdir /install /mnt/install
arch-chroot /mnt bash /install/run_install_scripts.sh
umount -l /mnt/install
rm -rf /mnt/install
"#)));
    v
}

fn expected_user_files(a: &Args) -> Vec<Step> {
    let Args { contestant_account, additional_user_files, .. } = a;
    let dir = "archiso-profile/airootfs/install/additional_user_files".to_string();
    let mut v = vec![Step::CreateDir { path: dir.clone() }];
    for f in additional_user_files {
        v.push(Step::CopyInto { from: f.clone(), dir: dir.clone() });
    }
    if !additional_user_files.is_empty() {
        v.push(post("81-additional-user-files", &format!("cp -av /install/additional_user_files/* ~{contestant_account}")));
    }
    v
}

fn expected_users(a: &Args) -> Vec<Step> {
    let Args { contestant_account, orga_account, password, ssh_github, ssh, .. } = a;
    let mut gen_authorized_keys = String::new();
    for gh in ssh_github.iter() {
        gen_authorized_keys = format!("{gen_authorized_keys}\ncurl https://github.com/{gh}.keys");
    }
    for key in ssh.iter() {
        gen_authorized_keys = format!("{gen_authorized_keys}\necho {key}");
    }
    vec![
        post("70-sshd", &format!(r#"
pacman -S --noconfirm openssh rsync
systemctl enable sshd
gen_authorized_keys() {{
    {gen_authorized_keys}
}}
mkdir -p /root/.ssh /etc/skel/.ssh
gen_authorized_keys > /root/.ssh/authorized_keys
cp /root/.ssh/authorized_keys /etc/skel/.ssh/authorized_keys
"#)),
        post("80-contestant", &format!("useradd -m {contestant_account}\necho {contestant_account} | passwd -s {contestant_account}")),
        post("80-orga", &format!(r#"
pacman -S --noconfirm sudo
useradd -m {orga_account}
echo "{password}" | passwd -s {orga_account}
echo "{password}" | passwd -s root
echo "{orga_account} ALL=(ALL:ALL) NOPASSWD: ALL" > /etc/sudoers.d/orga_account
"#)),
    ]
}

#[test]
fn iso_root_is_profile_airootfs() {
    assert_eq!(iso_root(), "archiso-profile/airootfs");
}

#[test]
fn pre_script_goes_to_pre_install_with_header() {
    assert_eq!(
        add_pre_script("10-x", "echo hi"),
        Step::WriteScript {
            dir: PRE_DIR.to_string(),
            name: "10-x".to_string(),
            text: "set -e\necho hi\n".to_string(),
        }
    );
}

#[test]
fn post_script_goes_to_install_scripts_with_header() {
    assert_eq!(
        add_post_script("99-y", ""),
        Step::WriteScript {
            dir: POST_DIR.to_string(),
            name: "99-y".to_string(),
            text: "set -e\n\n".to_string(),
        }
    );
}

#[test]
fn ensure_paru_writes_one_script() {
    let steps = ensure_paru();
    assert_eq!(names(&steps), vec!["00-paru"]);
    assert_eq!(steps, expected_editors(&default_args())[..1].to_vec());
}

#[test]
fn base_setup_default_matches_templates() {
    let a = default_args();
    assert_eq!(base_setup(&a), expected_base(&a));
}

#[test]
fn base_setup_full_matches_templates() {
    let a = full_args();
    assert_eq!(base_setup(&a), expected_base(&a));
}

#[test]
fn base_setup_optional_scripts() {
    assert_eq!(
        names(&base_setup(&default_args())),
        vec![
            "00-wait-online-unit", "00-hosts", "00-time", "00-locale", "00-misc", "97-mkinitcpio",
            "98-grub", "99-networkd", "99-timesyncd", "99-resolved", "99-clean-cache",
        ]
    );
    let full = names(&base_setup(&full_args()));
    assert_eq!(full[0], "00-pixie-ping");
    assert_eq!(full[3], "00-node-exporter");
    assert_eq!(full.len(), 13);
}

#[test]
fn hosts_line_lists_server_then_extra_names() {
    let mut a = default_args();
    a.server_ip = "192.168.1.5".to_string();
    a.additional_server_names = vec!["judge".to_string(), "cms".to_string()];
    let steps = base_setup(&a);
    assert_eq!(
        steps[1],
        post("00-hosts", "echo -e \"127.0.0.1 localhost\\n192.168.1.5 olympiads-server judge cms\" > /etc/hosts")
    );
    let steps = base_setup(&default_args());
    assert_eq!(
        steps[1],
        post("00-hosts", "echo -e \"127.0.0.1 localhost\\n10.0.0.1 olympiads-server\" > /etc/hosts")
    );
}

#[test]
fn time_script_links_zoneinfo() {
    let mut a = default_args();
    a.timezone = "Europe/Zurich".to_string();
    let steps = base_setup(&a);
    assert_eq!(
        steps[2],
        post("00-time", "ln -sf /usr/share/zoneinfo/Europe/Zurich /etc/localtime\nhwclock --systohc")
    );
}

#[test]
fn locale_script_with_and_without_gnome_locale() {
    let a = default_args();
    assert_eq!(
        base_setup(&a)[3],
        post(
            "00-locale",
            "\necho \"en_US.UTF-8 UTF-8\" > /etc/locale.gen\n\nlocale-gen\necho LANG=en_US.UTF-8 > /etc/locale.conf"
        )
    );
    let mut a = default_args();
    a.gnome_locale = Some("it_CH".to_string());
    assert_eq!(
        base_setup(&a)[3],
        post(
            "00-locale",
            "\necho \"en_US.UTF-8 UTF-8\" > /etc/locale.gen\necho \"it_CH.UTF-8 UTF-8\" >> /etc/locale.gen\nlocale-gen\necho LANG=en_US.UTF-8 > /etc/locale.conf"
        )
    );
}

#[test]
fn backgrounds_off_does_nothing() {
    let mut a = default_args();
    a.default_background = Some("x.png".to_string());
    assert_eq!(backgrounds(&a), Ok(vec![]));
}

#[test]
fn backgrounds_without_default_is_refused() {
    let mut a = default_args();
    a.backgrounds = true;
    assert_eq!(backgrounds(&a), Err(PrepareError::MissingDefaultBackground));
    assert_eq!(PrepareError::MissingDefaultBackground.message(), "missing default background");
}

#[test]
fn backgrounds_with_default_matches_templates() {
    let a = full_args();
    assert_eq!(backgrounds(&a), Ok(expected_backgrounds(&a)));
}

#[test]
fn base_gui_setup_matches_templates() {
    let a = default_args();
    assert_eq!(base_gui_setup(&a), expected_base_gui(&a));
    let a = full_args();
    assert_eq!(base_gui_setup(&a), expected_base_gui(&a));
    assert_eq!(
        names(&base_gui_setup(&a)),
        vec!["84-lid", "85-gnome", "87-disable-keyring", "85-xorg", "85-virtualbox", "89-desktop-files"]
    );
}

#[test]
fn gdm_config_disables_wayland_only_when_asked() {
    let a = default_args();
    let gnome = &base_gui_setup(&a)[1];
    match gnome {
        Step::WriteScript { text, .. } => {
            assert!(text.contains("AutomaticLogin=olympiads\" > /etc/gdm/custom.conf"));
            assert!(!text.contains("WaylandEnable"));
        }
        _ => panic!("not a script"),
    }
    let mut a = default_args();
    a.disable_wayland = true;
    match &base_gui_setup(&a)[1] {
        Step::WriteScript { text, .. } => {
            assert!(text.contains("AutomaticLogin=olympiads\nWaylandEnable=false\" > /etc/gdm/custom.conf"));
        }
        _ => panic!("not a script"),
    }
}

#[test]
fn compilers_and_debuggers() {
    assert_eq!(
        compilers(),
        vec![post("86-compilers", "pacman -S --noconfirm base-devel pypy pypy3 python clang")]
    );
    assert_eq!(debuggers(), vec![post("86-debuggers", "pacman -S --noconfirm gdb valgrind perf")]);
}

#[test]
fn browser_matches_templates() {
    let a = default_args();
    assert_eq!(browser(&a), expected_browser(&a));
    assert_eq!(browser(&a).len(), 1);
    let a = full_args();
    assert_eq!(browser(&a), expected_browser(&a));
    assert_eq!(browser(&a).len(), 4);
}

#[test]
fn browser_pins_homepage() {
    let mut a = default_args();
    a.homepage = Some("http://example.org".to_string());
    match &browser(&a)[0] {
        Step::WriteScript { text, .. } => {
            assert!(text.contains("\nlockPref(\"browser.startup.homepage\", \"http://example.org\");\nEOF\n"));
        }
        _ => panic!("not a script"),
    }
}

#[test]
fn editors_matches_templates() {
    let a = default_args();
    assert_eq!(editors(&a), expected_editors(&a));
    assert_eq!(names(&editors(&a)), vec!["00-paru", "86-editors", "86-vscode", "86-eclipse"]);
    let a = full_args();
    assert_eq!(editors(&a), expected_editors(&a));
    assert_eq!(
        names(&editors(&a)),
        vec!["00-paru", "86-editors", "86-pycharm", "86-codeblocks", "86-vscode", "86-eclipse"]
    );
}

#[test]
fn lockdown_matches_templates() {
    let a = default_args();
    assert_eq!(lockdown(&a), expected_lockdown(&a));
    match &lockdown(&a)[0] {
        Step::WriteScript { text, .. } => {
            assert!(text.contains("define orga_net = 172.26.0.0/16\n"));
            assert!(text.contains("table inet lockdown {\n"));
        }
        _ => panic!("not a script"),
    }
    let mut a = default_args();
    a.no_lockdown = true;
    assert_eq!(lockdown(&a), vec![]);
}

#[test]
fn pre_install_matches_templates() {
    let a = default_args();
    assert_eq!(pre_install_scripts(&a), expected_pre(&a));
    assert_eq!(
        names(&pre_install_scripts(&a)),
        vec!["00-wait", "10-partitions", "20-fs", "25-wait-online", "30-mirrors", "40-install-base", "50-configure-inner"]
    );
    let a = full_args();
    assert_eq!(pre_install_scripts(&a), expected_pre(&a));
    assert_eq!(
        names(&pre_install_scripts(&a)),
        vec!["10-partitions", "20-fs", "25-wait-online", "30-fix-mirrors", "40-install-base", "50-configure-inner"]
    );
}

#[test]
fn pinned_mirror_uses_archive_date() {
    let mut a = default_args();
    a.pin_packages = Some("2024/01/31".to_string());
    assert_eq!(
        pre_install_scripts(&a)[4],
        pre(
            "30-fix-mirrors",
            "echo 'Server=https://archive.archlinux.org/repos/2024/01/31/$repo/os/$arch' > /etc/pacman.d/mirrorlist"
        )
    );
}

#[test]
fn additional_user_files_matches_templates() {
    let a = default_args();
    assert_eq!(additional_user_files(&a), expected_user_files(&a));
    assert_eq!(
        additional_user_files(&a),
        vec![Step::CreateDir { path: "archiso-profile/airootfs/install/additional_user_files".to_string() }]
    );
    let a = full_args();
    assert_eq!(additional_user_files(&a), expected_user_files(&a));
    assert_eq!(additional_user_files(&a).len(), 4);
}

#[test]
fn setup_users_matches_templates() {
    let a = default_args();
    assert_eq!(setup_users(&a), expected_users(&a));
    let a = full_args();
    assert_eq!(setup_users(&a), expected_users(&a));
}

#[test]
fn authorized_keys_in_order() {
    let mut a = default_args();
    a.ssh_github = vec!["alice".to_string(), "bob".to_string()];
    a.ssh = vec!["ssh-rsa K1".to_string(), "ssh-rsa K2".to_string()];
    match &setup_users(&a)[0] {
        Step::WriteScript { text, .. } => {
            assert!(text.contains(
                "gen_authorized_keys() {\n    \ncurl https://github.com/alice.keys\ncurl https://github.com/bob.keys\necho ssh-rsa K1\necho ssh-rsa K2\n}\n"
            ));
        }
        _ => panic!("not a script"),
    }
}

#[test]
fn accounts_scripts() {
    let a = default_args();
    let steps = setup_users(&a);
    assert_eq!(steps[1], post("80-contestant", "useradd -m olympiads\necho olympiads | passwd -s olympiads"));
    match &steps[2] {
        Step::WriteScript { text, .. } => {
            assert!(text.contains("echo \"hunter2\" | passwd -s orga\necho \"hunter2\" | passwd -s root\n"));
        }
        _ => panic!("not a script"),
    }
}

#[test]
fn plan_runs_every_stage_in_order() {
    for a in [default_args(), full_args()] {
        let (steps, err) = plan(&a);
        assert_eq!(err, None);
        let mut expected = expected_pre(&a);
        expected.extend(expected_users(&a));
        expected.extend(expected_user_files(&a));
        expected.extend(expected_base(&a));
        expected.extend(expected_base_gui(&a));
        if a.backgrounds {
            expected.extend(expected_backgrounds(&a));
        }
        expected.extend(expected_browser(&a));
        expected.extend(compilers());
        expected.extend(debuggers());
        expected.extend(expected_editors(&a));
        expected.extend(expected_lockdown(&a));
        assert_eq!(steps, expected);
    }
}

#[test]
fn plan_stops_at_missing_background() {
    let mut a = default_args();
    a.backgrounds = true;
    let (steps, err) = plan(&a);
    assert_eq!(err, Some(PrepareError::MissingDefaultBackground));
    let mut expected = expected_pre(&a);
    expected.extend(expected_users(&a));
    expected.extend(expected_user_files(&a));
    expected.extend(expected_base(&a));
    expected.extend(expected_base_gui(&a));
    assert_eq!(steps, expected);
}

#[test]
fn plan_script_names_are_distinct() {
    for a in [default_args(), full_args()] {
        let n = names(&plan(&a).0);
        let mut sorted = n.clone();
        sorted.sort();
        sorted.dedup();
        assert_eq!(sorted.len(), n.len());
    }
}

#[test]
fn plan_writes_stay_inside_profile() {
    for a in [default_args(), full_args()] {
        for s in plan(&a).0.iter() {
            assert!(target(s).starts_with("archiso-profile/airootfs/"));
        }
    }
}

#[test]
fn plan_pre_install_scripts_first() {
    let a = full_args();
    let steps = plan(&a).0;
    let n_pre = pre_install_scripts(&a).len();
    for (i, s) in steps.iter().enumerate() {
        let is_pre = matches!(s, Step::WriteScript { dir, .. } if dir == PRE_DIR);
        assert_eq!(is_pre, i < n_pre);
    }
}

#[test]
fn keyboard_layouts_become_input_sources() {
    let a = default_args();
    match &base_gui_setup(&a)[1] {
        Step::WriteScript { text, .. } => assert!(!text.contains("input-sources")),
        _ => panic!("not a script"),
    }
    let mut a = default_args();
    a.keyboard_layout = vec!["ch".to_string()];
    match &base_gui_setup(&a)[1] {
        Step::WriteScript { text, .. } => assert!(text.ends_with(
            "audible-bell false\ngsettings set org.gnome.desktop.input-sources sources \"[('xkb', 'ch')]\"\nEOF\n\n"
        )),
        _ => panic!("not a script"),
    }
    a.keyboard_layout = vec!["ch".to_string(), "us".to_string(), "it".to_string()];
    match &base_gui_setup(&a)[1] {
        Step::WriteScript { text, .. } => assert!(text.contains(
            "sources \"[('xkb', 'ch'), ('xkb', 'us'), ('xkb', 'it')]\"\n"
        )),
        _ => panic!("not a script"),
    }
}

#[test]
fn firewall_admits_the_given_server() {
    let mut a = default_args();
    a.server_ip = "192.168.7.1".to_string();
    match &lockdown(&a)[0] {
        Step::WriteScript { text, .. } => {
            assert!(text.contains("define server_ip = 192.168.7.1\ndefine orga_net = 172.26.0.0/16\n"));
            assert!(!text.contains("10.0.0.1"));
        }
        _ => panic!("not a script"),
    }
}
