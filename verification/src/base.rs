use vstd::prelude::*;

use crate::args::{Args, ArgsView};
use crate::util::{
    add_post_script, append_each, post_script, steps_view, wrapped_concat, Step, StepModel,
};

verus! {

/// Host name of the contest server, always first on its line in `/etc/hosts`.
pub const SERVER_HOSTNAME: &'static str = "olympiads-server";

/// Separator between the names of the server in `/etc/hosts`.
pub const HOST_SEPARATOR: &'static str = " ";

/// Text in front of the GNOME locale in its `locale.gen` line.
pub const GNOME_LOCALE_A: &'static str = r#"echo ""#;

/// Text behind the GNOME locale in its `locale.gen` line.
pub const GNOME_LOCALE_B: &'static str = r#".UTF-8 UTF-8" >> /etc/locale.gen"#;

/// The names under which the server is known: its own, then each additional one.
pub open spec fn hosts_line(names: Seq<Seq<char>>) -> Seq<char> {
    SERVER_HOSTNAME@ + wrapped_concat(names, HOST_SEPARATOR@, Seq::empty())
}

/// The shell line that adds the GNOME locale to `locale.gen`; empty without one.
pub open spec fn gnome_locale_line(gnome_locale: Option<Seq<char>>) -> Seq<char> {
    match gnome_locale {
        Some(s) => GNOME_LOCALE_A@ + s + GNOME_LOCALE_B@,
        None => Seq::empty(),
    }
}

/// Name of the script `00-pixie-ping`.
pub const PIXIE_PING_SCRIPT: &'static str = "00-pixie-ping";

/// A fixed part of the script `00-pixie-ping`.
pub const PIXIE_PING_A: &'static str = r#"
pacman -S --noconfirm openbsd-netcat
cat > /etc/systemd/system/pixie-ping.timer << EOF
[Unit]
Description=Pixie ping timer

[Timer]
OnBootSec=30s
OnUnitActiveSec=30s

[Install]
WantedBy=timers.target
EOF

cat > /etc/systemd/system/pixie-ping.service << EOF
[Unit]
Description=Pixie ping

[Service]
Type=oneshot
User="#;

/// A fixed part of the script `00-pixie-ping`.
pub const PIXIE_PING_B: &'static str = r#"
Group="#;

/// A fixed part of the script `00-pixie-ping`.
pub const PIXIE_PING_C: &'static str = r#"
ExecStart=/bin/bash -c "echo 'linux' | nc -w 0 -u olympiads-server 25643"

[Install]
WantedBy=multi-user.target
EOF

systemctl enable pixie-ping.timer
"#;

/// Contents of the script `00-pixie-ping`.
pub open spec fn pixie_ping_text(orga_account: Seq<char>) -> Seq<char> {
    PIXIE_PING_A@ + orga_account + PIXIE_PING_B@ + orga_account + PIXIE_PING_C@
}

/// Renders the contents of the script `00-pixie-ping`.
pub fn make_pixie_ping(orga_account: &str) -> (r: String)
    ensures
        r@ == pixie_ping_text(orga_account@),
{
    let mut r = String::from_str(PIXIE_PING_A);
    r.append(orga_account);
    r.append(PIXIE_PING_B);
    r.append(orga_account);
    r.append(PIXIE_PING_C);
    r
}

/// Name of the script `00-wait-online-unit`.
pub const WAIT_ONLINE_UNIT_SCRIPT: &'static str = "00-wait-online-unit";

/// Contents of the script `00-wait-online-unit`.
pub const WAIT_ONLINE_UNIT_TEXT: &'static str = r#"
cat > /etc/systemd/system/wait-hostname.service << EOF
[Unit]
Description=wait hostname
Wants=network-online.target
After=network-online.target
After=dhcpcd.service
Before=gdm.service

[Service]
Type=oneshot
ExecStart=/usr/local/bin/wait-hostname.sh
StartLimitBurst=100

[Install]
WantedBy=multi-user.target
EOF


cat > /usr/local/bin/wait-hostname.sh << EOF
#!/bin/bash
while true
do
        if [[ "\$(hostnamectl hostname)" = "archlinux" ]]
        then
            echo Waiting for hostname update
            sleep 1
        else
            break
        fi
done
EOF
chmod +x /usr/local/bin/wait-hostname.sh
systemctl enable wait-hostname.service
"#;

/// Name of the script `00-hosts`.
pub const HOSTS_SCRIPT: &'static str = "00-hosts";

/// A fixed part of the script `00-hosts`.
pub const HOSTS_A: &'static str = r#"echo -e "127.0.0.1 localhost\n"#;

/// A fixed part of the script `00-hosts`.
pub const HOSTS_B: &'static str = r#" "#;

/// A fixed part of the script `00-hosts`.
pub const HOSTS_C: &'static str = r#"" > /etc/hosts"#;

/// Contents of the script `00-hosts`.
pub open spec fn hosts_text(server_ip: Seq<char>, hline: Seq<char>) -> Seq<char> {
    HOSTS_A@ + server_ip + HOSTS_B@ + hline + HOSTS_C@
}

/// Renders the contents of the script `00-hosts`.
pub fn make_hosts(server_ip: &str, hline: &str) -> (r: String)
    ensures
        r@ == hosts_text(server_ip@, hline@),
{
    let mut r = String::from_str(HOSTS_A);
    r.append(server_ip);
    r.append(HOSTS_B);
    r.append(hline);
    r.append(HOSTS_C);
    r
}

/// Name of the script `00-node-exporter`.
pub const NODE_EXPORTER_SCRIPT: &'static str = "00-node-exporter";

/// Contents of the script `00-node-exporter`.
pub const NODE_EXPORTER_TEXT: &'static str = r#"
pacman -S --noconfirm prometheus-node-exporter
systemctl enable prometheus-node-exporter
"#;

/// Name of the script `00-time`.
pub const TIME_SCRIPT: &'static str = "00-time";

/// A fixed part of the script `00-time`.
pub const TIME_A: &'static str = "ln -sf /usr/share/zoneinfo/";

/// A fixed part of the script `00-time`.
pub const TIME_B: &'static str = " /etc/localtime\nhwclock --systohc";

/// Contents of the script `00-time`.
pub open spec fn time_text(timezone: Seq<char>) -> Seq<char> {
    TIME_A@ + timezone + TIME_B@
}

/// Renders the contents of the script `00-time`.
pub fn make_time(timezone: &str) -> (r: String)
    ensures
        r@ == time_text(timezone@),
{
    let mut r = String::from_str(TIME_A);
    r.append(timezone);
    r.append(TIME_B);
    r
}

/// Name of the script `00-locale`.
pub const LOCALE_SCRIPT: &'static str = "00-locale";

/// A fixed part of the script `00-locale`.
pub const LOCALE_A: &'static str = r#"
echo ""#;

/// A fixed part of the script `00-locale`.
pub const LOCALE_B: &'static str = r#".UTF-8 UTF-8" > /etc/locale.gen
"#;

/// A fixed part of the script `00-locale`.
pub const LOCALE_C: &'static str = r#"
locale-gen
echo LANG="#;

/// A fixed part of the script `00-locale`.
pub const LOCALE_D: &'static str = r#".UTF-8 > /etc/locale.conf"#;

/// Contents of the script `00-locale`.
pub open spec fn locale_text(locale: Seq<char>, gnome_locale: Seq<char>) -> Seq<char> {
    LOCALE_A@ + locale + LOCALE_B@ + gnome_locale + LOCALE_C@ + locale + LOCALE_D@
}

/// Renders the contents of the script `00-locale`.
pub fn make_locale(locale: &str, gnome_locale: &str) -> (r: String)
    ensures
        r@ == locale_text(locale@, gnome_locale@),
{
    let mut r = String::from_str(LOCALE_A);
    r.append(locale);
    r.append(LOCALE_B);
    r.append(gnome_locale);
    r.append(LOCALE_C);
    r.append(locale);
    r.append(LOCALE_D);
    r
}

/// Name of the script `00-misc`.
pub const MISC_SCRIPT: &'static str = "00-misc";

/// Contents of the script `00-misc`.
pub const MISC_TEXT: &'static str = "pacman -S --noconfirm less bash-completion screen tmux nano";

/// Name of the script `97-mkinitcpio`.
pub const MKINITCPIO_SCRIPT: &'static str = "97-mkinitcpio";

/// Contents of the script `97-mkinitcpio`.
pub const MKINITCPIO_TEXT: &'static str = "mkinitcpio -P linux";

/// Name of the script `98-grub`.
pub const GRUB_SCRIPT: &'static str = "98-grub";

/// Contents of the script `98-grub`.
pub const GRUB_TEXT: &'static str = r#"
pacman -S --noconfirm grub efibootmgr
grub-install --target=x86_64-efi --efi-directory=/boot
grub-mkconfig -o /boot/grub/grub.cfg
"#;

/// Name of the script `99-networkd`.
pub const NETWORKD_SCRIPT: &'static str = "99-networkd";

/// Contents of the script `99-networkd`.
pub const NETWORKD_TEXT: &'static str = r#"
systemctl enable systemd-networkd
echo -e "[Match]\nName=en*\nName=eth*\n[Network]\nDHCP=yes" >> /etc/systemd/network/20-ethernet.network
"#;

/// Name of the script `99-timesyncd`.
pub const TIMESYNCD_SCRIPT: &'static str = "99-timesyncd";

/// Contents of the script `99-timesyncd`.
pub const TIMESYNCD_TEXT: &'static str = r#"
systemctl enable systemd-timesyncd
echo -e "[Time]\nNTP=olympiads-server\nRootDistanceMaxSec=30" > /etc/systemd/timesyncd.conf
"#;

/// Name of the script `99-resolved`.
pub const RESOLVED_SCRIPT: &'static str = "99-resolved";

/// Contents of the script `99-resolved`.
pub const RESOLVED_TEXT: &'static str = r#"
systemctl enable systemd-resolved
umount /etc/resolv.conf
mkdir -p /etc/systemd/resolved.conf.d/
cat > /etc/systemd/resolved.conf.d/disable_stub.conf << EOF
[Resolve]
DNSStubListener=no
EOF
ln -sf /run/systemd/resolve/resolv.conf /etc/resolv.conf
sed -i "s/^hosts:.*/hosts: mymachines files myhostname dns/g" /etc/nsswitch.conf
"#;

/// Name of the script `99-clean-cache`.
pub const CLEAN_CACHE_SCRIPT: &'static str = "99-clean-cache";

/// Contents of the script `99-clean-cache`.
pub const CLEAN_CACHE_TEXT: &'static str = "yes | pacman -Scc";

/// The steps of the base system setup, in order.
pub open spec fn base_setup_plan(a: ArgsView) -> Seq<StepModel> {
    (if a.pixie {
        seq![post_script(PIXIE_PING_SCRIPT@, pixie_ping_text(a.orga_account))]
    } else {
        Seq::empty()
    }) + seq![
        post_script(WAIT_ONLINE_UNIT_SCRIPT@, WAIT_ONLINE_UNIT_TEXT@),
        post_script(HOSTS_SCRIPT@, hosts_text(a.server_ip, hosts_line(a.additional_server_names))),
    ] + (if a.node_exporter {
        seq![post_script(NODE_EXPORTER_SCRIPT@, NODE_EXPORTER_TEXT@)]
    } else {
        Seq::empty()
    }) + seq![
        post_script(TIME_SCRIPT@, time_text(a.timezone)),
        post_script(LOCALE_SCRIPT@, locale_text(a.locale, gnome_locale_line(a.gnome_locale))),
        post_script(MISC_SCRIPT@, MISC_TEXT@),
        post_script(MKINITCPIO_SCRIPT@, MKINITCPIO_TEXT@),
        post_script(GRUB_SCRIPT@, GRUB_TEXT@),
        post_script(NETWORKD_SCRIPT@, NETWORKD_TEXT@),
        post_script(TIMESYNCD_SCRIPT@, TIMESYNCD_TEXT@),
        post_script(RESOLVED_SCRIPT@, RESOLVED_TEXT@),
        post_script(CLEAN_CACHE_SCRIPT@, CLEAN_CACHE_TEXT@),
    ]
}

/// The names of the server for `/etc/hosts`, separated by single spaces.
pub fn make_hosts_line(names: &Vec<String>) -> (r: String)
    ensures
        r@ == hosts_line(crate::args::strings_view(names@)),
{
    let mut r = String::from_str(SERVER_HOSTNAME);
    append_each(&mut r, names, HOST_SEPARATOR, "");
    proof {
        reveal_strlit("");
        assert(""@ =~= Seq::<char>::empty());
    }
    r
}

/// The `locale.gen` line of the GNOME locale, or the empty string.
pub fn make_gnome_locale_line(gnome_locale: &Option<String>) -> (r: String)
    ensures
        r@ == gnome_locale_line(crate::args::opt_view(*gnome_locale)),
{
    match gnome_locale {
        Some(s) => {
            let mut r = String::from_str(GNOME_LOCALE_A);
            r.append(s.as_str());
            r.append(GNOME_LOCALE_B);
            r
        },
        None => String::new(),
    }
}

/// The steps that set up the base system: network naming, time, locale, boot loader and
/// system services.
pub fn base_setup(args: &Args) -> (r: Vec<Step>)
    ensures
        steps_view(r@) == base_setup_plan(args@),
{
    let mut steps: Vec<Step> = Vec::new();
    if args.pixie {
        let text = make_pixie_ping(args.orga_account.as_str());
        steps.push(add_post_script(PIXIE_PING_SCRIPT, text.as_str()));
    }
    steps.push(add_post_script(WAIT_ONLINE_UNIT_SCRIPT, WAIT_ONLINE_UNIT_TEXT));
    let hline = make_hosts_line(&args.additional_server_names);
    let text = make_hosts(args.server_ip.as_str(), hline.as_str());
    steps.push(add_post_script(HOSTS_SCRIPT, text.as_str()));
    if args.node_exporter {
        steps.push(add_post_script(NODE_EXPORTER_SCRIPT, NODE_EXPORTER_TEXT));
    }
    let text = make_time(args.timezone.as_str());
    steps.push(add_post_script(TIME_SCRIPT, text.as_str()));
    let gnome = make_gnome_locale_line(&args.gnome_locale);
    let text = make_locale(args.locale.as_str(), gnome.as_str());
    steps.push(add_post_script(LOCALE_SCRIPT, text.as_str()));
    steps.push(add_post_script(MISC_SCRIPT, MISC_TEXT));
    steps.push(add_post_script(MKINITCPIO_SCRIPT, MKINITCPIO_TEXT));
    steps.push(add_post_script(GRUB_SCRIPT, GRUB_TEXT));
    steps.push(add_post_script(NETWORKD_SCRIPT, NETWORKD_TEXT));
    steps.push(add_post_script(TIMESYNCD_SCRIPT, TIMESYNCD_TEXT));
    steps.push(add_post_script(RESOLVED_SCRIPT, RESOLVED_TEXT));
    steps.push(add_post_script(CLEAN_CACHE_SCRIPT, CLEAN_CACHE_TEXT));
    proof {
        assert(steps_view(steps@) =~= base_setup_plan(args@));
    }
    steps
}

/// Without extra names the server is known only as `olympiads-server`; each extra name is
/// added, after a single space, behind the names before it.
pub proof fn law_hosts_line(names: Seq<Seq<char>>, name: Seq<char>)
    ensures
        hosts_line(Seq::empty()) == SERVER_HOSTNAME@,
        hosts_line(names.push(name)) == hosts_line(names) + HOST_SEPARATOR@ + name,
{
    assert(names.push(name).drop_last() =~= names);
    assert(hosts_line(Seq::empty()) =~= SERVER_HOSTNAME@);
    assert(hosts_line(names.push(name)) =~= hosts_line(names) + HOST_SEPARATOR@ + name);
}

/// The GNOME locale adds its own `locale.gen` line, and no GNOME locale adds nothing.
pub proof fn law_gnome_locale_line(locale: Seq<char>)
    ensures
        gnome_locale_line(None) == Seq::<char>::empty(),
        gnome_locale_line(Some(locale)) == GNOME_LOCALE_A@ + locale + GNOME_LOCALE_B@,
{
}

} // verus!
