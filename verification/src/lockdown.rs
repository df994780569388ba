use vstd::prelude::*;

use crate::args::{Args, ArgsView};
use crate::util::{add_post_script, post_script, steps_view, Step, StepModel};

verus! {

/// Name of the script `80-lockdown`.
pub const LOCKDOWN_SCRIPT: &'static str = "80-lockdown";

/// A fixed part of the script `80-lockdown`.
pub const LOCKDOWN_A: &'static str = r#"
pacman -S --noconfirm nftables
cat > /etc/systemd/system/lockdown.service << EOF
[Unit]
Description=lockdown
Requires=wait-hostname.service
After=wait-hostname.service
Before=gdm.service

[Service]
Type=oneshot
RemainAfterExit=true
ExecStart=/usr/local/bin/lockdown.sh
ExecStop=/usr/local/bin/unlock.sh

[Install]
WantedBy=multi-user.target
EOF

cat > /usr/local/bin/lockdown.sh << EOF
#!/bin/bash

nft -f - << NFT
destroy table inet lockdown

define server_ip = "#;

/// A fixed part of the script `80-lockdown`.
pub const LOCKDOWN_B: &'static str = r#"
define orga_net = "#;

/// A fixed part of the script `80-lockdown`.
pub const LOCKDOWN_C: &'static str = r#"

table inet lockdown {
  chain input {
    type filter hook input priority filter
    policy drop

    iif lo accept

    ip saddr { \\\$server_ip, \\\$orga_net } accept

    counter reject with icmpx admin-prohibited
  }

  chain output {
    type filter hook output priority filter
    policy drop

    oif lo accept

    ip daddr { \\\$server_ip, \\\$orga_net } ct state { related, established } accept

    ip daddr \\\$server_ip meta l4proto . th dport {
      tcp . 80,
      tcp . 443,
      udp . 53,
      udp . 123,
      udp . 67,
      udp . 68,
      udp . 25643
    } accept

    counter reject with icmpx admin-prohibited
  }
}
NFT

# USB
KER=\$(uname -r)
rmmod uas
rmmod usb_storage
mv /lib/modules/\$KER/kernel/drivers/usb/storage/uas.ko.zst{,.blacklist}
mv /lib/modules/\$KER/kernel/drivers/usb/storage/usb-storage.ko.zst{,.blacklist}
EOF

cat > /usr/local/bin/unlock.sh << EOF
#!/bin/bash

nft destroy table inet lockdown

# USB
KER=\$(uname -r)
udevadm control --reload-rules
udevadm trigger
mv /lib/modules/\$KER/kernel/drivers/usb/storage/uas.ko.zst{.blacklist,}
mv /lib/modules/\$KER/kernel/drivers/usb/storage/usb-storage.ko.zst{.blacklist,}
modprobe uas
modprobe usb_storage
EOF

chmod +x /usr/local/bin/lockdown.sh /usr/local/bin/unlock.sh

systemctl enable lockdown
"#;

/// Contents of the script `80-lockdown`.
pub open spec fn lockdown_text(server_ip: Seq<char>, orga_net: Seq<char>) -> Seq<char> {
    LOCKDOWN_A@ + server_ip + LOCKDOWN_B@ + orga_net + LOCKDOWN_C@
}

/// Renders the contents of the script `80-lockdown`.
pub fn make_lockdown(server_ip: &str, orga_net: &str) -> (r: String)
    ensures
        r@ == lockdown_text(server_ip@, orga_net@),
{
    let mut r = String::from_str(LOCKDOWN_A);
    r.append(server_ip);
    r.append(LOCKDOWN_B);
    r.append(orga_net);
    r.append(LOCKDOWN_C);
    r
}

/// The lockdown stage: nothing when lockdown is turned off, else the firewall and USB
/// lockdown service that only lets the machine talk to the given server address and the
/// organizers' network.
pub open spec fn lockdown_plan(a: ArgsView) -> Seq<StepModel> {
    if a.no_lockdown {
        Seq::empty()
    } else {
        seq![post_script(LOCKDOWN_SCRIPT@, lockdown_text(a.server_ip, a.orga_net))]
    }
}

/// The steps that lock the machine down.
pub fn lockdown(args: &Args) -> (r: Vec<Step>)
    ensures
        steps_view(r@) == lockdown_plan(args@),
{
    let mut steps: Vec<Step> = Vec::new();
    if !args.no_lockdown {
        let text = make_lockdown(args.server_ip.as_str(), args.orga_net.as_str());
        steps.push(add_post_script(LOCKDOWN_SCRIPT, text.as_str()));
    }
    proof {
        assert(steps_view(steps@) =~= lockdown_plan(args@));
    }
    steps
}

} // verus!
