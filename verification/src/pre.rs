use vstd::prelude::*;

use crate::args::{Args, ArgsView};
use crate::util::{add_pre_script, pre_script, steps_view, Step, StepModel};

verus! {

/// Name of the script `00-wait`.
pub const WAIT_SCRIPT: &'static str = "00-wait";

/// Contents of the script `00-wait`.
pub const WAIT_TEXT: &'static str = r#"
for i in 60 50 40 30 20 10
do
  echo -n "$i... "
  sleep 10
done"#;

/// Name of the script `10-partitions`.
pub const PARTITIONS_SCRIPT: &'static str = "10-partitions";

/// Contents of the script `10-partitions`.
pub const PARTITIONS_TEXT: &'static str = r#"
echo -e "label: gpt\n- 500MiB U -\n- - L -" | sfdisk $DISK
"#;

/// Name of the script `20-fs`.
pub const FS_SCRIPT: &'static str = "20-fs";

/// Contents of the script `20-fs`.
pub const FS_TEXT: &'static str = r#"
# Wait for partitions to be online.
while ! [ -e $DISK*1 ] || ! [ -e $DISK*2 ]
do
  sleep 5
done

mkfs -t vfat $DISK*1
mkfs -F -t ext4 $DISK*2

mount $DISK*2 /mnt
mount --mkdir $DISK*1 /mnt/boot
"#;

/// Name of the script `25-wait-online`.
pub const WAIT_ONLINE_SCRIPT: &'static str = "25-wait-online";

/// Contents of the script `25-wait-online`.
pub const WAIT_ONLINE_TEXT: &'static str = r#"
while ! curl gstatic.com/generate_204
do
    sleep 5
done"#;

/// Name of the script `30-fix-mirrors`.
pub const FIX_MIRRORS_SCRIPT: &'static str = "30-fix-mirrors";

/// A fixed part of the script `30-fix-mirrors`.
pub const FIX_MIRRORS_A: &'static str = r#"echo 'Server=https://archive.archlinux.org/repos/"#;

/// A fixed part of the script `30-fix-mirrors`.
pub const FIX_MIRRORS_B: &'static str = r#"/$repo/os/$arch' > /etc/pacman.d/mirrorlist"#;

/// Contents of the script `30-fix-mirrors`.
pub open spec fn fix_mirrors_text(pin_packages: Seq<char>) -> Seq<char> {
    FIX_MIRRORS_A@ + pin_packages + FIX_MIRRORS_B@
}

/// Renders the contents of the script `30-fix-mirrors`.
pub fn make_fix_mirrors(pin_packages: &str) -> (r: String)
    ensures
        r@ == fix_mirrors_text(pin_packages@),
{
    let mut r = String::from_str(FIX_MIRRORS_A);
    r.append(pin_packages);
    r.append(FIX_MIRRORS_B);
    r
}

/// Name of the script `30-mirrors`.
pub const MIRRORS_SCRIPT: &'static str = "30-mirrors";

/// Contents of the script `30-mirrors`.
pub const MIRRORS_TEXT: &'static str = r#"reflector --score 5 --fastest 5 -c "Switzerland,Italy" --save /etc/pacman.d/mirrorlist"#;

/// Name of the script `40-install-base`.
pub const INSTALL_BASE_SCRIPT: &'static str = "40-install-base";

/// Contents of the script `40-install-base`.
pub const INSTALL_BASE_TEXT: &'static str = r#"
pacman-key --init
pacman-key --populate
pacstrap -K /mnt base linux linux-firmware
"#;

/// Name of the script `50-configure-inner`.
pub const CONFIGURE_INNER_SCRIPT: &'static str = "50-configure-inner";

/// Contents of the script `50-configure-inner`.
pub const CONFIGURE_INNER_TEXT: &'static str = r#"
genfstab -U /mnt >> /mnt/etc/fstab
mount --bind --mkdir /install /mnt/install
arch-chroot /mnt bash /install/run_install_scripts.sh
umount -l /mnt/install
rm -rf /mnt/install
"#;

/// The scripts run before the system is installed: an optional countdown, partitioning,
/// file systems, network, package mirrors (pinned to a date or ranked by speed), the base
/// system, then the hand-over to the scripts inside the new system.
pub open spec fn pre_install_plan(a: ArgsView) -> Seq<StepModel> {
    (if a.nowait {
        Seq::empty()
    } else {
        seq![pre_script(WAIT_SCRIPT@, WAIT_TEXT@)]
    }) + seq![
        pre_script(PARTITIONS_SCRIPT@, PARTITIONS_TEXT@),
        pre_script(FS_SCRIPT@, FS_TEXT@),
        pre_script(WAIT_ONLINE_SCRIPT@, WAIT_ONLINE_TEXT@),
        match a.pin_packages {
            Some(date) => pre_script(FIX_MIRRORS_SCRIPT@, fix_mirrors_text(date)),
            None => pre_script(MIRRORS_SCRIPT@, MIRRORS_TEXT@),
        },
        pre_script(INSTALL_BASE_SCRIPT@, INSTALL_BASE_TEXT@),
        pre_script(CONFIGURE_INNER_SCRIPT@, CONFIGURE_INNER_TEXT@),
    ]
}

/// The steps that write the scripts run before the system is installed.
pub fn pre_install_scripts(args: &Args) -> (r: Vec<Step>)
    ensures
        steps_view(r@) == pre_install_plan(args@),
{
    let mut steps: Vec<Step> = Vec::new();
    if !args.nowait {
        steps.push(add_pre_script(WAIT_SCRIPT, WAIT_TEXT));
    }
    steps.push(add_pre_script(PARTITIONS_SCRIPT, PARTITIONS_TEXT));
    steps.push(add_pre_script(FS_SCRIPT, FS_TEXT));
    steps.push(add_pre_script(WAIT_ONLINE_SCRIPT, WAIT_ONLINE_TEXT));
    match &args.pin_packages {
        Some(pin_packages) => {
            let text = make_fix_mirrors(pin_packages.as_str());
            steps.push(add_pre_script(FIX_MIRRORS_SCRIPT, text.as_str()));
        },
        None => {
            steps.push(add_pre_script(MIRRORS_SCRIPT, MIRRORS_TEXT));
        },
    }
    steps.push(add_pre_script(INSTALL_BASE_SCRIPT, INSTALL_BASE_TEXT));
    steps.push(add_pre_script(CONFIGURE_INNER_SCRIPT, CONFIGURE_INNER_TEXT));
    proof {
        assert(steps_view(steps@) =~= pre_install_plan(args@));
    }
    steps
}

} // verus!
