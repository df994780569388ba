use vstd::prelude::*;

use crate::args::strings_view;

verus! {

/// Root of the archiso profile tree that the install image is built from.
pub const ISO_ROOT: &'static str = "archiso-profile/airootfs";

/// Directory, below the profile root, of the scripts run before the system is installed.
pub const PRE_INSTALL_DIR: &'static str = "pre_install";

/// Directory, below the profile root, of the scripts run inside the installed system.
pub const POST_INSTALL_DIR: &'static str = "install/scripts";

/// First line of every script written into the image: abort on the first failing command.
pub const SCRIPT_HEADER: &'static str = "set -e\n";

/// Line terminator written after a script's contents.
pub const NEWLINE: &'static str = "\n";

/// Separator between a directory and an entry below it.
pub const PATH_SEP: &'static str = "/";

/// Abstract form of a file-system step: every string is taken by its characters.
pub enum StepModel {
    CreateDir { path: Seq<char> },
    CopyFile { from: Seq<char>, to: Seq<char> },
    CopyInto { from: Seq<char>, dir: Seq<char> },
    WriteScript { dir: Seq<char>, name: Seq<char>, text: Seq<char> },
}

/// One file-system effect of preparing the install image, in the order in which it is performed.
#[derive(Debug, Clone, PartialEq, Eq)]
pub enum Step {
    /// Create `path` and every missing parent directory.
    CreateDir { path: String },
    /// Copy the file `from` to the path `to`.
    CopyFile { from: String, to: String },
    /// Copy the file `from` into the directory `dir`, keeping its file name.
    CopyInto { from: String, dir: String },
    /// Create `dir` if needed, then write `text` to the file `name` inside it.
    WriteScript { dir: String, name: String, text: String },
}

impl View for Step {
    type V = StepModel;

    open spec fn view(&self) -> StepModel {
        match self {
            Step::CreateDir { path } => StepModel::CreateDir { path: path@ },
            Step::CopyFile { from, to } => StepModel::CopyFile { from: from@, to: to@ },
            Step::CopyInto { from, dir } => StepModel::CopyInto { from: from@, dir: dir@ },
            Step::WriteScript { dir, name, text } => StepModel::WriteScript {
                dir: dir@,
                name: name@,
                text: text@,
            },
        }
    }
}

/// The abstract form of a sequence of steps.
pub open spec fn steps_view(steps: Seq<Step>) -> Seq<StepModel> {
    steps.map_values(|s: Step| s@)
}

/// `rel` below the directory `base`.
pub open spec fn spec_join(base: Seq<char>, rel: Seq<char>) -> Seq<char> {
    base + PATH_SEP@ + rel
}

/// A path below the profile root.
pub open spec fn under_root(rel: Seq<char>) -> Seq<char> {
    spec_join(ISO_ROOT@, rel)
}

/// The directory of the scripts run before the system is installed.
pub open spec fn pre_dir() -> Seq<char> {
    under_root(PRE_INSTALL_DIR@)
}

/// The directory of the scripts run inside the installed system.
pub open spec fn post_dir() -> Seq<char> {
    under_root(POST_INSTALL_DIR@)
}

/// What a script file holds: the header line, the contents and a final newline.
pub open spec fn script_text(contents: Seq<char>) -> Seq<char> {
    SCRIPT_HEADER@ + contents + NEWLINE@
}

/// Writing the script `name` with `contents` into `dir`.
pub open spec fn script_step(dir: Seq<char>, name: Seq<char>, contents: Seq<char>) -> StepModel {
    StepModel::WriteScript { dir, name, text: script_text(contents) }
}

/// Writing the pre-install script `name` with `contents`.
pub open spec fn pre_script(name: Seq<char>, contents: Seq<char>) -> StepModel {
    script_step(pre_dir(), name, contents)
}

/// Writing the script `name`, run inside the installed system, with `contents`.
pub open spec fn post_script(name: Seq<char>, contents: Seq<char>) -> StepModel {
    script_step(post_dir(), name, contents)
}

/// The root of the profile tree.
pub fn iso_root() -> (r: &'static str)
    ensures
        r@ == ISO_ROOT@,
{
    ISO_ROOT
}

/// The path of `rel` below the directory `base`.
pub fn join(base: &str, rel: &str) -> (r: String)
    ensures
        r@ == spec_join(base@, rel@),
{
    let mut r = String::from_str(base);
    r.append(PATH_SEP);
    r.append(rel);
    r
}

fn add_script(dir: &str, name: &str, contents: &str) -> (r: Step)
    ensures
        r@ == script_step(dir@, name@, contents@),
{
    let mut text = String::from_str(SCRIPT_HEADER);
    text.append(contents);
    text.append(NEWLINE);
    Step::WriteScript { dir: String::from_str(dir), name: String::from_str(name), text }
}

/// The step that writes a script to be run before the system is installed.
pub fn add_pre_script(name: &str, contents: &str) -> (r: Step)
    ensures
        r@ == pre_script(name@, contents@),
{
    let dir = join(iso_root(), PRE_INSTALL_DIR);
    add_script(dir.as_str(), name, contents)
}

/// The step that writes a script to be run inside the installed system.
pub fn add_post_script(name: &str, contents: &str) -> (r: Step)
    ensures
        r@ == post_script(name@, contents@),
{
    let dir = join(iso_root(), POST_INSTALL_DIR);
    add_script(dir.as_str(), name, contents)
}


/// Each item in turn, with `before` in front of it and `after` behind it.
pub open spec fn wrapped_concat(items: Seq<Seq<char>>, before: Seq<char>, after: Seq<char>) -> Seq<char>
    decreases items.len(),
{
    if items.len() == 0 {
        Seq::empty()
    } else {
        wrapped_concat(items.drop_last(), before, after) + before + items.last() + after
    }
}

/// Appends to `out` each item of `items` in turn, with `before` in front of it and `after` behind it.
pub fn append_each(out: &mut String, items: &Vec<String>, before: &str, after: &str)
    ensures
        final(out)@ == old(out)@ + wrapped_concat(strings_view(items@), before@, after@),
{
    let ghost start = out@;
    let ghost all = strings_view(items@);
    let mut i: usize = 0;
    while i < items.len()
        invariant
            i <= items.len(),
            all == strings_view(items@),
            out@ == start + wrapped_concat(all.take(i as int), before@, after@),
        decreases items.len() - i,
    {
        proof {
            assert(all.take(i + 1).drop_last() =~= all.take(i as int));
        }
        out.append(before);
        out.append(items[i].as_str());
        out.append(after);
        i = i + 1;
    }
    proof {
        assert(all.take(items.len() as int) =~= all);
    }
}

/// Each item in turn, with `before` in front of it and `after` behind it, and `sep` between
/// two items.
pub open spec fn joined(
    items: Seq<Seq<char>>,
    before: Seq<char>,
    after: Seq<char>,
    sep: Seq<char>,
) -> Seq<char>
    decreases items.len(),
{
    if items.len() == 0 {
        Seq::empty()
    } else if items.len() == 1 {
        before + items[0] + after
    } else {
        joined(items.drop_last(), before, after, sep) + sep + before + items.last() + after
    }
}

/// Appends to `out` each item of `items` in turn, with `before` in front of it, `after` behind
/// it and `sep` between two items.
pub fn append_joined(out: &mut String, items: &Vec<String>, before: &str, after: &str, sep: &str)
    ensures
        final(out)@ == old(out)@ + joined(strings_view(items@), before@, after@, sep@),
{
    let ghost start = out@;
    let ghost all = strings_view(items@);
    let mut i: usize = 0;
    while i < items.len()
        invariant
            i <= items.len(),
            all == strings_view(items@),
            out@ == start + joined(all.take(i as int), before@, after@, sep@),
        decreases items.len() - i,
    {
        proof {
            assert(all.take(i + 1).drop_last() =~= all.take(i as int));
            if i == 0 {
                assert(all.take(0) =~= Seq::<Seq<char>>::empty());
            }
        }
        if i != 0 {
            out.append(sep);
        }
        out.append(before);
        out.append(items[i].as_str());
        out.append(after);
        i = i + 1;
    }
    proof {
        assert(all.take(items.len() as int) =~= all);
    }
}

/// Copying each file of `files`, in turn, into the directory `dir`.
pub open spec fn copies_into(files: Seq<Seq<char>>, dir: Seq<char>) -> Seq<StepModel> {
    files.map_values(|f: Seq<char>| StepModel::CopyInto { from: f, dir })
}

/// Appends to `steps` the copy of each file of `files`, in turn, into the directory `dir`.
pub fn push_copies_into(steps: &mut Vec<Step>, files: &Vec<String>, dir: &String)
    ensures
        steps_view(final(steps)@) == steps_view(old(steps)@) + copies_into(
            strings_view(files@),
            dir@,
        ),
{
    let ghost start = steps_view(steps@);
    let ghost all = strings_view(files@);
    let mut i: usize = 0;
    while i < files.len()
        invariant
            i <= files.len(),
            all == strings_view(files@),
            steps_view(steps@) == start + copies_into(all.take(i as int), dir@),
        decreases files.len() - i,
    {
        let ghost before = steps@;
        steps.push(Step::CopyInto { from: files[i].clone(), dir: dir.clone() });
        proof {
            assert(steps@ == before.push(steps@.last()));
            assert(steps_view(steps@) =~= steps_view(before).push(
                StepModel::CopyInto { from: all[i as int], dir: dir@ },
            ));
            assert(copies_into(all.take(i + 1), dir@) =~= copies_into(all.take(i as int), dir@).push(
                StepModel::CopyInto { from: all[i as int], dir: dir@ },
            ));
        }
        i = i + 1;
    }
    proof {
        assert(all.take(files.len() as int) =~= all);
    }
}

/// Why a stage refuses the options it was given.
#[derive(Debug, Clone, Copy, PartialEq, Eq)]
pub enum PrepareError {
    /// Backgrounds were asked for without a default background image.
    MissingDefaultBackground,
}

impl PrepareError {
    /// The message that reports the error.
    pub fn message(&self) -> (r: String)
        ensures
            r@ == MISSING_DEFAULT_BACKGROUND@,
    {
        match self {
            PrepareError::MissingDefaultBackground => String::from_str(MISSING_DEFAULT_BACKGROUND),
        }
    }
}

/// Message of [`PrepareError::MissingDefaultBackground`].
pub const MISSING_DEFAULT_BACKGROUND: &'static str = "missing default background";

/// Name of the script `00-paru`.
pub const PARU_SCRIPT: &'static str = "00-paru";

/// Contents of the script `00-paru`.
pub const PARU_TEXT: &'static str = r#"
set -x
pacman -S --noconfirm --needed base-devel git sudo
useradd -m paruuser
passwd -l paruuser
echo "paruuser ALL=(ALL:ALL) NOPASSWD: ALL" > /etc/sudoers.d/paruuser
TMP=$(mktemp -d /tmp/tmp.XXXXXXXX)
chown paruuser:paruuser $TMP
pushd $TMP
sudo -u paruuser git clone https://aur.archlinux.org/paru-bin.git
popd
pushd $TMP/paru-bin
sudo -u paruuser makepkg -si --noconfirm
popd
"#;


/// The steps that install the `paru` package helper, run by the user `paruuser`.
pub fn ensure_paru() -> (r: Vec<Step>)
    ensures
        steps_view(r@) == ensure_paru_plan(),
{
    let mut steps: Vec<Step> = Vec::new();
    steps.push(add_post_script(PARU_SCRIPT, PARU_TEXT));
    proof {
        assert(steps_view(steps@) =~= ensure_paru_plan());
    }
    steps
}

pub open spec fn ensure_paru_plan() -> Seq<StepModel> {
    seq![post_script(PARU_SCRIPT@, PARU_TEXT@)]
}

} // verus!
