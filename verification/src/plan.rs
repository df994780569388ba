use vstd::prelude::*;

use crate::args::{Args, ArgsView};
use crate::base::{base_setup, base_setup_plan};
use crate::base_gui::{backgrounds, backgrounds_plan, base_gui_setup, base_gui_setup_plan};
use crate::contest_software::{
    browser, browser_plan, compilers, compilers_plan, debuggers, debuggers_plan, editors,
    editors_plan,
};
use crate::lockdown::{lockdown, lockdown_plan};
use crate::pre::{pre_install_plan, pre_install_scripts};
use crate::users::{additional_user_files, additional_user_files_plan, setup_users, setup_users_plan};
use crate::util::{steps_view, PrepareError, Step, StepModel};

verus! {

/// The stages that run before the background stage, in order.
pub open spec fn stages_before_backgrounds(a: ArgsView) -> Seq<StepModel> {
    pre_install_plan(a) + setup_users_plan(a) + additional_user_files_plan(a) + base_setup_plan(a)
        + base_gui_setup_plan(a)
}

/// The stages that run after the background stage, in order.
pub open spec fn stages_after_backgrounds(a: ArgsView) -> Seq<StepModel> {
    browser_plan(a) + compilers_plan() + debuggers_plan() + editors_plan(a) + lockdown_plan(a)
}

/// Every step of preparing the image, stage after stage; when the background stage refuses
/// the options, the steps of the stages before it and the error.
pub open spec fn image_plan(a: ArgsView) -> (Seq<StepModel>, Option<PrepareError>) {
    match backgrounds_plan(a) {
        Ok(bg) => (stages_before_backgrounds(a) + bg + stages_after_backgrounds(a), None),
        Err(e) => (stages_before_backgrounds(a), Some(e)),
    }
}

/// Moves the steps of `more` to the end of `steps`.
pub fn extend_steps(steps: &mut Vec<Step>, more: Vec<Step>)
    ensures
        steps_view(final(steps)@) == steps_view(old(steps)@) + steps_view(more@),
{
    let mut more = more;
    let ghost before = steps@;
    let ghost added = more@;
    steps.append(&mut more);
    proof {
        assert(steps@ == before + added);
        assert(steps_view(steps@) =~= steps_view(before) + steps_view(added));
    }
}

/// All the steps that prepare the install image, in the order in which they are to be
/// performed, and the error that stops the preparation, if any. The steps listed before
/// an error are still to be performed.
pub fn plan(args: &Args) -> (r: (Vec<Step>, Option<PrepareError>))
    ensures
        (steps_view(r.0@), r.1) == image_plan(args@),
{
    let mut steps = pre_install_scripts(args);
    extend_steps(&mut steps, setup_users(args));
    extend_steps(&mut steps, additional_user_files(args));
    extend_steps(&mut steps, base_setup(args));
    extend_steps(&mut steps, base_gui_setup(args));
    match backgrounds(args) {
        Ok(bg) => {
            extend_steps(&mut steps, bg);
        },
        Err(e) => {
            return (steps, Some(e));
        },
    }
    extend_steps(&mut steps, browser(args));
    extend_steps(&mut steps, compilers());
    extend_steps(&mut steps, debuggers());
    extend_steps(&mut steps, editors(args));
    extend_steps(&mut steps, lockdown(args));
    (steps, None)
}

} // verus!
