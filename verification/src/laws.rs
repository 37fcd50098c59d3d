//! What holds of every run, whatever the file system and the scripts do.
//!
//! A run is taken as the series of events that answer its actions; the
//! state after them is [`ProjectView::replay`] from [`start`]. The action
//! that is handed out after the first `n` events is the pending action of
//! the state after `events.take(n)`.

use vstd::prelude::*;
use crate::config::{law_resolution, resolved, CatalogView, ConfigView, RequestView};
use crate::paths::joined;
use crate::project::{exists_message, flake_step, goes_on, license_steps, plan, script_failed_message};
use crate::project::{script_run, script_steps, start, stop_message};
use crate::project::{ActionView, EventView, ProjectView};
use crate::project::{FLAKE_FILE, LICENSE_FILE};
use crate::templates::{template_file, LICENSES, LICENSE_EXT};

verus! {

/// A request that names a flake, a license or a script that the catalog
/// does not hold resolves to an error, whatever else it asks for: no run
/// begins for it, and so nothing is created.
pub proof fn law_unknown_names_are_turned_down(
    request: RequestView,
    cwd: Result<Seq<char>, Seq<char>>,
    catalog: CatalogView,
)
    requires
        ({
            ||| request.flake matches Some(flake) && !catalog.flakes.contains(flake)
            ||| request.license matches Some(license) && !catalog.licenses.contains(license)
            ||| exists|i: int|
                0 <= i < request.scripts.len() && !catalog.scripts.contains(
                    #[trigger] request.scripts[i],
                )
        }),
    ensures
        resolved(request, cwd, catalog) is Err,
{
    law_resolution(request, cwd, catalog);
}

/// The number of license copies in a plan: one or none.
pub open spec fn license_count(config: ConfigView) -> int {
    if config.license is Some {
        1
    } else {
        0
    }
}

/// The place in the plan of the run of the script that was chosen as the
/// `i`-th.
pub open spec fn script_position(config: ConfigView, i: int) -> int {
    3 + license_count(config) + i
}

/// A plan checks the destination, creates it, copies the license if one
/// was chosen, copies the flake, and then runs each chosen script, in the
/// order in which the scripts were chosen, and holds nothing else.
pub proof fn law_plan_layout(config: ConfigView, template_dir: Seq<char>)
    ensures
        plan(config, template_dir).len() == 3 + license_count(config) + config.scripts.len(),
        plan(config, template_dir)[0] == (ActionView::CheckAbsent { path: config.path }),
        plan(config, template_dir)[1] == (ActionView::CreateDir { path: config.path }),
        config.license matches Some(name) ==> plan(config, template_dir)[2] == (
        ActionView::CopyFile {
            from: template_file(template_dir, LICENSES@, name, LICENSE_EXT@),
            to: joined(config.path, LICENSE_FILE@),
        }),
        plan(config, template_dir)[2 + license_count(config)] == flake_step(config, template_dir),
        forall|i: int|
            0 <= i < config.scripts.len() ==> #[trigger] plan(config, template_dir)[script_position(
                config,
                i,
            )] == script_run(template_dir, config.path, config.scripts[i]),
{
    let steps = plan(config, template_dir);
    let head = seq![
        ActionView::CheckAbsent { path: config.path },
        ActionView::CreateDir { path: config.path },
    ];
    assert(head.len() == 2);
    assert(license_steps(config, template_dir).len() == license_count(config));
    assert forall|i: int| 0 <= i < config.scripts.len() implies #[trigger] steps[script_position(
        config,
        i,
    )] == script_run(template_dir, config.path, config.scripts[i]) by {
        assert(steps[script_position(config, i)] == script_steps(config, template_dir)[i]);
    }
}

/// A plan copies something to `LICENSE.md` in the destination exactly when
/// a license was chosen.
pub proof fn law_license_iff_chosen(config: ConfigView, template_dir: Seq<char>)
    ensures
        config.license is Some <==> exists|i: int|
            0 <= i < plan(config, template_dir).len() && (#[trigger] plan(
                config,
                template_dir,
            )[i] matches ActionView::CopyFile { to, .. } && to == joined(
                config.path,
                LICENSE_FILE@,
            )),
{
    let steps = plan(config, template_dir);
    law_plan_layout(config, template_dir);
    if config.license is Some {
        assert(steps[2] matches ActionView::CopyFile { to, .. } && to == joined(
            config.path,
            LICENSE_FILE@,
        ));
    } else {
        reveal_strlit("flake.nix");
        reveal_strlit("LICENSE.md");
        assert(joined(config.path, FLAKE_FILE@).len() != joined(config.path, LICENSE_FILE@).len());
        assert forall|i: int| 0 <= i < steps.len() implies !(#[trigger] steps[i] matches ActionView::CopyFile {
            to,
            ..
        } && to == joined(config.path, LICENSE_FILE@)) by {
            if i >= 3 {
                assert(steps[script_position(config, i - 3)] == script_run(
                    template_dir,
                    config.path,
                    config.scripts[i - 3],
                ));
            }
        }
    }
}

/// While every event lets the run go on, the run walks down its plan: after
/// `n` events it has done `n` actions, and it has finished once the plan is
/// through.
pub proof fn law_unhindered_run(config: ConfigView, template_dir: Seq<char>, events: Seq<EventView>)
    requires
        forall|i: int|
            0 <= i < events.len() && i < plan(config, template_dir).len() ==> goes_on(
                plan(config, template_dir)[i],
                #[trigger] events[i],
            ),
    ensures
        start(config, template_dir).replay(events).failure is None,
        start(config, template_dir).replay(events).config == config,
        start(config, template_dir).replay(events).template_dir == template_dir,
        events.len() <= plan(config, template_dir).len() ==> start(config, template_dir).replay(
            events,
        ).done == events.len(),
        events.len() < plan(config, template_dir).len() ==> start(config, template_dir).replay(
            events,
        ).pending() == plan(config, template_dir)[events.len() as int],
        events.len() >= plan(config, template_dir).len() ==> start(config, template_dir).replay(
            events,
        ).done == plan(config, template_dir).len(),
        events.len() >= plan(config, template_dir).len() ==> start(config, template_dir).replay(
            events,
        ).pending() == ActionView::Finish,
    decreases events.len(),
{
    if events.len() > 0 {
        let front = events.drop_last();
        assert forall|i: int|
            0 <= i < front.len() && i < plan(config, template_dir).len() implies goes_on(
            plan(config, template_dir)[i],
            #[trigger] front[i],
        ) by {
            assert(front[i] == events[i]);
        }
        law_unhindered_run(config, template_dir, front);
        assert(events.last() == events[events.len() - 1]);
    }
}

/// The first event that does not let the run go on ends it: the run stops
/// at the action that the event answered, with the message that belongs to
/// that action and event, and no later event changes that. No action
/// behind that one is ever handed out.
pub proof fn law_first_failure_ends_run(
    config: ConfigView,
    template_dir: Seq<char>,
    events: Seq<EventView>,
    k: int,
)
    requires
        0 <= k < plan(config, template_dir).len(),
        k < events.len(),
        forall|i: int| 0 <= i < k ==> goes_on(plan(config, template_dir)[i], #[trigger] events[i]),
        !goes_on(plan(config, template_dir)[k], events[k]),
    ensures
        start(config, template_dir).replay(events) == (ProjectView {
            config,
            template_dir,
            done: k as nat,
            failure: Some(stop_message(plan(config, template_dir)[k], events[k])),
        }),
        start(config, template_dir).replay(events).pending() == (ActionView::Abort {
            message: stop_message(plan(config, template_dir)[k], events[k]),
        }),
        forall|n: int|
            0 <= n <= events.len() ==> (#[trigger] start(config, template_dir).replay(
                events.take(n),
            )).done <= k,
    decreases events.len(),
{
    let first = start(config, template_dir);
    let front = events.drop_last();
    if events.len() == k + 1 {
        assert forall|i: int|
            0 <= i < front.len() && i < plan(config, template_dir).len() implies goes_on(
            plan(config, template_dir)[i],
            #[trigger] front[i],
        ) by {
            assert(front[i] == events[i]);
        }
        law_unhindered_run(config, template_dir, front);
        assert(events.last() == events[k]);
        assert forall|n: int| 0 <= n <= events.len() implies (#[trigger] first.replay(
            events.take(n),
        )).done <= k by {
            if n == events.len() {
                assert(events.take(n) =~= events);
            } else {
                let part = events.take(n);
                assert forall|i: int|
                    0 <= i < part.len() && i < plan(config, template_dir).len() implies goes_on(
                    plan(config, template_dir)[i],
                    #[trigger] part[i],
                ) by {
                    assert(part[i] == events[i]);
                }
                law_unhindered_run(config, template_dir, part);
            }
        }
    } else {
        assert(front[k] == events[k]);
        assert forall|i: int| 0 <= i < k implies goes_on(
            plan(config, template_dir)[i],
            #[trigger] front[i],
        ) by {
            assert(front[i] == events[i]);
        }
        law_first_failure_ends_run(config, template_dir, front, k);
        assert forall|n: int| 0 <= n <= events.len() implies (#[trigger] first.replay(
            events.take(n),
        )).done <= k by {
            if n == events.len() {
                assert(events.take(n) =~= events);
            } else {
                assert(events.take(n) =~= front.take(n));
            }
        }
    }
}

/// Where something already exists at the destination, the run ends with
/// the complaint about it before it has created, copied or run anything,
/// and stays so whatever is reported afterwards.
pub proof fn law_taken_destination(
    config: ConfigView,
    template_dir: Seq<char>,
    events: Seq<EventView>,
)
    requires
        events.len() > 0,
        events[0] == (EventView::Completed { answer: false }),
    ensures
        start(config, template_dir).pending() == (ActionView::CheckAbsent { path: config.path }),
        start(config, template_dir).replay(events).pending() == (ActionView::Abort {
            message: exists_message(),
        }),
        forall|n: int|
            0 <= n <= events.len() ==> (#[trigger] start(config, template_dir).replay(
                events.take(n),
            )).done == 0,
{
    law_plan_layout(config, template_dir);
    law_first_failure_ends_run(config, template_dir, events, 0);
}

/// Where the script chosen as the `j`-th is the first action that goes
/// wrong, the run ends there: with the reason where the script could not be
/// started, else with the message that the script failed. The scripts
/// before it have run, in their order, and none behind it is ever run.
pub proof fn law_failing_script_ends_run(
    config: ConfigView,
    template_dir: Seq<char>,
    events: Seq<EventView>,
    j: int,
)
    requires
        0 <= j < config.scripts.len(),
        script_position(config, j) < events.len(),
        forall|i: int|
            0 <= i < script_position(config, j) ==> goes_on(
                plan(config, template_dir)[i],
                #[trigger] events[i],
            ),
        !goes_on(
            plan(config, template_dir)[script_position(config, j)],
            events[script_position(config, j)],
        ),
    ensures
        start(config, template_dir).replay(events).pending() == (ActionView::Abort {
            message: match events[script_position(config, j)] {
                EventView::Failed { reason } => reason,
                EventView::Completed { .. } => script_failed_message(config.scripts[j]),
            },
        }),
        forall|n: int|
            0 <= n <= script_position(config, j) ==> (#[trigger] start(
                config,
                template_dir,
            ).replay(events.take(n))).pending() == plan(config, template_dir)[n],
        forall|n: int|
            0 <= n <= events.len() ==> (#[trigger] start(config, template_dir).replay(
                events.take(n),
            )).done <= script_position(config, j),
{
    let k = script_position(config, j);
    law_plan_layout(config, template_dir);
    assert(plan(config, template_dir)[script_position(config, j)] == script_run(
        template_dir,
        config.path,
        config.scripts[j],
    ));
    law_first_failure_ends_run(config, template_dir, events, k);
    assert forall|n: int| 0 <= n <= k implies (#[trigger] start(config, template_dir).replay(
        events.take(n),
    )).pending() == plan(config, template_dir)[n] by {
        let part = events.take(n);
        assert forall|i: int|
            0 <= i < part.len() && i < plan(config, template_dir).len() implies goes_on(
            plan(config, template_dir)[i],
            #[trigger] part[i],
        ) by {
            assert(part[i] == events[i]);
        }
        law_unhindered_run(config, template_dir, part);
    }
}

} // verus!
