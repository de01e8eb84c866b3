//! The container lifecycle reconciler. Given a logical container name, an
//! already-built image reference and a single published port, it decides the
//! sequence of engine calls that drives the named container — whatever state
//! the engine currently reports for it — into "freshly started from that
//! image". The engine calls themselves (list, create, start, stop, remove)
//! are performed by the binary; this module computes and justifies the plan.
//!
//! The transition table, keyed by the engine-reported state:
//! a merely created or paused container is stopped and restarted in place —
//! its identity and filesystem layer are preserved, since nothing about its
//! on-disk image has necessarily changed; a running or restarting container
//! is stopped, removed and recreated from scratch, because the whole point
//! of reconciliation is to replace it with a container bound to the
//! just-built image; an exited or dead container is likewise removed and
//! recreated; a container the engine is already tearing down is left alone
//! (do not race the engine), and the final start then surfaces the engine's
//! own error if the removal has not completed; an absent container is
//! created and started.

use vstd::prelude::*;

use crate::logger::Logger;
use crate::model::Config;
use crate::text::{dec_str, str_eq, u16_to_string};

verus! {

/// The state the container engine reports for a named container. Owned
/// entirely by the engine; this system only reads and reacts to it.
#[derive(Clone, Copy, Debug, PartialEq, Eq, Structural)]
pub enum ContainerState {
    Created,
    Paused,
    Running,
    Restarting,
    Removing,
    Exited,
    Dead,
}

/// The state named by an engine-reported state string, if it names one.
pub open spec fn state_of_string(s: Seq<char>) -> Option<ContainerState> {
    if s == "created"@ {
        Some(ContainerState::Created)
    } else if s == "paused"@ {
        Some(ContainerState::Paused)
    } else if s == "running"@ {
        Some(ContainerState::Running)
    } else if s == "restarting"@ {
        Some(ContainerState::Restarting)
    } else if s == "removing"@ {
        Some(ContainerState::Removing)
    } else if s == "exited"@ {
        Some(ContainerState::Exited)
    } else if s == "dead"@ {
        Some(ContainerState::Dead)
    } else {
        None
    }
}

impl ContainerState {
    /// Parse an engine-reported state string into the closed state union;
    /// anything outside the vocabulary is `None`.
    pub fn parse(s: &str) -> (r: Option<ContainerState>)
        ensures
            r == state_of_string(s@),
    {
        if str_eq(s, "created") {
            Some(ContainerState::Created)
        } else if str_eq(s, "paused") {
            Some(ContainerState::Paused)
        } else if str_eq(s, "running") {
            Some(ContainerState::Running)
        } else if str_eq(s, "restarting") {
            Some(ContainerState::Restarting)
        } else if str_eq(s, "removing") {
            Some(ContainerState::Removing)
        } else if str_eq(s, "exited") {
            Some(ContainerState::Exited)
        } else if str_eq(s, "dead") {
            Some(ContainerState::Dead)
        } else {
            None
        }
    }
}

/// One engine call of the reconciliation plan, always aimed at the
/// reconciler's own container name.
#[derive(Clone, Copy, Debug, PartialEq, Eq, Structural)]
pub enum EngineAction {
    /// Stop the existing container.
    Stop,
    /// Remove the existing container and its filesystem layer.
    Remove,
    /// Create a fresh container bound to the new image and the port.
    Create,
    /// Start the container.
    Start,
}

/// The engine calls, in order, that reconcile a container observed in
/// `observed` (`None` = no container of that name exists).
pub open spec fn plan_spec(observed: Option<ContainerState>) -> Seq<EngineAction> {
    match observed {
        None => seq![EngineAction::Create, EngineAction::Start],
        Some(ContainerState::Created) => seq![EngineAction::Stop, EngineAction::Start],
        Some(ContainerState::Paused) => seq![EngineAction::Stop, EngineAction::Start],
        Some(ContainerState::Running) => seq![
            EngineAction::Stop,
            EngineAction::Remove,
            EngineAction::Create,
            EngineAction::Start,
        ],
        Some(ContainerState::Restarting) => seq![
            EngineAction::Stop,
            EngineAction::Remove,
            EngineAction::Create,
            EngineAction::Start,
        ],
        Some(ContainerState::Removing) => seq![EngineAction::Start],
        Some(ContainerState::Exited) => seq![
            EngineAction::Remove,
            EngineAction::Create,
            EngineAction::Start,
        ],
        Some(ContainerState::Dead) => seq![
            EngineAction::Remove,
            EngineAction::Create,
            EngineAction::Start,
        ],
    }
}

/// The parameters of one container creation: the engine binds the single
/// configured port on the container's internal TCP listener to the same
/// port number on the host — a 1:1 mapping, no dynamic allocation.
#[derive(Debug, Clone, PartialEq, Eq)]
pub struct CreateRequest {
    /// The logical container name.
    pub name: String,
    /// The image reference the container is bound to.
    pub image: String,
    /// The container-side port key, `<port>/tcp`.
    pub exposed_port: String,
    /// The host-side port, the same number.
    pub host_port: String,
}

/// The reconciler for one named container.
pub struct Container<'a> {
    pub log: &'a Logger,
    pub name: &'a str,
    pub config: &'a Config,
}

impl<'a> Container<'a> {
    pub fn new(log: &'a Logger, name: &'a str, config: &'a Config) -> (r: Container<'a>)
        ensures
            r.log == log,
            r.name@ == name@,
            r.config == config,
    {
        Container { log, name, config }
    }

    /// The engine calls that drive this container from the observed state
    /// into "freshly started", in the order the binary must perform them.
    /// Every call can fail; a failure is immediately fatal to the whole
    /// deployment (no retry, no partial-state cleanup), and the next
    /// invocation's reconciliation absorbs whatever partial state remains.
    pub fn plan(&self, observed: Option<ContainerState>) -> (r: Vec<EngineAction>)
        ensures
            r@ == plan_spec(observed),
    {
        let mut r: Vec<EngineAction> = Vec::new();
        match observed {
            None => {
                r.push(EngineAction::Create);
                r.push(EngineAction::Start);
            },
            Some(ContainerState::Created) | Some(ContainerState::Paused) => {
                r.push(EngineAction::Stop);
                r.push(EngineAction::Start);
            },
            Some(ContainerState::Running) | Some(ContainerState::Restarting) => {
                r.push(EngineAction::Stop);
                r.push(EngineAction::Remove);
                r.push(EngineAction::Create);
                r.push(EngineAction::Start);
            },
            Some(ContainerState::Removing) => {
                r.push(EngineAction::Start);
            },
            Some(ContainerState::Exited) | Some(ContainerState::Dead) => {
                r.push(EngineAction::Remove);
                r.push(EngineAction::Create);
                r.push(EngineAction::Start);
            },
        }
        proof {
            assert(r@ =~= plan_spec(observed));
        }
        r
    }

    /// The creation parameters for a fresh container on `image_name`: the
    /// configured port, exposed on TCP inside the container and bound to
    /// the identical host port.
    pub fn create_request(&self, image_name: String) -> (r: CreateRequest)
        requires
            self.config.port is Some,
        ensures
            r.name@ == self.name@,
            r.image@ == image_name@,
            r.exposed_port@ == dec_str(self.config.port->0 as nat) + "/tcp"@,
            r.host_port@ == dec_str(self.config.port->0 as nat),
    {
        let port = match self.config.port {
            Some(p) => p,
            None => unreached(),
        };
        let host_port = u16_to_string(port);
        let exposed_port = host_port.clone().concat("/tcp");
        CreateRequest { name: self.name.to_owned(), image: image_name, exposed_port, host_port }
    }
}

/// A model of the engine's record for one container name: at most one
/// container exists under a name, with the engine-reported state and the
/// image it was created from.
pub struct EngineContainer {
    pub state: ContainerState,
    pub image: Seq<char>,
}

/// The state the engine reports when asked to list by this name.
pub open spec fn observed_of(slot: Option<EngineContainer>) -> Option<ContainerState> {
    match slot {
        Some(c) => Some(c.state),
        None => None,
    }
}

/// Whether the engine accepts an action in the given situation: stopping
/// needs an existing container; removing one that is not running; creating
/// needs the name free; starting needs a container that is created, exited,
/// or already running (starting a paused, removing or absent one is the
/// engine's error).
pub open spec fn action_ok(slot: Option<EngineContainer>, a: EngineAction) -> bool {
    match a {
        EngineAction::Stop => slot is Some,
        EngineAction::Remove => slot matches Some(c) && c.state != ContainerState::Running,
        EngineAction::Create => slot is None,
        EngineAction::Start => slot matches Some(c) && (c.state == ContainerState::Created
            || c.state == ContainerState::Exited || c.state == ContainerState::Running),
    }
}

/// What an accepted action leaves under the name: stop exits the container
/// in place, remove frees the name, create binds a fresh container to
/// `image`, start runs the container on whatever image it already has.
pub open spec fn apply_action(
    slot: Option<EngineContainer>,
    a: EngineAction,
    image: Seq<char>,
) -> Option<EngineContainer> {
    match a {
        EngineAction::Stop => match slot {
            Some(c) => Some(EngineContainer { state: ContainerState::Exited, image: c.image }),
            None => None,
        },
        EngineAction::Remove => None,
        EngineAction::Create => Some(
            EngineContainer { state: ContainerState::Created, image },
        ),
        EngineAction::Start => match slot {
            Some(c) => Some(EngineContainer { state: ContainerState::Running, image: c.image }),
            None => None,
        },
    }
}

/// The outcome of running a plan against the engine: whether every call was
/// accepted, and what is left under the name. A rejected call aborts the
/// plan there (every engine failure is terminal).
pub struct EngineRun {
    pub ok: bool,
    pub slot: Option<EngineContainer>,
}

/// Run a plan action by action, stopping at the first call the engine
/// rejects.
pub open spec fn apply_plan(
    slot: Option<EngineContainer>,
    plan: Seq<EngineAction>,
    image: Seq<char>,
) -> EngineRun
    decreases plan.len(),
{
    if plan.len() == 0 {
        EngineRun { ok: true, slot }
    } else if !action_ok(slot, plan[0]) {
        EngineRun { ok: false, slot }
    } else {
        apply_plan(apply_action(slot, plan[0], image), plan.drop_first(), image)
    }
}

/// One whole reconciliation against the model: observe the state under the
/// name, then run the plan that the reconciler computes for it.
pub open spec fn reconcile_model(slot: Option<EngineContainer>, image: Seq<char>) -> EngineRun {
    apply_plan(slot, plan_spec(observed_of(slot)), image)
}

/// Reconciliation from any state but `removing` succeeds against the
/// engine model and leaves exactly one container under the name, in the
/// `running` state. A container that was merely created or paused is
/// restarted in place and keeps its image; from every other situation the
/// container ends up bound to the freshly built image. (From `removing`
/// the reconciler deliberately does not act: it must not race the engine's
/// own teardown, and the attempted start surfaces the engine's error.)
pub proof fn lemma_reconcile_establishes_running(slot: Option<EngineContainer>, image: Seq<char>)
    requires
        observed_of(slot) != Some(ContainerState::Removing),
    ensures
        reconcile_model(slot, image).ok,
        reconcile_model(slot, image).slot matches Some(c) && c.state == ContainerState::Running,
        match observed_of(slot) {
            Some(ContainerState::Created) | Some(ContainerState::Paused) => reconcile_model(
                slot,
                image,
            ).slot->0.image == slot->0.image,
            _ => reconcile_model(slot, image).slot->0.image == image,
        },
{
    let plan = plan_spec(observed_of(slot));
    if slot is Some {
        let c = slot->0;
        match c.state {
            ContainerState::Created | ContainerState::Paused => {
                assert(plan == seq![EngineAction::Stop, EngineAction::Start]);
                reveal_with_fuel(apply_plan, 3);
            },
            ContainerState::Running | ContainerState::Restarting => {
                assert(plan == seq![
                    EngineAction::Stop,
                    EngineAction::Remove,
                    EngineAction::Create,
                    EngineAction::Start,
                ]);
                reveal_with_fuel(apply_plan, 5);
            },
            ContainerState::Exited | ContainerState::Dead => {
                assert(plan == seq![
                    EngineAction::Remove,
                    EngineAction::Create,
                    EngineAction::Start,
                ]);
                reveal_with_fuel(apply_plan, 4);
            },
            ContainerState::Removing => {},
        }
    } else {
        assert(plan == seq![EngineAction::Create, EngineAction::Start]);
        reveal_with_fuel(apply_plan, 3);
    }
}

/// Reconciliation is idempotent: run once against an already-running
/// container, it leaves exactly one container under the name, running the
/// new image; run a second time with the same image reference, it leaves
/// that same single container — not two.
pub proof fn lemma_reconcile_idempotent(slot: Option<EngineContainer>, image: Seq<char>)
    requires
        slot matches Some(c) && c.state == ContainerState::Running,
    ensures
        ({
            let once = reconcile_model(slot, image);
            let twice = reconcile_model(once.slot, image);
            &&& once.ok
            &&& once.slot matches Some(c) && c.state == ContainerState::Running && c.image
                == image
            &&& twice.ok
            &&& twice.slot == once.slot
        }),
{
    lemma_reconcile_establishes_running(slot, image);
    let once = reconcile_model(slot, image);
    lemma_reconcile_establishes_running(once.slot, image);
}

/// A container the engine is already tearing down is left alone — the plan
/// holds no stop, remove or create, only the final start attempt — and
/// against the model that start is rejected, surfacing the engine's own
/// error while the slot is untouched.
pub proof fn lemma_removing_is_not_raced(slot: Option<EngineContainer>, image: Seq<char>)
    requires
        observed_of(slot) == Some(ContainerState::Removing),
    ensures
        plan_spec(observed_of(slot)) == seq![EngineAction::Start],
        !reconcile_model(slot, image).ok,
        reconcile_model(slot, image).slot == slot,
{
    reveal_with_fuel(apply_plan, 2);
}

/// A container observed as merely `created` or `paused` is never removed:
/// its identity and filesystem layer are preserved by reconciliation.
pub proof fn lemma_stopped_is_never_removed(s: ContainerState)
    requires
        s == ContainerState::Created || s == ContainerState::Paused,
    ensures
        !plan_spec(Some(s)).contains(EngineAction::Remove),
{
    let plan = plan_spec(Some(s));
    assert(plan == seq![EngineAction::Stop, EngineAction::Start]);
    assert forall|i: int| 0 <= i < plan.len() implies plan[i] != EngineAction::Remove by {
        assert(plan[0] == EngineAction::Stop && plan[1] == EngineAction::Start);
    }
}

/// A container observed as `running`, `restarting`, `exited` or `dead` is
/// always removed, and removed before the fresh container is created: it
/// may be running an older image, so its layer is discarded.
pub proof fn lemma_replaced_is_removed_before_create(s: ContainerState)
    requires
        s == ContainerState::Running || s == ContainerState::Restarting || s
            == ContainerState::Exited || s == ContainerState::Dead,
    ensures
        plan_spec(Some(s)).contains(EngineAction::Remove),
        exists|i: int, j: int|
            0 <= i < j < plan_spec(Some(s)).len() && plan_spec(Some(s))[i] == EngineAction::Remove
                && plan_spec(Some(s))[j] == EngineAction::Create,
{
    let plan = plan_spec(Some(s));
    if s == ContainerState::Running || s == ContainerState::Restarting {
        assert(plan[1] == EngineAction::Remove && plan[2] == EngineAction::Create);
        assert(plan.contains(EngineAction::Remove));
        assert(0 <= 1 < 2 < plan.len() && plan[1] == EngineAction::Remove && plan[2]
            == EngineAction::Create);
    } else {
        assert(plan[0] == EngineAction::Remove && plan[1] == EngineAction::Create);
        assert(plan.contains(EngineAction::Remove));
        assert(0 <= 0 < 1 < plan.len() && plan[0] == EngineAction::Remove && plan[1]
            == EngineAction::Create);
    }
}

} // verus!
