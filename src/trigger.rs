use vstd::prelude::*;
use crate::config::{RetriggerPolicy, VaultConfig};
use crate::direction::VaultDirection;
use crate::motion::VaultState;

verus! {

/// What the contact query reports for one vault-capable obstacle against the
/// actor.
#[derive(Clone, Copy, Debug, PartialEq, Eq, Structural)]
pub struct ObstacleContact {
    /// The obstacle's identifier.
    pub obstacle: u64,
    /// `None` when the pair has no active contact manifold; otherwise the
    /// transverse component of the first manifold's local contact normal.
    pub normal: Option<i64>,
}

/// Why an action edge that met a contact started no vault.
#[derive(Clone, Copy, Debug, PartialEq, Eq, Structural)]
pub enum TriggerError {
    /// The chosen contact's normal has a zero transverse component, so no
    /// side can be picked.
    DegenerateNormal { obstacle: u64 },
}

/// The first contact at index `i` or later that is active.
pub open spec fn first_active_from(s: Seq<ObstacleContact>, i: int) -> Option<ObstacleContact>
    decreases s.len() - i,
{
    if i < 0 || i >= s.len() {
        None
    } else if s[i].normal is Some {
        Some(s[i])
    } else {
        first_active_from(s, i + 1)
    }
}

/// The vault that an action signal starts, given the contacts in
/// enumeration order: none without an edge or without an active contact;
/// otherwise one over the first active obstacle, with the direction its
/// normal gives, or an error where that normal is degenerate.
pub open spec fn spec_detect(edge: bool, contacts: Seq<ObstacleContact>, now: u64) -> Result<
    Option<VaultState>,
    TriggerError,
> {
    if !edge {
        Ok(None)
    } else {
        match first_active_from(contacts, 0) {
            None => Ok(None),
            Some(c) => match VaultDirection::spec_from_component(c.normal.unwrap() as int) {
                None => Err(TriggerError::DegenerateNormal { obstacle: c.obstacle }),
                Some(d) => Ok(
                    Some(VaultState { obstacle: c.obstacle, start_time: now, direction: d }),
                ),
            },
        }
    }
}

/// The actor's vault state after an action signal: unchanged while vaulting
/// under `Ignore`; otherwise the detected vault where one starts, and
/// unchanged where none does.
pub open spec fn spec_start(
    cfg: VaultConfig,
    actor: Option<VaultState>,
    edge: bool,
    contacts: Seq<ObstacleContact>,
    now: u64,
) -> Option<VaultState> {
    if actor is Some && cfg.retrigger == RetriggerPolicy::Ignore {
        actor
    } else {
        match spec_detect(edge, contacts, now) {
            Ok(Some(v)) => Some(v),
            _ => actor,
        }
    }
}

/// What `start_vault` reports: whether a vault started, or the error of
/// detection.
pub open spec fn spec_start_result(
    cfg: VaultConfig,
    actor: Option<VaultState>,
    edge: bool,
    contacts: Seq<ObstacleContact>,
    now: u64,
) -> Result<bool, TriggerError> {
    if actor is Some && cfg.retrigger == RetriggerPolicy::Ignore {
        Ok(false)
    } else {
        match spec_detect(edge, contacts, now) {
            Ok(Some(_)) => Ok(true),
            Ok(None) => Ok(false),
            Err(e) => Err(e),
        }
    }
}

/// The trigger detector: on an action edge, picks the first obstacle in
/// active contact and derives the vault's direction from its contact normal.
pub fn detect_vault(edge: bool, contacts: &Vec<ObstacleContact>, now: u64) -> (r: Result<
    Option<VaultState>,
    TriggerError,
>)
    ensures
        r == spec_detect(edge, contacts@, now),
{
    if !edge {
        return Ok(None);
    }
    let mut i: usize = 0;
    while i < contacts.len()
        invariant
            edge,
            0 <= i <= contacts@.len(),
            first_active_from(contacts@, 0) == first_active_from(contacts@, i as int),
        decreases contacts@.len() - i,
    {
        let c = contacts[i];
        proof {
            assert(c == contacts@[i as int]);
        }
        match c.normal {
            Some(n) => {
                assert(first_active_from(contacts@, i as int) == Some(c));
                let dir = VaultDirection::from_component(n);
                let r = match dir {
                    None => Err(TriggerError::DegenerateNormal { obstacle: c.obstacle }),
                    Some(d) => Ok(
                        Some(VaultState { obstacle: c.obstacle, start_time: now, direction: d }),
                    ),
                };
                return r;
            },
            None => {},
        }
        i = i + 1;
    }
    Ok(None)
}

/// Applies an action signal to the actor's vault state, following the
/// configured policy for an actor that already vaults. Returns whether a
/// vault started; on a degenerate normal the state is left as it was.
pub fn start_vault(
    cfg: &VaultConfig,
    actor: &mut Option<VaultState>,
    edge: bool,
    contacts: &Vec<ObstacleContact>,
    now: u64,
) -> (r: Result<bool, TriggerError>)
    ensures
        *final(actor) == spec_start(*cfg, *old(actor), edge, contacts@, now),
        r == spec_start_result(*cfg, *old(actor), edge, contacts@, now),
{
    if actor.is_some() {
        match cfg.retrigger {
            RetriggerPolicy::Ignore => {
                return Ok(false);
            },
            RetriggerPolicy::Restart => {},
        }
    }
    match detect_vault(edge, contacts, now) {
        Ok(Some(v)) => {
            *actor = Some(v);
            Ok(true)
        },
        Ok(None) => Ok(false),
        Err(e) => Err(e),
    }
}

proof fn lemma_no_active_from(s: Seq<ObstacleContact>, i: int)
    requires
        0 <= i,
        forall|j: int| 0 <= j < s.len() ==> (#[trigger] s[j]).normal is None,
    ensures
        first_active_from(s, i) is None,
    decreases s.len() - i,
{
    if i < s.len() {
        lemma_no_active_from(s, i + 1);
    }
}

/// Where no obstacle is in active contact with the actor, no action signal
/// starts a vault, and the actor's state is left as it was.
pub proof fn lemma_no_trigger_without_contact(
    cfg: VaultConfig,
    actor: Option<VaultState>,
    edge: bool,
    contacts: Seq<ObstacleContact>,
    now: u64,
)
    requires
        forall|j: int| 0 <= j < contacts.len() ==> (#[trigger] contacts[j]).normal is None,
    ensures
        spec_detect(edge, contacts, now) == Ok::<Option<VaultState>, TriggerError>(None),
        spec_start(cfg, actor, edge, contacts, now) == actor,
        spec_start_result(cfg, actor, edge, contacts, now) == Ok::<bool, TriggerError>(false),
{
    lemma_no_active_from(contacts, 0);
}

/// An actor holds at most one vault: under `Ignore` a running vault is kept
/// as it is whatever the signal; under `Restart` it is kept, or replaced by
/// the single vault that the signal starts now.
pub proof fn lemma_single_active_vault(
    cfg: VaultConfig,
    v: VaultState,
    edge: bool,
    contacts: Seq<ObstacleContact>,
    now: u64,
)
    ensures
        cfg.retrigger == RetriggerPolicy::Ignore ==> spec_start(cfg, Some(v), edge, contacts, now)
            == Some(v),
        cfg.retrigger == RetriggerPolicy::Restart ==> (spec_start(cfg, Some(v), edge, contacts, now)
            == Some(v) || (edge && spec_detect(edge, contacts, now) is Ok && spec_start(
            cfg,
            Some(v),
            edge,
            contacts,
            now,
        ) == spec_detect(edge, contacts, now)->Ok_0 && spec_start(
            cfg,
            Some(v),
            edge,
            contacts,
            now,
        )->Some_0.start_time == now)),
{
}

} // verus!
