//! Genesis initialization steps: Token initialization of the two custody
//! vaults and the nine initial state writes after allocation.
//!
//! The library checks the completion roles, builds the nine envelopes and the
//! expected Token account bytes, checks every target before the state writes,
//! checks the observed accounts after each stage, and authenticates the final
//! fixed accounts against the proposed state. The runtime edge performs the
//! Token invocations and copies the envelope bytes. Every error must abort
//! the enclosing transaction: no step undoes an invocation's effects.

use crate::account_view::{
    token_program_id, token_program_key, system_program_id, system_program_key, AccountView, RentFloors,
};
use crate::accounts::{authenticate_fixed_accounts, spec_authenticate_fixed, FixedAccountInfos};
use crate::account_view::{payload_len, spec_state_envelope, StateKind};
use crate::address::Pubkey;
use crate::errors::{Piv1Error, Piv1Result};
use crate::genesis_allocation::{
    allocation_protected, begin_genesis_allocation, AllocatedGenesisAccounts, GenesisAllocationError,
    GenesisAllocationRoles, TargetPlan,
};
use crate::genesis_model::{spec_prepare_error, ApprovedGenesisModel};
use crate::genesis_preflight::{spec_size_floor, GenesisAccountPreflight, GenesisPreflightError};
use crate::squads_execution::{copy_account, same_account, SquadsInvocationContext};
use crate::state::config::PivConfig;
use crate::state::distribution::ActiveDistribution;
use crate::state_persistence::{
    spec_config_envelope, spec_distribution_envelope, spec_registry_envelope, spec_reward_envelope, StateEnvelope,
    StateEnvelopeView,
};
use vstd::prelude::*;

verus! {

/// Handler roles of initialization: the allocation roles and the canonical
/// executable Token program.
#[derive(Clone, Copy, Debug)]
pub struct GenesisInitializationRoles {
    pub allocation: GenesisAllocationRoles,
    pub token_program: usize,
}

/// Failures of genesis initialization.
#[derive(Clone, Copy, Debug, PartialEq, Eq)]
pub enum GenesisInitializationError {
    Allocation(GenesisAllocationError),
    State(Piv1Error),
    /// A Token invocation failed; the runtime's error code.
    Invocation(u64),
    HostRuntimeUnavailable,
    InvalidRoles,
    ObservationMismatch,
}

pub type GenesisInitializationResult<T> = Result<T, GenesisInitializationError>;

/// The mint as observed before initialization; Token initialization must
/// leave it unchanged.
#[derive(Clone, Debug)]
pub struct MintObservation {
    pub owner: Pubkey,
    pub lamports: u64,
    pub bytes: Vec<u8>,
}

/// Point-invocation completion facts, not a durable replay receipt.
#[derive(Debug)]
pub struct InitializedGenesisAccounts {
    allocation: AllocatedGenesisAccounts,
}

impl InitializedGenesisAccounts {
    pub closed spec fn spec_allocation(self) -> AllocatedGenesisAccounts {
        self.allocation
    }

    pub fn model(&self) -> (r: &ApprovedGenesisModel)
        ensures
            *r == self.spec_allocation().spec_before().spec_model(),
    {
        self.allocation.model()
    }

    /// Funding and pre-allocation observations, not a reusable capability.
    pub fn allocation(&self) -> (r: &AllocatedGenesisAccounts)
        ensures
            *r == self.spec_allocation(),
    {
        &self.allocation
    }
}

/// The 165 bytes of an initialized Token account of `mint` owned by `owner`
/// with nothing held, delegated, native or closable: mint, owner, zeros, and
/// the initialized state byte at offset 108.
pub open spec fn token_account_layout(mint: Seq<u8>, owner: Seq<u8>) -> Seq<u8> {
    Seq::new(
        165,
        |i: int|
            if i < 32 {
                mint[i]
            } else if i < 64 {
                owner[i - 32]
            } else if i == 108 {
                1u8
            } else {
                0u8
            },
    )
}

/// `spl_token::state::Account::pack` of an initialized, empty account of
/// `mint` owned by `owner`, into a zeroed 165-byte buffer. The source packs
/// the mint and owner at offsets 0 and 32, the zero amount, the `None`
/// options as zero tags over the zeroed buffer, and the state byte 1 at 108;
/// it refuses only a buffer whose length is not 165.
#[verifier::external_body]
fn pack_token_account(mint: [u8; 32], owner: [u8; 32]) -> (r: Option<[u8; 165]>)
    ensures
        r is Some,
        r->Some_0@ == token_account_layout(mint@, owner@),
{
    let account = spl_token::state::Account {
        mint: anchor_lang::prelude::Pubkey::new_from_array(mint),
        owner: anchor_lang::prelude::Pubkey::new_from_array(owner),
        amount: 0,
        delegate: anchor_lang::solana_program::program_option::COption::None,
        state: spl_token::state::AccountState::Initialized,
        is_native: anchor_lang::solana_program::program_option::COption::None,
        delegated_amount: 0,
        close_authority: anchor_lang::solana_program::program_option::COption::None,
    };
    let mut bytes = [0u8; 165];
    <spl_token::state::Account as anchor_lang::solana_program::program_pack::Pack>::pack(account, &mut bytes)
        .ok()
        .map(|_| bytes)
}

/// The expected bytes of each custody Token account after initialization.
pub fn expected_token_bytes(mint: &Pubkey, authority: &Pubkey) -> (r: Result<[u8; 165], Piv1Error>)
    ensures
        r is Ok,
        r->Ok_0@ == token_account_layout(mint.bytes(), authority.bytes()),
{
    match pack_token_account(mint.to_bytes(), authority.to_bytes()) {
        None => Err(Piv1Error::InvalidTokenCustody),
        Some(bytes) => Ok(bytes),
    }
}

/// Appends `next` to the envelopes built so far; the first refusal stands.
pub open spec fn chain_envelope(
    prev: Piv1Result<Seq<StateEnvelopeView>>,
    next: Piv1Result<StateEnvelopeView>,
) -> Piv1Result<Seq<StateEnvelopeView>> {
    match prev {
        Err(e) => Err(e),
        Ok(s) => match next {
            Err(e) => Err(e),
            Ok(v) => Ok(s.push(v)),
        },
    }
}

/// The nine payload byte strings.
pub open spec fn payload_views(p: [Vec<u8>; 9]) -> Seq<Seq<u8>> {
    Seq::new(9, |i: int| p[i]@)
}

/// The nine initial envelopes of the model, in target order: configuration,
/// distribution, registry and the six rewards; `p` holds their serializations.
pub open spec fn spec_genesis_envelopes(m: ApprovedGenesisModel, p: Seq<Seq<u8>>) -> Piv1Result<Seq<StateEnvelopeView>> {
    let r = m.spec_rewards();
    let s0 = chain_envelope(Ok(Seq::empty()), spec_config_envelope(m.spec_config(), p[0]));
    let s1 = chain_envelope(s0, spec_distribution_envelope(m.spec_distribution(), p[1]));
    let s2 = chain_envelope(s1, spec_registry_envelope(m.spec_registry(), p[2]));
    let s3 = chain_envelope(s2, spec_reward_envelope(r[0], p[3]));
    let s4 = chain_envelope(s3, spec_reward_envelope(r[1], p[4]));
    let s5 = chain_envelope(s4, spec_reward_envelope(r[2], p[5]));
    let s6 = chain_envelope(s5, spec_reward_envelope(r[3], p[6]));
    let s7 = chain_envelope(s6, spec_reward_envelope(r[4], p[7]));
    chain_envelope(s7, spec_reward_envelope(r[5], p[8]))
}

/// The views of nine envelopes.
pub open spec fn envelope_views(e: [StateEnvelope; 9]) -> Seq<StateEnvelopeView> {
    Seq::new(9, |i: int| e[i]@)
}

/// Builds the nine initial envelopes from the model and their serializations.
pub fn genesis_envelopes(model: &ApprovedGenesisModel, payloads: &[Vec<u8>; 9]) -> (r: Piv1Result<[StateEnvelope; 9]>)
    ensures
        match r {
            Ok(e) => spec_genesis_envelopes(*model, payload_views(*payloads)) == Ok::<Seq<StateEnvelopeView>, Piv1Error>(
                envelope_views(e),
            ),
            Err(e) => spec_genesis_envelopes(*model, payload_views(*payloads)) == Err::<Seq<StateEnvelopeView>, Piv1Error>(e),
        },
{
    let rewards = model.proposed_rewards();
    let c = StateEnvelope::config(model.proposed_config(), payloads[0].as_slice())?;
    let d = StateEnvelope::distribution(model.proposed_distribution(), payloads[1].as_slice())?;
    let g = StateEnvelope::registry(model.proposed_registry(), payloads[2].as_slice())?;
    let r0 = StateEnvelope::reward(&rewards[0], payloads[3].as_slice())?;
    let r1 = StateEnvelope::reward(&rewards[1], payloads[4].as_slice())?;
    let r2 = StateEnvelope::reward(&rewards[2], payloads[5].as_slice())?;
    let r3 = StateEnvelope::reward(&rewards[3], payloads[6].as_slice())?;
    let r4 = StateEnvelope::reward(&rewards[4], payloads[7].as_slice())?;
    let r5 = StateEnvelope::reward(&rewards[5], payloads[8].as_slice())?;
    let ghost views = (c@, d@, g@, r0@, r1@, r2@, r3@, r4@, r5@);
    let e = [c, d, g, r0, r1, r2, r3, r4, r5];
    proof {
        let s = seq![views.0, views.1, views.2, views.3, views.4, views.5, views.6, views.7, views.8];
        assert(envelope_views(e) =~= s);
        assert(Seq::<StateEnvelopeView>::empty().push(views.0).push(views.1).push(views.2).push(views.3).push(views.4).push(
            views.5,
        ).push(views.6).push(views.7).push(views.8) =~= s);
    }
    Ok(e)
}

/// The seventeen allocation, bootstrap and protocol role indices.
pub open spec fn completion_protected(roles: GenesisInitializationRoles) -> Seq<usize> {
    seq![roles.allocation.payer, roles.allocation.system_program] + allocation_protected(roles.allocation)
}

/// Outcome of the completion-role checks: a distinct in-range Token program
/// role that is the executable Token program, and a readable 82-byte mint;
/// on success the mint's owner, lamports and bytes.
pub open spec fn spec_completion_roles(views: Seq<AccountView>, roles: GenesisInitializationRoles) -> GenesisInitializationResult<
    (Pubkey, u64, Seq<u8>),
> {
    let n = views.len();
    let token = roles.token_program;
    let mint_role = roles.allocation.preflight.protocol.mint;
    if token >= n || mint_role >= n || completion_protected(roles).contains(token)
        || roles.allocation.preflight.targets@.contains(token) {
        Err(GenesisInitializationError::InvalidRoles)
    } else if views[token as int].key != token_program_key() || !views[token as int].executable {
        Err(GenesisInitializationError::State(Piv1Error::InvalidProgramIdentity))
    } else {
        let mint = views[mint_role as int];
        match mint.data {
            None => Err(GenesisInitializationError::State(Piv1Error::AccountBorrowFailed)),
            Some(d) => if d@.len() != 82 {
                Err(GenesisInitializationError::State(Piv1Error::InvalidAccountSize))
            } else {
                match mint.lamports {
                    None => Err(GenesisInitializationError::State(Piv1Error::AccountBorrowFailed)),
                    Some(l) => Ok((mint.owner, l, d@)),
                }
            },
        }
    }
}

/// Whether `x` occurs in `s`.
fn role_in(s: &[usize], x: usize) -> (r: bool)
    ensures
        r == s@.contains(x),
{
    let mut i: usize = 0;
    while i < s.len()
        invariant
            i <= s@.len(),
            forall|j: int| 0 <= j < i ==> s@[j] != x,
        decreases s@.len() - i,
    {
        if s[i] == x {
            return true;
        }
        i = i + 1;
    }
    false
}

/// Checks the completion roles and observes the mint before initialization.
pub fn validate_completion_roles(views: &Vec<AccountView>, roles: GenesisInitializationRoles) -> (r: GenesisInitializationResult<MintObservation>)
    ensures
        match r {
            Ok(m) => spec_completion_roles(views@, roles) == Ok::<(Pubkey, u64, Seq<u8>), GenesisInitializationError>(
                (m.owner, m.lamports, m.bytes@),
            ),
            Err(e) => spec_completion_roles(views@, roles) == Err::<(Pubkey, u64, Seq<u8>), GenesisInitializationError>(e),
        },
{
    let a = roles.allocation;
    let b = a.preflight.bootstrap;
    let p = a.preflight.protocol;
    let protected = [a.payer, a.system_program, b.program, b.program_data, b.multisig, b.proposal, b.transaction,
        b.vault, b.instructions, b.config, p.program, p.pool, p.validator_list, p.reserve, p.mint, p.manager_fee,
        p.referrer];
    proof {
        assert(protected@ =~= completion_protected(roles));
    }
    let n = views.len();
    let token = roles.token_program;
    if token >= n || p.mint >= n || role_in(protected.as_slice(), token) || role_in(a.preflight.targets.as_slice(), token) {
        return Err(GenesisInitializationError::InvalidRoles);
    }
    let t = &views[token];
    if t.key != token_program_id() || !t.executable {
        return Err(GenesisInitializationError::State(Piv1Error::InvalidProgramIdentity));
    }
    let mint = &views[p.mint];
    match &mint.data {
        None => Err(GenesisInitializationError::State(Piv1Error::AccountBorrowFailed)),
        Some(d) => {
            if d.len() != 82 {
                return Err(GenesisInitializationError::State(Piv1Error::InvalidAccountSize));
            }
            match mint.lamports {
                None => Err(GenesisInitializationError::State(Piv1Error::AccountBorrowFailed)),
                Some(l) => Ok(MintObservation { owner: mint.owner, lamports: l, bytes: d.clone() }),
            }
        },
    }
}

/// What target `slot` must hold at a stage: its envelope once the states are
/// written, the Token bytes once its custody account is initialized, and
/// zeros otherwise.
pub open spec fn slot_content_matches(
    slot: int,
    data: Seq<u8>,
    envelopes: Seq<StateEnvelopeView>,
    token: Seq<u8>,
    initialized_tokens: usize,
    states_written: bool,
) -> bool {
    if slot < 9 && states_written {
        data == envelopes[slot].bytes
    } else if slot >= 14 && slot - 14 < initialized_tokens {
        data == token
    } else {
        forall|i: int| 0 <= i < data.len() ==> data[i] == 0
    }
}

/// Checks of the first `m` targets at a stage: each at its address with its
/// intended owner, writable, non-executable, funded to its observed balance
/// plus shortfall, at its size, and holding what the stage requires.
pub open spec fn spec_stage_slots(
    views: Seq<AccountView>,
    roles: GenesisInitializationRoles,
    before: [crate::genesis_preflight::GenesisTargetRentObservation; 16],
    envelopes: Seq<StateEnvelopeView>,
    token: Seq<u8>,
    initialized_tokens: usize,
    states_written: bool,
    m: int,
) -> GenesisInitializationResult<()>
    decreases m,
{
    if m <= 0 {
        Ok(())
    } else {
        match spec_stage_slots(views, roles, before, envelopes, token, initialized_tokens, states_written, m - 1) {
            Err(e) => Err(e),
            Ok(_) => {
                let slot = m - 1;
                let a = views[roles.allocation.preflight.targets[slot] as int];
                let o = before[slot];
                if o.observed_lamports + o.shortfall > u64::MAX {
                    Err(GenesisInitializationError::State(Piv1Error::ArithmeticOverflow))
                } else if a.data is None {
                    Err(GenesisInitializationError::State(Piv1Error::AccountBorrowFailed))
                } else if a.key != o.target.address || a.owner != o.target.owner || !a.is_writable || a.executable {
                    Err(GenesisInitializationError::ObservationMismatch)
                } else if a.lamports is None {
                    Err(GenesisInitializationError::State(Piv1Error::AccountBorrowFailed))
                } else if a.lamports->Some_0 != o.observed_lamports + o.shortfall || a.data->Some_0@.len() != o.target.size
                    || !slot_content_matches(slot, a.data->Some_0@, envelopes, token, initialized_tokens, states_written) {
                    Err(GenesisInitializationError::ObservationMismatch)
                } else {
                    Ok(())
                }
            },
        }
    }
}

/// Outcome of checking the observed accounts after a stage: the payer as
/// left by allocation, the executable Token program, the unchanged mint, and
/// every target as the stage requires.
pub open spec fn spec_initialization_stage(
    views: Seq<AccountView>,
    roles: GenesisInitializationRoles,
    allocation: AllocatedGenesisAccounts,
    envelopes: Seq<StateEnvelopeView>,
    token: Seq<u8>,
    mint_before: (Pubkey, u64, Seq<u8>),
    initialized_tokens: usize,
    states_written: bool,
) -> GenesisInitializationResult<()> {
    let p = views[roles.allocation.payer as int];
    let t = views[roles.token_program as int];
    let mint = views[roles.allocation.preflight.protocol.mint as int];
    if p.key != allocation.spec_payer() || p.owner != system_program_key() || p.executable || !p.is_signer
        || !p.is_writable {
        Err(GenesisInitializationError::ObservationMismatch)
    } else if p.lamports is None {
        Err(GenesisInitializationError::State(Piv1Error::AccountBorrowFailed))
    } else if p.lamports->Some_0 != allocation.spec_payer_after() {
        Err(GenesisInitializationError::ObservationMismatch)
    } else if p.data is None {
        Err(GenesisInitializationError::State(Piv1Error::AccountBorrowFailed))
    } else if p.data->Some_0@.len() != 0 {
        Err(GenesisInitializationError::ObservationMismatch)
    } else if t.key != token_program_key() || !t.executable {
        Err(GenesisInitializationError::State(Piv1Error::InvalidProgramIdentity))
    } else if mint.key != allocation.spec_before().spec_model().spec_config().jitosol_mint || mint.owner != mint_before.0
        || mint.executable {
        Err(GenesisInitializationError::ObservationMismatch)
    } else if mint.lamports is None {
        Err(GenesisInitializationError::State(Piv1Error::AccountBorrowFailed))
    } else if mint.lamports->Some_0 != mint_before.1 {
        Err(GenesisInitializationError::ObservationMismatch)
    } else if mint.data is None {
        Err(GenesisInitializationError::State(Piv1Error::AccountBorrowFailed))
    } else if mint.data->Some_0@ != mint_before.2 {
        Err(GenesisInitializationError::ObservationMismatch)
    } else {
        spec_stage_slots(
            views,
            roles,
            allocation.spec_before().spec_targets(),
            envelopes,
            token,
            initialized_tokens,
            states_written,
            16,
        )
    }
}

/// A refusal among the first `m` targets is the refusal of every longer prefix.
proof fn lemma_stage_error_persists(
    views: Seq<AccountView>,
    roles: GenesisInitializationRoles,
    before: [crate::genesis_preflight::GenesisTargetRentObservation; 16],
    envelopes: Seq<StateEnvelopeView>,
    token: Seq<u8>,
    initialized_tokens: usize,
    states_written: bool,
    m: int,
    n: int,
)
    requires
        1 <= m <= n,
        spec_stage_slots(views, roles, before, envelopes, token, initialized_tokens, states_written, m) is Err,
    ensures
        spec_stage_slots(views, roles, before, envelopes, token, initialized_tokens, states_written, n) == spec_stage_slots(
            views,
            roles,
            before,
            envelopes,
            token,
            initialized_tokens,
            states_written,
            m,
        ),
    decreases n - m,
{
    if n > m {
        lemma_stage_error_persists(views, roles, before, envelopes, token, initialized_tokens, states_written, m, n - 1);
    }
}

/// Whether two byte strings are equal.
fn bytes_equal(a: &[u8], b: &[u8]) -> (r: bool)
    ensures
        r == (a@ == b@),
{
    if a.len() != b.len() {
        return false;
    }
    let mut i: usize = 0;
    while i < a.len()
        invariant
            i <= a@.len() == b@.len(),
            forall|j: int| 0 <= j < i ==> a@[j] == b@[j],
        decreases a@.len() - i,
    {
        if a[i] != b[i] {
            return false;
        }
        i = i + 1;
    }
    proof {
        assert(a@ =~= b@);
    }
    true
}

/// Whether every byte is zero.
fn zeroed(a: &[u8]) -> (r: bool)
    ensures
        r == forall|i: int| 0 <= i < a@.len() ==> a@[i] == 0,
{
    let mut i: usize = 0;
    while i < a.len()
        invariant
            i <= a@.len(),
            forall|j: int| 0 <= j < i ==> a@[j] == 0,
        decreases a@.len() - i,
    {
        if a[i] != 0 {
            return false;
        }
        i = i + 1;
    }
    true
}

/// Checks the observed accounts after a stage of initialization.
#[verifier::loop_isolation(false)]
pub fn verify_initialization_stage(
    views: &Vec<AccountView>,
    roles: GenesisInitializationRoles,
    allocation: &AllocatedGenesisAccounts,
    envelopes: &[StateEnvelope; 9],
    token_bytes: &[u8; 165],
    mint_before: &MintObservation,
    initialized_tokens: usize,
    states_written: bool,
) -> (r: GenesisInitializationResult<()>)
    requires
        roles.allocation.payer < views@.len(),
        roles.token_program < views@.len(),
        roles.allocation.preflight.protocol.mint < views@.len(),
        forall|i: int| 0 <= i < 16 ==> #[trigger] roles.allocation.preflight.targets[i] < views@.len(),
    ensures
        r == spec_initialization_stage(
            views@,
            roles,
            *allocation,
            envelope_views(*envelopes),
            token_bytes@,
            (mint_before.owner, mint_before.lamports, mint_before.bytes@),
            initialized_tokens,
            states_written,
        ),
{
    let p = &views[roles.allocation.payer];
    if p.key != allocation.payer() || p.owner != system_program_id() || p.executable || !p.is_signer || !p.is_writable {
        return Err(GenesisInitializationError::ObservationMismatch);
    }
    match p.lamports {
        None => {
            return Err(GenesisInitializationError::State(Piv1Error::AccountBorrowFailed));
        },
        Some(l) => {
            if l != allocation.payer_after() {
                return Err(GenesisInitializationError::ObservationMismatch);
            }
        },
    }
    match &p.data {
        None => {
            return Err(GenesisInitializationError::State(Piv1Error::AccountBorrowFailed));
        },
        Some(d) => {
            if d.len() != 0 {
                return Err(GenesisInitializationError::ObservationMismatch);
            }
        },
    }
    let t = &views[roles.token_program];
    if t.key != token_program_id() || !t.executable {
        return Err(GenesisInitializationError::State(Piv1Error::InvalidProgramIdentity));
    }
    let mint = &views[roles.allocation.preflight.protocol.mint];
    if mint.key != allocation.model().proposed_config().jitosol_mint || mint.owner != mint_before.owner || mint.executable {
        return Err(GenesisInitializationError::ObservationMismatch);
    }
    match mint.lamports {
        None => {
            return Err(GenesisInitializationError::State(Piv1Error::AccountBorrowFailed));
        },
        Some(l) => {
            if l != mint_before.lamports {
                return Err(GenesisInitializationError::ObservationMismatch);
            }
        },
    }
    match &mint.data {
        None => {
            return Err(GenesisInitializationError::State(Piv1Error::AccountBorrowFailed));
        },
        Some(d) => {
            if !bytes_equal(d.as_slice(), mint_before.bytes.as_slice()) {
                return Err(GenesisInitializationError::ObservationMismatch);
            }
        },
    }
    let before = allocation.before().targets();
    let ghost env = envelope_views(*envelopes);
    let mut slot: usize = 0;
    while slot < 16
        invariant
            slot <= 16,
            *before == allocation.spec_before().spec_targets(),
            spec_stage_slots(views@, roles, *before, env, token_bytes@, initialized_tokens, states_written, slot as int)
                == Ok::<(), GenesisInitializationError>(()),
        decreases 16 - slot,
    {
        let a = &views[roles.allocation.preflight.targets[slot]];
        let o = before[slot];
        if o.observed_lamports > u64::MAX - o.shortfall {
            proof {
                lemma_stage_error_persists(views@, roles, *before, env, token_bytes@, initialized_tokens, states_written, slot + 1, 16);
            }
            return Err(GenesisInitializationError::State(Piv1Error::ArithmeticOverflow));
        }
        let balance = o.observed_lamports + o.shortfall;
        let data = match &a.data {
            None => {
                proof {
                    lemma_stage_error_persists(views@, roles, *before, env, token_bytes@, initialized_tokens, states_written, slot + 1, 16);
                }
                return Err(GenesisInitializationError::State(Piv1Error::AccountBorrowFailed));
            },
            Some(d) => d,
        };
        if a.key != o.target.address || a.owner != o.target.owner || !a.is_writable || a.executable {
            proof {
                lemma_stage_error_persists(views@, roles, *before, env, token_bytes@, initialized_tokens, states_written, slot + 1, 16);
            }
            return Err(GenesisInitializationError::ObservationMismatch);
        }
        let lamports = match a.lamports {
            None => {
                proof {
                    lemma_stage_error_persists(views@, roles, *before, env, token_bytes@, initialized_tokens, states_written, slot + 1, 16);
                }
                return Err(GenesisInitializationError::State(Piv1Error::AccountBorrowFailed));
            },
            Some(l) => l,
        };
        let matches = if slot < 9 && states_written {
            bytes_equal(data.as_slice(), envelopes[slot].as_bytes())
        } else if slot >= 14 && slot - 14 < initialized_tokens {
            bytes_equal(data.as_slice(), token_bytes.as_slice())
        } else {
            zeroed(data.as_slice())
        };
        if lamports != balance || data.len() != o.target.size || !matches {
            proof {
                lemma_stage_error_persists(views@, roles, *before, env, token_bytes@, initialized_tokens, states_written, slot + 1, 16);
            }
            return Err(GenesisInitializationError::ObservationMismatch);
        }
        slot = slot + 1;
    }
    Ok(())
}

/// Whether two distribution headers are equal, field by field.
pub fn same_distribution(a: &ActiveDistribution, b: &ActiveDistribution) -> (r: bool)
    ensures
        r == (*a == *b),
{
    if a.version != b.version || a.bump != b.bump || a.is_initialized != b.is_initialized || a.lifecycle != b.lifecycle || a.recovery_flags != b.recovery_flags || a.settlement_recorded != b.settlement_recorded || a.active_sequence != b.active_sequence || a.last_completed != b.last_completed || a.prepared_at != b.prepared_at || a.prepared_slot != b.prepared_slot || a.prepared_epoch != b.prepared_epoch || a.old_protected_principal_lamports != b.old_protected_principal_lamports || a.historical_jitosol_units != b.historical_jitosol_units || a.historical_sol_lamports != b.historical_sol_lamports || a.historical_value_lamports != b.historical_value_lamports || a.snapshot_pool_total_lamports != b.snapshot_pool_total_lamports || a.snapshot_pool_token_supply != b.snapshot_pool_token_supply || a.snapshot_withdrawal_fee_numerator != b.snapshot_withdrawal_fee_numerator || a.snapshot_withdrawal_fee_denominator != b.snapshot_withdrawal_fee_denominator || a.gross_yield_lamports != b.gross_yield_lamports || a.prior_next_cycle_yield_lamports != b.prior_next_cycle_yield_lamports || a.htfp_gross_obligation_lamports != b.htfp_gross_obligation_lamports || a.permanent_compound_lamports != b.permanent_compound_lamports || a.team_owner_gross_obligation_lamports != b.team_owner_gross_obligation_lamports || a.kif_gross_obligation_lamports != b.kif_gross_obligation_lamports || a.split_dust_lamports != b.split_dust_lamports || a.outgoing_gross_obligation_lamports != b.outgoing_gross_obligation_lamports || a.pending_sol_snapshot_lamports != b.pending_sol_snapshot_lamports || a.pending_sol_used_lamports != b.pending_sol_used_lamports || a.snapshot_conversion_dust_lamports != b.snapshot_conversion_dust_lamports || a.fixed_jitosol_withdrawal_target_units != b.fixed_jitosol_withdrawal_target_units || a.snapshot_leg_input_floor_units != b.snapshot_leg_input_floor_units || a.maximum_useful_legs != b.maximum_useful_legs || a.stored_round_minimum_native_lamports != b.stored_round_minimum_native_lamports || a.stored_residual_hwm_floor_lamports != b.stored_residual_hwm_floor_lamports || a.stored_slippage_bps != b.stored_slippage_bps || a.cumulative_jitosol_assigned_units != b.cumulative_jitosol_assigned_units || a.cumulative_withdrawal_fee_units != b.cumulative_withdrawal_fee_units || a.cumulative_burned_units != b.cumulative_burned_units || a.cumulative_expected_native_lamports != b.cumulative_expected_native_lamports || a.cumulative_delegated_native_lamports != b.cumulative_delegated_native_lamports || a.cumulative_finalized_delegated_native_lamports != b.cumulative_finalized_delegated_native_lamports || a.cumulative_finalized_native_lamports != b.cumulative_finalized_native_lamports || a.cumulative_recovered_stake_rent_lamports != b.cumulative_recovered_stake_rent_lamports || a.cumulative_recovered_metadata_rent_lamports != b.cumulative_recovered_metadata_rent_lamports || a.cumulative_cooldown_rewards_lamports != b.cumulative_cooldown_rewards_lamports || a.cumulative_cooldown_losses_lamports != b.cumulative_cooldown_losses_lamports || a.next_leg_index != b.next_leg_index || a.successful_leg_count != b.successful_leg_count || a.finalized_leg_count != b.finalized_leg_count || a.recorded_escrow_available_lamports != b.recorded_escrow_available_lamports || a.outstanding_active_round_liability_lamports != b.outstanding_active_round_liability_lamports || a.htfp_recipient != b.htfp_recipient || a.team_owner_recipient != b.team_owner_recipient || a.guardian_registry != b.guardian_registry || a.guardian_registry_revision != b.guardian_registry_revision || a.kif_eligibility_bitmap != b.kif_eligibility_bitmap || a.kif_active_guardian_count != b.kif_active_guardian_count || a.kif_period_id != b.kif_period_id || a.kif_carry_input_lamports != b.kif_carry_input_lamports || a.proposed_hwm_delta_lamports != b.proposed_hwm_delta_lamports || a.proposed_hwm_after_settlement_lamports != b.proposed_hwm_after_settlement_lamports || a.actual_net_available_lamports != b.actual_net_available_lamports || a.actual_htfp_lamports != b.actual_htfp_lamports || a.actual_team_owner_lamports != b.actual_team_owner_lamports || a.actual_kif_allocation_lamports != b.actual_kif_allocation_lamports || a.actual_net_allocation_dust_lamports != b.actual_net_allocation_dust_lamports || a.actual_allocated_outgoing_lamports != b.actual_allocated_outgoing_lamports || a.actual_escrow_remainder_lamports != b.actual_escrow_remainder_lamports || a.actual_retained_conservative_dust_lamports != b.actual_retained_conservative_dust_lamports || a.actual_kif_liability_lamports != b.actual_kif_liability_lamports || a.actual_kif_carry_next_lamports != b.actual_kif_carry_next_lamports || a.actual_zero_active_kif_compound_lamports != b.actual_zero_active_kif_compound_lamports || a.actual_hwm_delta_lamports != b.actual_hwm_delta_lamports || a.settled_protected_hwm_lamports != b.settled_protected_hwm_lamports {
        return false;
    }
    let mut i: usize = 0;
    while i < 6
        invariant
            i <= 6,
            forall|j: int| 0 <= j < i ==> a.guardian_keys[j] == b.guardian_keys[j],
        decreases 6 - i,
    {
        if a.guardian_keys[i] != b.guardian_keys[i] {
            return false;
        }
        i = i + 1;
    }
    proof {
        assert(a.guardian_keys =~= b.guardian_keys);
    }
    true
}

/// Checks of the first `m` state targets before the writes: each at its
/// derived address, owned by the program, writable, non-executable, rent
/// exempt for its size, allocated to its envelope's size and still zeroed.
pub open spec fn spec_write_slots(
    program: Pubkey,
    views: Seq<AccountView>,
    targets: [usize; 16],
    model_targets: [crate::genesis_model::DerivedGenesisTarget; 16],
    rent: RentFloors,
    envelopes: Seq<StateEnvelopeView>,
    m: int,
) -> GenesisInitializationResult<()>
    decreases m,
{
    if m <= 0 {
        Ok(())
    } else {
        match spec_write_slots(program, views, targets, model_targets, rent, envelopes, m - 1) {
            Err(e) => Err(e),
            Ok(_) => {
                let a = views[targets[m - 1] as int];
                let t = model_targets[m - 1];
                if a.key != t.address {
                    Err(GenesisInitializationError::State(Piv1Error::InvalidAccountPda))
                } else if a.owner != program {
                    Err(GenesisInitializationError::State(Piv1Error::InvalidAccountOwner))
                } else if !a.is_writable {
                    Err(GenesisInitializationError::State(Piv1Error::AccountNotWritable))
                } else if a.executable {
                    Err(GenesisInitializationError::State(Piv1Error::ExecutableAccount))
                } else if a.lamports is None {
                    Err(GenesisInitializationError::State(Piv1Error::AccountBorrowFailed))
                } else if spec_size_floor(rent, t.size) is Err {
                    Err(GenesisInitializationError::State(spec_size_floor(rent, t.size)->Err_0))
                } else if a.lamports->Some_0 < spec_size_floor(rent, t.size)->Ok_0 {
                    Err(GenesisInitializationError::State(Piv1Error::AccountRentDeficit))
                } else if a.data is None {
                    Err(GenesisInitializationError::State(Piv1Error::AccountBorrowFailed))
                } else if a.data->Some_0@.len() != t.size || a.data->Some_0@.len() != envelopes[m - 1].bytes.len() {
                    Err(GenesisInitializationError::State(Piv1Error::InvalidAccountSize))
                } else if exists|i: int| 0 <= i < a.data->Some_0@.len() && a.data->Some_0@[i] != 0 {
                    Err(GenesisInitializationError::State(Piv1Error::StateEnvelopeChanged))
                } else {
                    Ok(())
                }
            },
        }
    }
}

/// A refusal among the first `m` targets is the refusal of every longer prefix.
proof fn lemma_write_error_persists(
    program: Pubkey,
    views: Seq<AccountView>,
    targets: [usize; 16],
    model_targets: [crate::genesis_model::DerivedGenesisTarget; 16],
    rent: RentFloors,
    envelopes: Seq<StateEnvelopeView>,
    m: int,
    n: int,
)
    requires
        1 <= m <= n,
        spec_write_slots(program, views, targets, model_targets, rent, envelopes, m) is Err,
    ensures
        spec_write_slots(program, views, targets, model_targets, rent, envelopes, n) == spec_write_slots(
            program,
            views,
            targets,
            model_targets,
            rent,
            envelopes,
            m,
        ),
    decreases n - m,
{
    if n > m {
        lemma_write_error_persists(program, views, targets, model_targets, rent, envelopes, m, n - 1);
    }
}

/// Checks the nine state targets before their envelopes are written; the
/// caller copies each envelope's bytes only after this succeeds.
#[verifier::loop_isolation(false)]
pub fn check_initial_writes(
    program: &Pubkey,
    views: &Vec<AccountView>,
    targets: [usize; 16],
    model: &ApprovedGenesisModel,
    rent: &RentFloors,
    envelopes: &[StateEnvelope; 9],
) -> (r: GenesisInitializationResult<()>)
    requires
        forall|i: int| 0 <= i < 16 ==> #[trigger] targets[i] < views@.len(),
    ensures
        r == spec_write_slots(*program, views@, targets, model.spec_targets(), *rent, envelope_views(*envelopes), 9),
{
    let model_targets = model.targets();
    let ghost env = envelope_views(*envelopes);
    let mut slot: usize = 0;
    while slot < 9
        invariant
            slot <= 9,
            *model_targets == model.spec_targets(),
            spec_write_slots(*program, views@, targets, *model_targets, *rent, env, slot as int) == Ok::<
                (),
                GenesisInitializationError,
            >(()),
        decreases 9 - slot,
    {
        let a = &views[targets[slot]];
        let t = model_targets[slot];
        let r = write_slot(program, a, &t, rent, envelopes[slot].as_bytes());
        if let Err(e) = r {
            proof {
                lemma_write_error_persists(*program, views@, targets, *model_targets, *rent, env, slot + 1, 9);
            }
            return Err(e);
        }
        slot = slot + 1;
    }
    Ok(())
}

/// Checks one state target before its write.
fn write_slot(
    program: &Pubkey,
    a: &AccountView,
    t: &crate::genesis_model::DerivedGenesisTarget,
    rent: &RentFloors,
    envelope: &[u8],
) -> (r: GenesisInitializationResult<()>)
    ensures
        r == (if a.key != t.address {
            Err(GenesisInitializationError::State(Piv1Error::InvalidAccountPda))
        } else if a.owner != *program {
            Err(GenesisInitializationError::State(Piv1Error::InvalidAccountOwner))
        } else if !a.is_writable {
            Err(GenesisInitializationError::State(Piv1Error::AccountNotWritable))
        } else if a.executable {
            Err(GenesisInitializationError::State(Piv1Error::ExecutableAccount))
        } else if a.lamports is None {
            Err(GenesisInitializationError::State(Piv1Error::AccountBorrowFailed))
        } else if spec_size_floor(*rent, t.size) is Err {
            Err(GenesisInitializationError::State(spec_size_floor(*rent, t.size)->Err_0))
        } else if a.lamports->Some_0 < spec_size_floor(*rent, t.size)->Ok_0 {
            Err(GenesisInitializationError::State(Piv1Error::AccountRentDeficit))
        } else if a.data is None {
            Err(GenesisInitializationError::State(Piv1Error::AccountBorrowFailed))
        } else if a.data->Some_0@.len() != t.size || a.data->Some_0@.len() != envelope@.len() {
            Err(GenesisInitializationError::State(Piv1Error::InvalidAccountSize))
        } else if exists|i: int| 0 <= i < a.data->Some_0@.len() && a.data->Some_0@[i] != 0 {
            Err(GenesisInitializationError::State(Piv1Error::StateEnvelopeChanged))
        } else {
            Ok(())
        }),
{
    if a.key != t.address {
        return Err(GenesisInitializationError::State(Piv1Error::InvalidAccountPda));
    }
    if a.owner != *program {
        return Err(GenesisInitializationError::State(Piv1Error::InvalidAccountOwner));
    }
    if !a.is_writable {
        return Err(GenesisInitializationError::State(Piv1Error::AccountNotWritable));
    }
    if a.executable {
        return Err(GenesisInitializationError::State(Piv1Error::ExecutableAccount));
    }
    let lamports = match a.lamports {
        None => {
            return Err(GenesisInitializationError::State(Piv1Error::AccountBorrowFailed));
        },
        Some(l) => l,
    };
    let floor = match crate::genesis_preflight::size_floor(rent, t.size) {
        Err(e) => {
            return Err(GenesisInitializationError::State(e));
        },
        Ok(f) => f,
    };
    if lamports < floor {
        return Err(GenesisInitializationError::State(Piv1Error::AccountRentDeficit));
    }
    match &a.data {
        None => Err(GenesisInitializationError::State(Piv1Error::AccountBorrowFailed)),
        Some(d) => {
            if d.len() != t.size || d.len() != envelope.len() {
                return Err(GenesisInitializationError::State(Piv1Error::InvalidAccountSize));
            }
            if !zeroed(d.as_slice()) {
                return Err(GenesisInitializationError::State(Piv1Error::StateEnvelopeChanged));
            }
            Ok(())
        },
    }
}

/// The nine fixed accounts, by target slot.
pub open spec fn fixed_infos(views: Seq<AccountView>, targets: [usize; 16]) -> FixedAccountInfos {
    FixedAccountInfos {
        config: views[targets[0] as int],
        active_distribution: views[targets[1] as int],
        pending_sol: views[targets[9] as int],
        principal_sol: views[targets[10] as int],
        operational_sol: views[targets[11] as int],
        distribution_escrow: views[targets[12] as int],
        kif_sol: views[targets[13] as int],
        principal_jito: views[targets[14] as int],
        pending_jito: views[targets[15] as int],
    }
}

/// The fixed-account check sees the accounts only through their keys and the
/// Config account's observation.
pub proof fn lemma_fixed_accounts_congruent(
    program: Pubkey,
    rent: RentFloors,
    a: FixedAccountInfos,
    b: FixedAccountInfos,
    config: Option<(PivConfig, usize)>,
)
    requires
        a.spec_keys() == b.spec_keys(),
        same_account(a.config, b.config),
    ensures
        spec_authenticate_fixed(program, rent, a, config) == spec_authenticate_fixed(program, rent, b, config),
{
    assert(spec_state_envelope(a.config, program, StateKind::Config, payload_len(config), rent.config)
        == spec_state_envelope(b.config, program, StateKind::Config, payload_len(config), rent.config));
}

/// Outcome of the final checks: the fixed accounts authenticate and hold the
/// proposed configuration and distribution, with both custody vaults empty.
/// `config` and `distribution` are the decoded payloads with their lengths.
pub open spec fn spec_final_checks(
    program: Pubkey,
    views: Seq<AccountView>,
    targets: [usize; 16],
    rent: RentFloors,
    model: ApprovedGenesisModel,
    config: Option<(PivConfig, usize)>,
) -> GenesisInitializationResult<()> {
    match spec_authenticate_fixed(program, rent, fixed_infos(views, targets), config) {
        Err(e) => Err(GenesisInitializationError::State(e)),
        Ok(a) => if a.spec_config() != model.spec_config() || a.spec_distribution() != model.spec_distribution()
            || a.spec_principal_jito().token_units != 0 || a.spec_pending_jito().token_units != 0 {
            Err(GenesisInitializationError::ObservationMismatch)
        } else {
            Ok(())
        },
    }
}

/// Authenticates the fixed accounts after the writes and compares them with
/// the proposed state. Raw prefunds stay unclassified: no economic
/// observation is taken.
pub fn verify_fixed_accounts(
    program: &Pubkey,
    views: &Vec<AccountView>,
    targets: [usize; 16],
    rent: &RentFloors,
    model: &ApprovedGenesisModel,
    config: Option<(PivConfig, usize)>,
    distribution: Option<(ActiveDistribution, usize)>,
) -> (r: GenesisInitializationResult<()>)
    requires
        forall|i: int| 0 <= i < 16 ==> #[trigger] targets[i] < views@.len(),
    ensures
        r == spec_final_checks(*program, views@, targets, *rent, *model, config),
{
    let infos = FixedAccountInfos {
        config: copy_account(&views[targets[0]]),
        active_distribution: copy_account(&views[targets[1]]),
        pending_sol: copy_account(&views[targets[9]]),
        principal_sol: copy_account(&views[targets[10]]),
        operational_sol: copy_account(&views[targets[11]]),
        distribution_escrow: copy_account(&views[targets[12]]),
        kif_sol: copy_account(&views[targets[13]]),
        principal_jito: copy_account(&views[targets[14]]),
        pending_jito: copy_account(&views[targets[15]]),
    };
    proof {
        assert(infos.spec_keys() =~= fixed_infos(views@, targets).spec_keys());
        lemma_fixed_accounts_congruent(*program, *rent, infos, fixed_infos(views@, targets), config);
    }
    let after = match authenticate_fixed_accounts(program, rent, &infos, config, distribution) {
        Err(e) => {
            return Err(GenesisInitializationError::State(e));
        },
        Ok(a) => a,
    };
    if *after.config() != *model.proposed_config() || !same_distribution(after.distribution(), model.proposed_distribution())
        || after.principal_jito().token_units != 0 || after.pending_jito().token_units != 0 {
        return Err(GenesisInitializationError::ObservationMismatch);
    }
    Ok(())
}

/// Stages initialization: the completion roles and the mint observation, then
/// the allocation batch's staging. Allocation staging refuses every input (its
/// model binds the zero System address), so staging fails with that error
/// once the completion roles pass.
pub fn begin_genesis_initialization(
    program: &Pubkey,
    views: &Vec<AccountView>,
    data: &[u8],
    roles: GenesisInitializationRoles,
    context: &SquadsInvocationContext,
) -> (r: GenesisInitializationResult<(MintObservation, (GenesisAccountPreflight, u64, u64, Vec<TargetPlan>))>)
    ensures
        match spec_completion_roles(views@, roles) {
            Err(e) => r matches Err(x) && x == e,
            Ok(_) => r matches Err(x) && x == GenesisInitializationError::Allocation(
                GenesisAllocationError::Preflight(
                    GenesisPreflightError::Model(
                        spec_prepare_error(*program, views@, data@, roles.allocation.preflight.bootstrap, *context),
                    ),
                ),
            ),
        },
{
    let mint_before = validate_completion_roles(views, roles)?;
    match begin_genesis_allocation(program, views, data, roles.allocation, context) {
        Err(e) => Err(GenesisInitializationError::Allocation(e)),
        Ok(staged) => Ok((mint_before, staged)),
    }
}

/// Completes initialization once both Token accounts are initialized and the
/// nine envelopes written: the final stage check, then the fixed-account
/// check against the proposed state.
pub fn complete_genesis_initialization(
    program: &Pubkey,
    views: &Vec<AccountView>,
    roles: GenesisInitializationRoles,
    allocation: AllocatedGenesisAccounts,
    envelopes: &[StateEnvelope; 9],
    token_bytes: &[u8; 165],
    mint_before: &MintObservation,
    rent: &RentFloors,
    config: Option<(PivConfig, usize)>,
    distribution: Option<(ActiveDistribution, usize)>,
) -> (r: GenesisInitializationResult<InitializedGenesisAccounts>)
    requires
        roles.allocation.payer < views@.len(),
        roles.token_program < views@.len(),
        roles.allocation.preflight.protocol.mint < views@.len(),
        forall|i: int| 0 <= i < 16 ==> #[trigger] roles.allocation.preflight.targets[i] < views@.len(),
    ensures
        ({
            let stage = spec_initialization_stage(
                views@,
                roles,
                allocation,
                envelope_views(*envelopes),
                token_bytes@,
                (mint_before.owner, mint_before.lamports, mint_before.bytes@),
                2,
                true,
            );
            let last = spec_final_checks(
                *program,
                views@,
                roles.allocation.preflight.targets,
                *rent,
                allocation.spec_before().spec_model(),
                config,
            );
            match r {
                Ok(done) => stage is Ok && last is Ok && done.spec_allocation() == allocation,
                Err(e) => stage == Err::<(), GenesisInitializationError>(e) || (stage is Ok && last == Err::<
                    (),
                    GenesisInitializationError,
                >(e)),
            }
        }),
{
    verify_initialization_stage(views, roles, &allocation, envelopes, token_bytes, mint_before, 2, true)?;
    verify_fixed_accounts(
        program,
        views,
        roles.allocation.preflight.targets,
        rent,
        allocation.model(),
        config,
        distribution,
    )?;
    Ok(InitializedGenesisAccounts { allocation })
}

} // verus!
