//! Validated fixed state envelopes and atomic existing-account byte persistence.
//!
//! This is a structural utility, not an instruction or authorization
//! capability. Callers supply the trusted executing program ID and rent floors,
//! authenticate the relevant topology, and derive replacements through
//! authorized checked transitions. No lamports are moved.

use crate::account_view::{
    native_funding, spec_native_funding, spec_pda, spec_program, spec_reward_seeds, validate_pda,
    validate_program, validate_seeds, reward_seeds, AccountView, RentFloors, Seed, StateKind,
};
use crate::address::Pubkey;
use crate::errors::{Piv1Error, Piv1Result};
use crate::state::config::PivConfig;
use crate::state::distribution::ActiveDistribution;
use crate::state::guardian::{GuardianRegistry, GuardianReward};
use vstd::prelude::*;
use vstd::slice::slice_to_vec;

verus! {

/// The address identity of a state account. It fixes the PDA, not the payload.
#[derive(Clone, Copy, Debug, PartialEq, Eq, Structural)]
pub enum StateIdentity {
    Config(u8),
    Distribution(u8),
    Registry(u8),
    Reward { bump: u8, guardian: Pubkey, revision: u64, index: u8 },
}

impl StateIdentity {
    /// The kind of state account with this identity.
    pub open spec fn spec_kind(self) -> StateKind {
        match self {
            StateIdentity::Config(_) => StateKind::Config,
            StateIdentity::Distribution(_) => StateKind::Distribution,
            StateIdentity::Registry(_) => StateKind::Registry,
            StateIdentity::Reward { .. } => StateKind::Reward,
        }
    }

    /// The kind of state account with this identity.
    pub fn kind(self) -> (r: StateKind)
        ensures
            r == self.spec_kind(),
    {
        match self {
            StateIdentity::Config(_) => StateKind::Config,
            StateIdentity::Distribution(_) => StateKind::Distribution,
            StateIdentity::Registry(_) => StateKind::Registry,
            StateIdentity::Reward { .. } => StateKind::Reward,
        }
    }

    /// `target` is the canonical address of this identity under `program`.
    pub open spec fn spec_validate(self, program: Pubkey, target: Pubkey) -> Piv1Result<()> {
        match self {
            StateIdentity::Config(bump) => spec_pda(program, target, seq![Seed::Config.spec_bytes()], bump),
            StateIdentity::Distribution(bump) => spec_pda(program, target, seq![Seed::Distribution.spec_bytes()], bump),
            StateIdentity::Registry(bump) => spec_pda(program, target, seq![Seed::GuardianRegistry.spec_bytes()], bump),
            StateIdentity::Reward { bump, guardian, revision, index } => spec_pda(
                program,
                target,
                spec_reward_seeds(guardian, revision, index),
                bump,
            ),
        }
    }

    /// Requires `target` to be the canonical address of this identity.
    pub fn validate(self, program: &Pubkey, target: &Pubkey) -> (r: Piv1Result<()>)
        ensures
            r == self.spec_validate(*program, *target),
    {
        match self {
            StateIdentity::Config(bump) => validate_pda(program, target, Seed::Config, bump),
            StateIdentity::Distribution(bump) => validate_pda(program, target, Seed::Distribution, bump),
            StateIdentity::Registry(bump) => validate_pda(program, target, Seed::GuardianRegistry, bump),
            StateIdentity::Reward { bump, guardian, revision, index } => {
                let seeds = reward_seeds(&guardian, revision, index);
                validate_seeds(program, target, &seeds, bump)
            },
        }
    }
}

/// The complete allocation of a state account: its discriminator, the
/// payload, and zeros up to the fixed size.
pub open spec fn spec_frame(kind: StateKind, payload: Seq<u8>) -> Seq<u8> {
    kind.spec_discriminator() + payload + Seq::new((kind.spec_space() - 8 - payload.len()) as nat, |i: int| 0u8)
}

/// Owned canonical envelope built from one of the four validated typed
/// payloads and its serialized bytes.
#[derive(Debug)]
pub struct StateEnvelope {
    identity: StateIdentity,
    bytes: Vec<u8>,
}

impl View for StateEnvelope {
    type V = StateEnvelopeView;

    closed spec fn view(&self) -> StateEnvelopeView {
        StateEnvelopeView { identity: self.identity, bytes: self.bytes@ }
    }
}

/// What a state envelope holds: the account identity and its complete bytes.
pub struct StateEnvelopeView {
    pub identity: StateIdentity,
    pub bytes: Seq<u8>,
}

/// Outcome of building the envelope of a validated configuration.
pub open spec fn spec_config_envelope(value: PivConfig, payload: Seq<u8>) -> Piv1Result<StateEnvelopeView> {
    match value.spec_validate() {
        Err(e) => Err(e),
        Ok(_) => spec_framed(StateIdentity::Config(value.bumps.config), payload),
    }
}

/// Outcome of building the envelope of a validated distribution header.
pub open spec fn spec_distribution_envelope(value: ActiveDistribution, payload: Seq<u8>) -> Piv1Result<StateEnvelopeView> {
    match value.spec_validate() {
        Err(e) => Err(e),
        Ok(_) => spec_framed(StateIdentity::Distribution(value.bump), payload),
    }
}

/// Outcome of building the envelope of a validated guardian registry.
pub open spec fn spec_registry_envelope(value: GuardianRegistry, payload: Seq<u8>) -> Piv1Result<StateEnvelopeView> {
    match value.spec_validate() {
        Err(e) => Err(e),
        Ok(_) => spec_framed(StateIdentity::Registry(value.bump), payload),
    }
}

/// Outcome of building the envelope of a validated guardian reward.
pub open spec fn spec_reward_envelope(value: GuardianReward, payload: Seq<u8>) -> Piv1Result<StateEnvelopeView> {
    match value.spec_validate() {
        Err(e) => Err(e),
        Ok(_) => spec_framed(
            StateIdentity::Reward {
                bump: value.bump,
                guardian: value.guardian,
                revision: value.registry_revision,
                index: value.guardian_index,
            },
            payload,
        ),
    }
}

/// Outcome of framing a payload: the payload must fit after the discriminator.
pub open spec fn spec_framed(identity: StateIdentity, payload: Seq<u8>) -> Piv1Result<StateEnvelopeView> {
    if payload.len() > identity.spec_kind().spec_space() - 8 {
        Err(Piv1Error::StateEnvelopeEncodingFailed)
    } else {
        Ok(StateEnvelopeView { identity, bytes: spec_frame(identity.spec_kind(), payload) })
    }
}

impl StateEnvelope {
    /// The envelope of a validated configuration; `payload` is its serialization.
    pub fn config(value: &PivConfig, payload: &[u8]) -> (r: Piv1Result<StateEnvelope>)
        ensures
            match r {
                Ok(e) => spec_config_envelope(*value, payload@) == Ok::<StateEnvelopeView, Piv1Error>(e@),
                Err(e) => spec_config_envelope(*value, payload@) == Err::<StateEnvelopeView, Piv1Error>(e),
            },
    {
        value.validate_initialized()?;
        Self::encode(StateIdentity::Config(value.bumps.config), payload)
    }

    /// The envelope of a validated distribution header.
    pub fn distribution(value: &ActiveDistribution, payload: &[u8]) -> (r: Piv1Result<StateEnvelope>)
        ensures
            match r {
                Ok(e) => spec_distribution_envelope(*value, payload@) == Ok::<StateEnvelopeView, Piv1Error>(e@),
                Err(e) => spec_distribution_envelope(*value, payload@) == Err::<StateEnvelopeView, Piv1Error>(e),
            },
    {
        value.validate()?;
        Self::encode(StateIdentity::Distribution(value.bump), payload)
    }

    /// The envelope of a validated guardian registry.
    pub fn registry(value: &GuardianRegistry, payload: &[u8]) -> (r: Piv1Result<StateEnvelope>)
        ensures
            match r {
                Ok(e) => spec_registry_envelope(*value, payload@) == Ok::<StateEnvelopeView, Piv1Error>(e@),
                Err(e) => spec_registry_envelope(*value, payload@) == Err::<StateEnvelopeView, Piv1Error>(e),
            },
    {
        value.validate()?;
        Self::encode(StateIdentity::Registry(value.bump), payload)
    }

    /// The envelope of a validated guardian reward.
    pub fn reward(value: &GuardianReward, payload: &[u8]) -> (r: Piv1Result<StateEnvelope>)
        ensures
            match r {
                Ok(e) => spec_reward_envelope(*value, payload@) == Ok::<StateEnvelopeView, Piv1Error>(e@),
                Err(e) => spec_reward_envelope(*value, payload@) == Err::<StateEnvelopeView, Piv1Error>(e),
            },
    {
        value.validate()?;
        Self::encode(
            StateIdentity::Reward {
                bump: value.bump,
                guardian: value.guardian,
                revision: value.registry_revision,
                index: value.guardian_index,
            },
            payload,
        )
    }

    /// The complete discriminator-inclusive fixed allocation, including zeros.
    pub fn as_bytes(&self) -> (r: &[u8])
        ensures
            r@ == self@.bytes,
    {
        self.bytes.as_slice()
    }

    /// The account identity of the envelope.
    pub fn identity(&self) -> (r: StateIdentity)
        ensures
            r == self@.identity,
    {
        self.identity
    }

    /// Frames `payload` after the discriminator and pads with zeros; a payload
    /// that does not fit is refused rather than truncated.
    fn encode(identity: StateIdentity, payload: &[u8]) -> (r: Piv1Result<StateEnvelope>)
        ensures
            match r {
                Ok(e) => spec_framed(identity, payload@) == Ok::<StateEnvelopeView, Piv1Error>(e@),
                Err(e) => spec_framed(identity, payload@) == Err::<StateEnvelopeView, Piv1Error>(e),
            },
    {
        let kind = identity.kind();
        let space = kind.space();
        if payload.len() > space - 8 {
            return Err(Piv1Error::StateEnvelopeEncodingFailed);
        }
        let discriminator = kind.discriminator();
        let mut bytes: Vec<u8> = Vec::new();
        let mut i: usize = 0;
        while i < 8
            invariant
                i <= 8,
                discriminator@ == kind.spec_discriminator(),
                bytes@ == discriminator@.subrange(0, i as int),
            decreases 8 - i,
        {
            bytes.push(discriminator[i]);
            i = i + 1;
        }
        let mut j: usize = 0;
        while j < payload.len()
            invariant
                j <= payload@.len(),
                bytes@ == kind.spec_discriminator() + payload@.subrange(0, j as int),
            decreases payload@.len() - j,
        {
            bytes.push(payload[j]);
            j = j + 1;
        }
        assert(payload@.subrange(0, payload@.len() as int) =~= payload@);
        let ghost prefix = bytes@;
        while bytes.len() < space
            invariant
                prefix == kind.spec_discriminator() + payload@,
                prefix.len() <= bytes@.len() <= space,
                bytes@.subrange(0, prefix.len() as int) == prefix,
                forall|k: int| prefix.len() <= k < bytes@.len() ==> bytes@[k] == 0u8,
            decreases space - bytes@.len(),
        {
            bytes.push(0u8);
        }
        assert(bytes@ =~= spec_frame(kind, payload@));
        Ok(StateEnvelope { identity, bytes })
    }
}

/// Complete before and after records of one prepared write.
#[derive(Debug)]
pub struct PreparedStateWrite {
    program: Pubkey,
    target: Pubkey,
    before: StateEnvelope,
    after: StateEnvelope,
}

/// What a prepared write holds.
pub struct PreparedStateWriteView {
    pub program: Pubkey,
    pub target: Pubkey,
    pub before: StateEnvelopeView,
    pub after: StateEnvelopeView,
}

impl View for PreparedStateWrite {
    type V = PreparedStateWriteView;

    closed spec fn view(&self) -> PreparedStateWriteView {
        PreparedStateWriteView { program: self.program, target: self.target, before: self.before@, after: self.after@ }
    }
}

/// Outcome of preparing a write of `after` over `before` at `target`.
pub open spec fn spec_prepare_write(
    program: Pubkey,
    target: Pubkey,
    before: StateEnvelopeView,
    after: StateEnvelopeView,
) -> Piv1Result<PreparedStateWriteView> {
    if spec_program(program) is Err {
        Err(Piv1Error::InvalidProgramIdentity)
    } else if before.identity.spec_validate(program, target) is Err {
        Err(before.identity.spec_validate(program, target)->Err_0)
    } else if after.identity.spec_validate(program, target) is Err {
        Err(after.identity.spec_validate(program, target)->Err_0)
    } else if before.identity != after.identity {
        Err(Piv1Error::InvalidAccountPda)
    } else {
        Ok(PreparedStateWriteView { program, target, before, after })
    }
}

impl PreparedStateWrite {
    /// Prepares a write. Preparing neither authenticates the account nor
    /// approves the transition; commit compares the entire prior envelope.
    pub fn new(
        trusted_runtime_program_id: &Pubkey,
        target: Pubkey,
        before: StateEnvelope,
        after: StateEnvelope,
    ) -> (r: Piv1Result<PreparedStateWrite>)
        ensures
            match r {
                Ok(w) => spec_prepare_write(*trusted_runtime_program_id, target, before@, after@)
                    == Ok::<PreparedStateWriteView, Piv1Error>(w@),
                Err(e) => spec_prepare_write(*trusted_runtime_program_id, target, before@, after@)
                    == Err::<PreparedStateWriteView, Piv1Error>(e),
            },
    {
        validate_program(trusted_runtime_program_id)?;
        before.identity.validate(trusted_runtime_program_id, &target)?;
        after.identity.validate(trusted_runtime_program_id, &target)?;
        if before.identity != after.identity {
            return Err(Piv1Error::InvalidAccountPda);
        }
        Ok(PreparedStateWrite { program: *trusted_runtime_program_id, target, before, after })
    }

    pub fn target(&self) -> (r: Pubkey)
        ensures
            r == self@.target,
    {
        self.target
    }

    pub fn expected_before(&self) -> (r: &[u8])
        ensures
            r@ == self@.before.bytes,
    {
        self.before.as_bytes()
    }

    pub fn replacement(&self) -> (r: &[u8])
        ensures
            r@ == self@.after.bytes,
    {
        self.after.as_bytes()
    }
}

/// Checks of write `i` and its account before any data is borrowed for writing.
pub open spec fn spec_preflight_one(
    program: Pubkey,
    rent: RentFloors,
    writes: Seq<PreparedStateWrite>,
    accounts: Seq<AccountView>,
    i: int,
) -> Piv1Result<()> {
    let w = writes[i]@;
    let a = accounts[i];
    if w.program != program {
        Err(Piv1Error::InvalidProgramIdentity)
    } else if exists|j: int| i < j < accounts.len() && #[trigger] accounts[j].key == a.key {
        Err(Piv1Error::AccountAlias)
    } else if a.key != w.target {
        Err(Piv1Error::InvalidAccountPda)
    } else if w.before.identity.spec_validate(program, a.key) is Err {
        Err(w.before.identity.spec_validate(program, a.key)->Err_0)
    } else if w.after.identity.spec_validate(program, a.key) is Err {
        Err(w.after.identity.spec_validate(program, a.key)->Err_0)
    } else if a.owner != program {
        Err(Piv1Error::InvalidAccountOwner)
    } else if a.executable {
        Err(Piv1Error::ExecutableAccount)
    } else if !a.is_writable {
        Err(Piv1Error::AccountNotWritable)
    } else {
        match rent.spec_state(w.before.identity.spec_kind()) {
            Err(e) => Err(e),
            Ok(floor) => match spec_native_funding(a, floor) {
                Err(e) => Err(e),
                Ok(_) => Ok(()),
            },
        }
    }
}

/// The first preflight failure from write `i` on.
pub open spec fn spec_preflight(
    program: Pubkey,
    rent: RentFloors,
    writes: Seq<PreparedStateWrite>,
    accounts: Seq<AccountView>,
    i: int,
) -> Piv1Result<()>
    decreases writes.len() - i,
{
    if i < 0 || i >= writes.len() {
        Ok(())
    } else {
        match spec_preflight_one(program, rent, writes, accounts, i) {
            Err(e) => Err(e),
            Ok(_) => spec_preflight(program, rent, writes, accounts, i + 1),
        }
    }
}

/// Data checks of write `i`: borrowable, matching sizes, and exactly the
/// prepared prior bytes.
pub open spec fn spec_data_one(writes: Seq<PreparedStateWrite>, accounts: Seq<AccountView>, i: int) -> Piv1Result<()> {
    let w = writes[i]@;
    match accounts[i].data {
        None => Err(Piv1Error::AccountBorrowFailed),
        Some(d) => if d@.len() != w.before.bytes.len() || d@.len() != w.after.bytes.len() {
            Err(Piv1Error::InvalidAccountSize)
        } else if d@ != w.before.bytes {
            Err(Piv1Error::StateEnvelopeChanged)
        } else {
            Ok(())
        },
    }
}

/// The first data failure from write `i` on.
pub open spec fn spec_data(writes: Seq<PreparedStateWrite>, accounts: Seq<AccountView>, i: int) -> Piv1Result<()>
    decreases writes.len() - i,
{
    if i < 0 || i >= writes.len() {
        Ok(())
    } else {
        match spec_data_one(writes, accounts, i) {
            Err(e) => Err(e),
            Ok(_) => spec_data(writes, accounts, i + 1),
        }
    }
}

/// Outcome of committing a batch of prepared writes.
pub open spec fn spec_commit_writes(
    program: Pubkey,
    rent: RentFloors,
    writes: Seq<PreparedStateWrite>,
    accounts: Seq<AccountView>,
) -> Piv1Result<()> {
    if spec_program(program) is Err {
        Err(Piv1Error::InvalidProgramIdentity)
    } else {
        match spec_preflight(program, rent, writes, accounts, 0) {
            Err(e) => Err(e),
            Ok(_) => spec_data(writes, accounts, 0),
        }
    }
}

/// `after` is `before` with its data replaced by `bytes`.
pub open spec fn replaced_data(before: AccountView, after: AccountView, bytes: Seq<u8>) -> bool {
    &&& after.key == before.key
    &&& after.owner == before.owner
    &&& after.executable == before.executable
    &&& after.is_signer == before.is_signer
    &&& after.is_writable == before.is_writable
    &&& after.lamports == before.lamports
    &&& after.data matches Some(d) && d@ == bytes
}

/// Commits a batch of prepared writes to the existing accounts paired with
/// them by position. Every account is checked, and every prior envelope is
/// compared, before any byte is replaced; a failure leaves every account as it
/// was. Empty and no-op batches are allowed.
#[verifier::loop_isolation(false)]
pub fn commit_state_writes(
    trusted_runtime_program_id: &Pubkey,
    rent: &RentFloors,
    writes: &[PreparedStateWrite],
    accounts: &mut Vec<AccountView>,
) -> (r: Piv1Result<()>)
    requires
        old(accounts)@.len() == writes@.len(),
    ensures
        r == spec_commit_writes(*trusted_runtime_program_id, *rent, writes@, old(accounts)@),
        r is Err ==> final(accounts)@ == old(accounts)@,
        r is Ok ==> final(accounts)@.len() == old(accounts)@.len() && forall|i: int|
            0 <= i < writes@.len() ==> replaced_data(old(accounts)@[i], #[trigger] final(accounts)@[i], writes@[i]@.after.bytes),
{
    let program = trusted_runtime_program_id;
    validate_program(program)?;
    let n = writes.len();
    let mut i: usize = 0;
    while i < n
        invariant
            i <= n,
            n == writes@.len(),
            accounts@ == old(accounts)@,
            spec_preflight(*program, *rent, writes@, accounts@, 0) == spec_preflight(*program, *rent, writes@, accounts@, i as int),
        decreases n - i,
    {
        let w = &writes[i];
        let key = accounts[i].key;
        if w.program != *program {
            return Err(Piv1Error::InvalidProgramIdentity);
        }
        let mut j: usize = i + 1;
        while j < n
            invariant
                i < j <= n,
                n == accounts@.len(),
                key == accounts@[i as int].key,
                forall|k: int| i < k < j ==> #[trigger] accounts@[k].key != key,
            decreases n - j,
        {
            if accounts[j].key == key {
                return Err(Piv1Error::AccountAlias);
            }
            j = j + 1;
        }
        if key != w.target {
            return Err(Piv1Error::InvalidAccountPda);
        }
        w.before.identity.validate(program, &key)?;
        w.after.identity.validate(program, &key)?;
        let a = &accounts[i];
        if a.owner != *program {
            return Err(Piv1Error::InvalidAccountOwner);
        }
        if a.executable {
            return Err(Piv1Error::ExecutableAccount);
        }
        if !a.is_writable {
            return Err(Piv1Error::AccountNotWritable);
        }
        let floor = rent.state(w.before.identity.kind())?;
        native_funding(a, floor)?;
        i = i + 1;
    }
    let mut i: usize = 0;
    while i < n
        invariant
            i <= n,
            n == writes@.len(),
            accounts@ == old(accounts)@,
            spec_data(writes@, accounts@, 0) == spec_data(writes@, accounts@, i as int),
        decreases n - i,
    {
        let w = &writes[i];
        let data = match &accounts[i].data {
            None => return Err(Piv1Error::AccountBorrowFailed),
            Some(d) => d,
        };
        let before = w.before.as_bytes();
        let after = w.after.as_bytes();
        if data.len() != before.len() || data.len() != after.len() {
            return Err(Piv1Error::InvalidAccountSize);
        }
        let mut k: usize = 0;
        while k < data.len()
            invariant
                k <= data@.len(),
                data@.len() == before@.len(),
                forall|m: int| 0 <= m < k ==> data@[m] == before@[m],
            decreases data@.len() - k,
        {
            if data[k] != before[k] {
                assert(data@[k as int] != before@[k as int]);
                return Err(Piv1Error::StateEnvelopeChanged);
            }
            k = k + 1;
        }
        assert(data@ =~= before@);
        i = i + 1;
    }
    let mut i: usize = 0;
    while i < n
        invariant
            i <= n,
            n == writes@.len(),
            accounts@.len() == n,
            forall|k: int| 0 <= k < i ==> replaced_data(old(accounts)@[k], #[trigger] accounts@[k], writes@[k]@.after.bytes),
            forall|k: int| i <= k < n ==> #[trigger] accounts@[k] == old(accounts)@[k],
        decreases n - i,
    {
        let a = &accounts[i];
        let view = AccountView {
            key: a.key,
            owner: a.owner,
            executable: a.executable,
            is_signer: a.is_signer,
            is_writable: a.is_writable,
            lamports: a.lamports,
            data: Some(slice_to_vec(writes[i].after.as_bytes())),
        };
        accounts.set(i, view);
        i = i + 1;
    }
    Ok(())
}

} // verus!
