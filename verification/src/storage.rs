//! The records of the contract as a whole, and what holds of them from one
//! message to the next.

use cosmwasm_std::StdError;
use vstd::prelude::*;

use crate::contract::{
    answered, config_of, config_updated, cw20_whitelisted, executed, first_at, guardian_added,
    instantiated, registered, without_first, ExecutionView,
};
use crate::error::ContractError;
use crate::types::{
    AddrInputView, ConfigView, DepsView, EnvView, ExecuteMsgView, GuardianView,
    InstantiateMsgView, OutcomeView, QueryMsgView, QueryResponseView, WriteView,
};

verus! {

/// Everything that the contract keeps.
#[verifier::ext_equal]
pub struct Storage {
    pub config: Option<ConfigView>,
    pub state: Option<Seq<Seq<char>>>,
    pub borrowers: Map<Seq<char>, Seq<GuardianView>>,
}

/// Whether no two guardians are for the same token.
pub open spec fn distinct(guardians: Seq<GuardianView>) -> bool {
    forall|i: int, j: int|
        0 <= i < j < guardians.len() ==> (#[trigger] guardians[i]).address != (
        #[trigger] guardians[j]).address
}

/// Whether the token of every guardian is in the list.
pub open spec fn all_listed(guardians: Seq<GuardianView>, list: Seq<Seq<char>>) -> bool {
    forall|i: int|
        0 <= i < guardians.len() ==> list.contains((#[trigger] guardians[i]).address)
}

impl Storage {
    /// Storage before the contract is created.
    pub open spec fn fresh() -> Storage {
        Storage { config: None, state: None, borrowers: Map::empty() }
    }

    /// Storage after one write.
    pub open spec fn write(self, write: WriteView) -> Storage {
        match write {
            WriteView::Config(config) => Storage { config: Some(config), ..self },
            WriteView::State(state) => Storage { state: Some(state), ..self },
            WriteView::Borrower { key, borrower } => Storage {
                borrowers: self.borrowers.insert(key, borrower),
                ..self
            },
        }
    }

    /// Storage after a list of writes, first to last.
    pub open spec fn write_all(self, writes: Seq<WriteView>) -> Storage
        decreases writes.len(),
    {
        if writes.len() == 0 {
            self
        } else {
            self.write_all(writes.drop_last()).write(writes.last())
        }
    }

    /// Whether loading the settings, the whitelist and the record of `key`
    /// gives `deps`: a record that is there is loaded, and one that is not is
    /// an error.
    pub open spec fn loads(self, key: Seq<char>, deps: DepsView) -> bool {
        &&& match deps.config {
            Ok(config) => self.config == Some(config),
            Err(_) => self.config is None,
        }
        &&& match deps.state {
            Ok(state) => self.state == Some(state),
            Err(_) => self.state is None,
        }
        &&& match deps.borrower {
            Ok(borrower) => self.borrowers.contains_key(key) && self.borrowers[key] == borrower,
            Err(_) => !self.borrowers.contains_key(key),
        }
    }

    /// Storage after a message. One that is refused changes nothing, nor does
    /// a liquidation.
    pub open spec fn after(
        self,
        deps: DepsView,
        env: EnvView,
        sender: Seq<char>,
        msg: ExecuteMsgView,
    ) -> Storage {
        match executed(deps, env, sender, msg) {
            Ok(ExecutionView::Finished(outcome)) => self.write_all(outcome.writes),
            _ => self,
        }
    }

    /// What holds of the records at all times: no token is whitelisted twice,
    /// no borrower has two guardians for one token, and the token of every
    /// guardian is whitelisted.
    pub open spec fn sound(self) -> bool {
        &&& self.state matches Some(list) ==> list.no_duplicates()
        &&& forall|key: Seq<char>| #[trigger]
            self.borrowers.contains_key(key) ==> {
                &&& distinct(self.borrowers[key])
                &&& self.state matches Some(list) && all_listed(self.borrowers[key], list)
            }
    }
}

/// A list of one write.
proof fn lemma_single_write(storage: Storage, write: WriteView)
    ensures
        storage.write_all(seq![write]) == storage.write(write),
{
    reveal_with_fuel(Storage::write_all, 2);
    assert(seq![write].drop_last() =~= Seq::empty());
}

/// A message writes one record, or none.
proof fn lemma_writes_short(
    storage: Storage,
    deps: DepsView,
    env: EnvView,
    sender: Seq<char>,
    msg: ExecuteMsgView,
)
    ensures
        executed(deps, env, sender, msg) matches Ok(ExecutionView::Finished(outcome)) ==> if
            outcome.writes.len() == 0 {
            storage.after(deps, env, sender, msg) == storage
        } else {
            &&& outcome.writes == seq![outcome.writes[0]]
            &&& storage.after(deps, env, sender, msg) == storage.write(outcome.writes[0])
        },
{
    match executed(deps, env, sender, msg) {
        Ok(ExecutionView::Finished(outcome)) => {
            if outcome.writes.len() > 0 {
                assert(outcome.writes =~= seq![outcome.writes[0]]);
                lemma_single_write(storage, outcome.writes[0]);
            } else {
                assert(outcome.writes =~= Seq::empty());
            }
        },
        _ => {},
    }
}

/// With one guardian per token, registering drops all that are for the same
/// token and keeps the others in their order.
pub proof fn registering_replaces(guardians: Seq<GuardianView>, guardian: GuardianView)
    requires
        distinct(guardians),
    ensures
        registered(guardians, guardian) == guardians.filter(
            |g: GuardianView| g.address != guardian.address,
        ).push(guardian),
        distinct(registered(guardians, guardian)),
{
    lemma_without_first(guardians, guardian.address);
    let kept = without_first(guardians, guardian.address);
    assert forall|i: int, j: int|
        0 <= i < j < registered(guardians, guardian).len() implies (
    #[trigger] registered(guardians, guardian)[i]).address != (
    #[trigger] registered(guardians, guardian)[j]).address by {
        if j < kept.len() {
            assert(kept[i].address != kept[j].address);
        } else {
            assert(kept[i].address != guardian.address);
        }
    }
}

/// Dropping the first guardian for a token, where no token has two.
proof fn lemma_without_first(guardians: Seq<GuardianView>, address: Seq<char>)
    requires
        distinct(guardians),
    ensures
        without_first(guardians, address) == guardians.filter(
            |g: GuardianView| g.address != address,
        ),
        distinct(without_first(guardians, address)),
        forall|i: int|
            0 <= i < without_first(guardians, address).len() ==> (
            #[trigger] without_first(guardians, address)[i]).address != address
                && guardians.contains(without_first(guardians, address)[i]),
    decreases guardians.len(),
{
    let other = |g: GuardianView| g.address != address;
    let kept = without_first(guardians, address);
    reveal(Seq::filter);
    if exists|i: int| first_at(guardians, address, i) {
        let k = choose|i: int| first_at(guardians, address, i);
        assert forall|i: int| 0 <= i < kept.len() implies (#[trigger] kept[i]).address != address
            && guardians.contains(kept[i]) by {
            let from: int = if i < k { i } else { i + 1 };
            assert(kept[i] == guardians[from]);
        }
        assert forall|i: int, j: int| 0 <= i < j < kept.len() implies (#[trigger] kept[i]).address
            != (#[trigger] kept[j]).address by {
            let a: int = if i < k { i } else { i + 1 };
            let b: int = if j < k { j } else { j + 1 };
            assert(kept[i] == guardians[a] && kept[j] == guardians[b]);
        }
        let rest = guardians.drop_last();
        if k == guardians.len() - 1 {
            assert(kept =~= rest);
            assert(!other(guardians.last()));
            lemma_filter_keeps_all(rest, address);
        } else {
            assert(first_at(rest, address, k)) by {
                assert forall|j: int| 0 <= j < k implies (#[trigger] rest[j]).address
                    != address by {
                    assert(rest[j] == guardians[j]);
                }
            }
            assert forall|i: int, j: int| 0 <= i < j < rest.len() implies (
            #[trigger] rest[i]).address != (#[trigger] rest[j]).address by {
                assert(rest[i] == guardians[i] && rest[j] == guardians[j]);
            }
            lemma_without_first(rest, address);
            let m = choose|i: int| first_at(rest, address, i);
            assert(m == k) by {
                assert(rest[m].address == rest[k].address);
            }
            assert(guardians[k].address != guardians.last().address);
            assert(other(guardians.last()));
            assert(kept =~= rest.remove(k).push(guardians.last()));
        }
    } else {
        assert forall|i: int| 0 <= i < guardians.len() implies (#[trigger] guardians[i]).address
            != address by {
            if guardians[i].address == address {
                lemma_some_first(guardians, address, i);
            }
        }
        lemma_filter_keeps_all(guardians, address);
    }
}

/// Where there is a guardian for a token, there is a first one.
proof fn lemma_some_first(guardians: Seq<GuardianView>, address: Seq<char>, i: int)
    requires
        0 <= i < guardians.len(),
        guardians[i].address == address,
    ensures
        exists|k: int| first_at(guardians, address, k),
    decreases i,
{
    if exists|j: int| 0 <= j < i && (#[trigger] guardians[j]).address == address {
        let j = choose|j: int| 0 <= j < i && (#[trigger] guardians[j]).address == address;
        lemma_some_first(guardians, address, j);
    } else {
        assert(first_at(guardians, address, i));
    }
}

proof fn lemma_filter_keeps_all(guardians: Seq<GuardianView>, address: Seq<char>)
    requires
        forall|i: int|
            0 <= i < guardians.len() ==> (#[trigger] guardians[i]).address != address,
    ensures
        guardians.filter(|g: GuardianView| g.address != address) == guardians,
    decreases guardians.len(),
{
    reveal(Seq::filter);
    if guardians.len() > 0 {
        let rest = guardians.drop_last();
        assert forall|i: int| 0 <= i < rest.len() implies (#[trigger] rest[i]).address
            != address by {
            assert(rest[i] == guardians[i]);
        }
        lemma_filter_keeps_all(rest, address);
        assert(guardians[guardians.len() - 1].address != address);
        assert(rest.push(guardians.last()) =~= guardians);
    } else {
        assert(guardians.filter(|g: GuardianView| g.address != address) =~= guardians);
    }
}

// ---------------------------------------------------------------------------
// Laws.

/// A contract that was just created reports the settings it was created with,
/// its records are sound, and no guardian is accepted yet.
pub proof fn creation_takes_effect(
    msg: InstantiateMsgView,
    deps: DepsView,
    sender: Seq<char>,
    cw20_address: AddrInputView,
    pair_address: AddrInputView,
)
    requires
        instantiated(msg) is Ok,
        Storage::fresh().write_all(instantiated(msg)->Ok_0.writes).loads(sender, deps),
    ensures
        Storage::fresh().write_all(instantiated(msg)->Ok_0.writes).sound(),
        answered(deps, QueryMsgView::Config) == Ok::<QueryResponseView, ContractError>(
            QueryResponseView::Config(
                ConfigView {
                    owner: msg.owner.validated->Ok_0,
                    anchor_market_contract: msg.anchor_market_contract.validated->Ok_0,
                    anchor_overseer_contract: msg.anchor_overseer_contract.validated->Ok_0,
                    anchor_liquidation_contract: msg.anchor_liquidation_contract.validated->Ok_0,
                    anchor_oracle_contract: msg.anchor_oracle_contract.validated->Ok_0,
                    liquidator_fee: msg.liquidator_fee,
                },
            ),
        ),
        cw20_address.validated is Ok && pair_address.validated is Ok ==> guardian_added(
            deps.state,
            deps.borrower,
            sender,
            cw20_address,
            pair_address,
        ) == Err::<OutcomeView, ContractError>(ContractError::Unauthorized),
{
    let writes = instantiated(msg)->Ok_0.writes;
    reveal_with_fuel(Storage::write_all, 3);
    assert(writes.drop_last() =~= seq![writes[0]]);
    assert(seq![writes[0]].drop_last() =~= Seq::empty());
    assert(deps.state == Ok::<Seq<Seq<char>>, StdError>(Seq::empty()));
}

/// Every message keeps the records sound.
pub proof fn messages_keep_sound(
    storage: Storage,
    deps: DepsView,
    env: EnvView,
    sender: Seq<char>,
    msg: ExecuteMsgView,
)
    requires
        storage.sound(),
        storage.loads(sender, deps),
    ensures
        storage.after(deps, env, sender, msg).sound(),
{
    let after = storage.after(deps, env, sender, msg);
    match executed(deps, env, sender, msg) {
        Ok(ExecutionView::Finished(outcome)) => {
            if outcome.writes.len() > 0 {
                let write = outcome.writes[0];
                assert(outcome.writes =~= seq![write]);
                lemma_single_write(storage, write);
                match write {
                    WriteView::Config(_) => {},
                    WriteView::State(list) => {
                        let before = storage.state->0;
                        assert(list.drop_last() =~= before);
                        assert(list.no_duplicates());
                        assert forall|key: Seq<char>| #[trigger]
                            after.borrowers.contains_key(key) implies {
                            &&& distinct(after.borrowers[key])
                            &&& after.state matches Some(l) && all_listed(after.borrowers[key], l)
                        } by {
                            assert(storage.borrowers.contains_key(key));
                            let guardians = storage.borrowers[key];
                            assert forall|i: int| 0 <= i < guardians.len() implies list.contains(
                                (#[trigger] guardians[i]).address,
                            ) by {
                                let k = before.index_of(guardians[i].address);
                                assert(before.contains(guardians[i].address));
                                assert(list[k] == guardians[i].address);
                            }
                        }
                    },
                    WriteView::Borrower { key, borrower } => {
                        let list = storage.state->0;
                        let guardian = borrower.last();
                        let before = match deps.borrower {
                            Ok(guardians) => guardians,
                            Err(_) => Seq::empty(),
                        };
                        assert(borrower == registered(before, guardian));
                        assert(distinct(before));
                        assert(all_listed(before, list));
                        registering_replaces(before, guardian);
                        lemma_without_first(before, guardian.address);
                        let kept = without_first(before, guardian.address);
                        assert forall|i: int| 0 <= i < borrower.len() implies list.contains(
                            (#[trigger] borrower[i]).address,
                        ) by {
                            if i < kept.len() {
                                let j = before.index_of(kept[i]);
                                assert(before.contains(kept[i]));
                                assert(before[j] == borrower[i]);
                            }
                        }
                    },
                }
            } else {
                assert(outcome.writes =~= Seq::empty());
            }
        },
        _ => {},
    }
}

/// A message that is refused writes nothing, and neither does a liquidation.
pub proof fn refusals_and_liquidations_write_nothing(
    storage: Storage,
    deps: DepsView,
    env: EnvView,
    sender: Seq<char>,
    msg: ExecuteMsgView,
)
    requires
        executed(deps, env, sender, msg) is Err || msg is LiquidateCollateral,
    ensures
        storage.after(deps, env, sender, msg) == storage,
{
}

/// Only the owner changes the settings or the whitelist.
pub proof fn only_the_owner_governs(
    storage: Storage,
    deps: DepsView,
    env: EnvView,
    sender: Seq<char>,
    msg: ExecuteMsgView,
)
    requires
        storage.loads(sender, deps),
        storage.config matches Some(config) ==> config.owner != sender,
    ensures
        storage.after(deps, env, sender, msg).config == storage.config,
        storage.after(deps, env, sender, msg).state == storage.state,
        msg is UpdateConfig || msg is WhitelistCw20 ==> executed(deps, env, sender, msg) is Err,
        (msg is UpdateConfig || msg is WhitelistCw20) && storage.config is Some ==> executed(
            deps,
            env,
            sender,
            msg,
        ) == Err::<ExecutionView, ContractError>(ContractError::Unauthorized),
{
    lemma_writes_short(storage, deps, env, sender, msg);
}

/// Nobody changes the guardians of another borrower.
pub proof fn guardians_are_ones_own(
    storage: Storage,
    deps: DepsView,
    env: EnvView,
    sender: Seq<char>,
    msg: ExecuteMsgView,
    other: Seq<char>,
)
    requires
        other != sender,
    ensures
        storage.after(deps, env, sender, msg).borrowers.contains_key(other)
            == storage.borrowers.contains_key(other),
        storage.borrowers.contains_key(other) ==> storage.after(
            deps,
            env,
            sender,
            msg,
        ).borrowers[other] == storage.borrowers[other],
{
    lemma_writes_short(storage, deps, env, sender, msg);
}

/// A token that is whitelisted stays so, in its place.
pub proof fn whitelist_only_grows(
    storage: Storage,
    deps: DepsView,
    env: EnvView,
    sender: Seq<char>,
    msg: ExecuteMsgView,
)
    requires
        storage.loads(sender, deps),
        storage.state is Some,
    ensures
        storage.after(deps, env, sender, msg).state matches Some(list)
            && storage.state->0.is_prefix_of(list),
{
    lemma_writes_short(storage, deps, env, sender, msg);
}

/// Once a token was put on the whitelist it is there, putting it there again
/// writes nothing, and everybody may register it as a guardian with any valid
/// pool.
pub proof fn whitelisting_admits(
    storage: Storage,
    deps: DepsView,
    env: EnvView,
    sender: Seq<char>,
    token: AddrInputView,
    deps_after: DepsView,
    borrower: Seq<char>,
    pair_address: AddrInputView,
)
    requires
        storage.loads(sender, deps),
        executed(deps, env, sender, ExecuteMsgView::WhitelistCw20 { address: token }) is Ok,
        storage.after(
            deps,
            env,
            sender,
            ExecuteMsgView::WhitelistCw20 { address: token },
        ).loads(borrower, deps_after),
    ensures
        deps_after.state matches Ok(list) && list.contains(token.validated->Ok_0),
        cw20_whitelisted(deps_after.config, deps_after.state, sender, token) matches Ok(outcome)
            && outcome.writes == Seq::<WriteView>::empty(),
        pair_address.validated is Ok ==> guardian_added(
            deps_after.state,
            deps_after.borrower,
            borrower,
            token,
            pair_address,
        ) is Ok,
{
    let msg = ExecuteMsgView::WhitelistCw20 { address: token };
    lemma_writes_short(storage, deps, env, sender, msg);
    let before = storage.state->0;
    let address = token.validated->Ok_0;
    if !before.contains(address) {
        assert(before.push(address).last() == address);
    }
}

/// A guardian that was registered is the last one that a query for the
/// borrower reports.
pub proof fn registration_is_reported(
    storage: Storage,
    deps: DepsView,
    env: EnvView,
    sender: Seq<char>,
    cw20_address: AddrInputView,
    pair_address: AddrInputView,
    deps_after: DepsView,
    address: AddrInputView,
)
    requires
        storage.loads(sender, deps),
        executed(
            deps,
            env,
            sender,
            ExecuteMsgView::AddGuardian { cw20_address, pair_address },
        ) is Ok,
        storage.after(
            deps,
            env,
            sender,
            ExecuteMsgView::AddGuardian { cw20_address, pair_address },
        ).loads(sender, deps_after),
        address.validated is Ok,
        address.validated->Ok_0 == sender,
    ensures
        answered(deps_after, QueryMsgView::Guardians { address }) matches Ok(
            QueryResponseView::Guardians(guardians),
        ) && guardians.len() > 0 && guardians.last() == (GuardianView {
            address: cw20_address.validated->Ok_0,
            pair_address: pair_address.validated->Ok_0,
        }),
{
    let msg = ExecuteMsgView::AddGuardian { cw20_address, pair_address };
    lemma_writes_short(storage, deps, env, sender, msg);
}

/// Registering a guardian again right away changes nothing.
pub proof fn registration_is_idempotent(
    storage: Storage,
    deps: DepsView,
    env: EnvView,
    sender: Seq<char>,
    cw20_address: AddrInputView,
    pair_address: AddrInputView,
    deps_after: DepsView,
)
    requires
        storage.sound(),
        storage.loads(sender, deps),
        executed(
            deps,
            env,
            sender,
            ExecuteMsgView::AddGuardian { cw20_address, pair_address },
        ) is Ok,
        storage.after(
            deps,
            env,
            sender,
            ExecuteMsgView::AddGuardian { cw20_address, pair_address },
        ).loads(sender, deps_after),
    ensures
        storage.after(
            deps,
            env,
            sender,
            ExecuteMsgView::AddGuardian { cw20_address, pair_address },
        ).after(
            deps_after,
            env,
            sender,
            ExecuteMsgView::AddGuardian { cw20_address, pair_address },
        ) == storage.after(
            deps,
            env,
            sender,
            ExecuteMsgView::AddGuardian { cw20_address, pair_address },
        ),
{
    let msg = ExecuteMsgView::AddGuardian { cw20_address, pair_address };
    let guardian = GuardianView {
        address: cw20_address.validated->Ok_0,
        pair_address: pair_address.validated->Ok_0,
    };
    lemma_writes_short(storage, deps, env, sender, msg);
    let before = match deps.borrower {
        Ok(guardians) => guardians,
        Err(_) => Seq::empty(),
    };
    assert(distinct(before));
    let once = registered(before, guardian);
    let after = storage.after(deps, env, sender, msg);
    assert(deps_after.borrower == Ok::<Seq<GuardianView>, StdError>(once));
    registering_replaces(before, guardian);
    lemma_without_first(before, guardian.address);
    registering_replaces(once, guardian);
    let other = |g: GuardianView| g.address != guardian.address;
    let kept = without_first(before, guardian.address);
    assert(registered(once, guardian) == once) by {
        reveal(Seq::filter);
        assert(once.drop_last() =~= kept);
        assert(!other(once.last()));
        lemma_filter_keeps_all(kept, guardian.address);
    }
    assert(deps_after.state == deps.state);
    lemma_writes_short(after, deps_after, env, sender, msg);
    assert(after.borrowers.insert(sender, once) =~= after.borrowers);
    assert(after.after(deps_after, env, sender, msg) =~= after);
}

/// After the owner hands the contract over, only the owner has changed, the
/// new owner governs, and the old one, if it is another, is refused.
pub proof fn ownership_is_handed_over(
    storage: Storage,
    deps: DepsView,
    env: EnvView,
    sender: Seq<char>,
    owner: AddrInputView,
    deps_after: DepsView,
    key: Seq<char>,
    next: AddrInputView,
)
    requires
        storage.loads(sender, deps),
        executed(deps, env, sender, ExecuteMsgView::UpdateConfig { owner }) is Ok,
        storage.after(deps, env, sender, ExecuteMsgView::UpdateConfig { owner }).loads(
            key,
            deps_after,
        ),
    ensures
        config_of(deps_after.config) == Ok::<ConfigView, ContractError>(
            ConfigView { owner: owner.validated->Ok_0, ..storage.config->0 },
        ),
        next.validated is Ok ==> config_updated(
            deps_after.config,
            owner.validated->Ok_0,
            next,
        ) is Ok,
        sender != owner.validated->Ok_0 ==> config_updated(deps_after.config, sender, next)
            == Err::<OutcomeView, ContractError>(ContractError::Unauthorized),
{
    lemma_writes_short(storage, deps, env, sender, ExecuteMsgView::UpdateConfig { owner });
}

} // verus!
