//! How the contract conducts itself: when each message is granted and when it
//! is refused, and what it leaves behind.

use cosmwasm_std::StdError;
use vstd::prelude::*;

use crate::contract::{
    answered, config_of, config_updated, cw20_whitelisted, executed, first_at, guardian_added,
    guardians_of, instantiated, liquidation_begun, without_first, ExecutionView,
};
use crate::error::ContractError;
use crate::liquidation::{LiquidationView, TaskView};
use crate::storage::Storage;
use crate::types::{
    AddrInputView, ConfigView, DepsView, EnvView, ExecuteMsgView, GuardianView,
    InstantiateMsgView, OutcomeView, QueryMsgView, QueryResponseView, WriteView,
};

verus! {

// ---------------------------------------------------------------------------
// Creation.

/// With five valid addresses the contract is created: whatever lay in storage,
/// the whitelist is then empty, the settings are those of the message, the
/// records of the borrowers are untouched, and the answer is empty.
pub proof fn valid_creation_succeeds(msg: InstantiateMsgView, storage: Storage)
    requires
        msg.owner.validated is Ok,
        msg.anchor_market_contract.validated is Ok,
        msg.anchor_overseer_contract.validated is Ok,
        msg.anchor_liquidation_contract.validated is Ok,
        msg.anchor_oracle_contract.validated is Ok,
    ensures
        instantiated(msg) matches Ok(outcome) && {
            let after = storage.write_all(outcome.writes);
            &&& outcome.response.attributes.len() == 0
            &&& outcome.response.messages.len() == 0
            &&& outcome.writes.len() == 2
            &&& outcome.writes[0] is State
            &&& after.state matches Some(list) && list.len() == 0
            &&& after.borrowers == storage.borrowers
            &&& after.config matches Some(config) && {
                &&& msg.owner.validated == Ok::<Seq<char>, StdError>(config.owner)
                &&& msg.anchor_market_contract.validated == Ok::<Seq<char>, StdError>(
                    config.anchor_market_contract,
                )
                &&& msg.anchor_overseer_contract.validated == Ok::<Seq<char>, StdError>(
                    config.anchor_overseer_contract,
                )
                &&& msg.anchor_liquidation_contract.validated == Ok::<Seq<char>, StdError>(
                    config.anchor_liquidation_contract,
                )
                &&& msg.anchor_oracle_contract.validated == Ok::<Seq<char>, StdError>(
                    config.anchor_oracle_contract,
                )
                &&& config.liquidator_fee == msg.liquidator_fee
            }
        },
{
    let writes = instantiated(msg)->Ok_0.writes;
    reveal_with_fuel(Storage::write_all, 3);
    assert(writes.drop_last() =~= seq![writes[0]]);
    assert(seq![writes[0]].drop_last() =~= Seq::empty());
}

/// Creation fails with the error of the first address that is not valid.
pub proof fn creation_reports_the_first_bad_address(msg: InstantiateMsgView, e: StdError)
    requires
        ({
            let bad = Err::<Seq<char>, StdError>(e);
            ||| msg.owner.validated == bad
            ||| msg.owner.validated is Ok && msg.anchor_market_contract.validated == bad
            ||| msg.owner.validated is Ok && msg.anchor_market_contract.validated is Ok
                && msg.anchor_overseer_contract.validated == bad
            ||| msg.owner.validated is Ok && msg.anchor_market_contract.validated is Ok
                && msg.anchor_overseer_contract.validated is Ok
                && msg.anchor_liquidation_contract.validated == bad
            ||| msg.owner.validated is Ok && msg.anchor_market_contract.validated is Ok
                && msg.anchor_overseer_contract.validated is Ok
                && msg.anchor_liquidation_contract.validated is Ok
                && msg.anchor_oracle_contract.validated == bad
        }),
    ensures
        instantiated(msg) == Err::<OutcomeView, ContractError>(ContractError::Std(e)),
{
}

// ---------------------------------------------------------------------------
// Each message on its own.

/// Handing the contract over needs the settings, the owner as sender and a
/// valid address, and is refused for the first of these that is wanting. It
/// writes the settings with the new owner, all else as it was, and says so.
pub proof fn handing_over(
    config: Result<ConfigView, StdError>,
    sender: Seq<char>,
    owner: AddrInputView,
)
    ensures
        config matches Err(e) ==> config_updated(config, sender, owner) == Err::<
            OutcomeView,
            ContractError,
        >(ContractError::Std(e)),
        config is Ok && config->Ok_0.owner != sender ==> config_updated(
            config,
            sender,
            owner,
        ) == Err::<OutcomeView, ContractError>(ContractError::Unauthorized),
        config is Ok && config->Ok_0.owner == sender && owner.validated is Err
            ==> config_updated(config, sender, owner) == Err::<OutcomeView, ContractError>(
            ContractError::Std(owner.validated->Err_0),
        ),
        config is Ok && config->Ok_0.owner == sender && owner.validated is Ok ==> {
            &&& config_updated(config, sender, owner) matches Ok(outcome)
            &&& outcome.writes.len() == 1
            &&& outcome.writes[0] matches WriteView::Config(next)
            &&& next.owner == owner.validated->Ok_0
            &&& next.anchor_market_contract == config->Ok_0.anchor_market_contract
            &&& next.anchor_overseer_contract == config->Ok_0.anchor_overseer_contract
            &&& next.anchor_liquidation_contract == config->Ok_0.anchor_liquidation_contract
            &&& next.anchor_oracle_contract == config->Ok_0.anchor_oracle_contract
            &&& next.liquidator_fee == config->Ok_0.liquidator_fee
            &&& outcome.response.attributes == seq![("action"@, "update_config"@)]
            &&& outcome.response.messages.len() == 0
        },
{
}

/// Whitelisting needs the settings, the owner as sender, a valid address and
/// the whitelist, and is refused for the first of these that is wanting, and
/// for nothing else. A token that is not listed is appended to the list; for
/// one that is, nothing is written. Both are answered alike.
pub proof fn whitelisting(
    config: Result<ConfigView, StdError>,
    state: Result<Seq<Seq<char>>, StdError>,
    sender: Seq<char>,
    address: AddrInputView,
)
    ensures
        config matches Err(e) ==> cw20_whitelisted(config, state, sender, address) == Err::<
            OutcomeView,
            ContractError,
        >(ContractError::Std(e)),
        config is Ok && config->Ok_0.owner != sender ==> cw20_whitelisted(
            config,
            state,
            sender,
            address,
        ) == Err::<OutcomeView, ContractError>(ContractError::Unauthorized),
        config is Ok && config->Ok_0.owner == sender && address.validated is Err
            ==> cw20_whitelisted(config, state, sender, address) == Err::<
            OutcomeView,
            ContractError,
        >(ContractError::Std(address.validated->Err_0)),
        config is Ok && config->Ok_0.owner == sender && address.validated is Ok
            && state is Err ==> cw20_whitelisted(config, state, sender, address) == Err::<
            OutcomeView,
            ContractError,
        >(ContractError::Std(state->Err_0)),
        config is Ok && config->Ok_0.owner == sender && address.validated is Ok
            && state is Ok ==> {
            let list = state->Ok_0;
            let token = address.validated->Ok_0;
            &&& cw20_whitelisted(config, state, sender, address) matches Ok(outcome)
            &&& outcome.response.attributes == seq![("action"@, "whitelist_cw20"@)]
            &&& outcome.response.messages.len() == 0
            &&& (exists|i: int| 0 <= i < list.len() && list[i] == token)
                ==> outcome.writes.len() == 0
            &&& (forall|i: int| 0 <= i < list.len() ==> list[i] != token) ==> {
                &&& outcome.writes.len() == 1
                &&& outcome.writes[0] matches WriteView::State(next)
                &&& next.len() == list.len() + 1
                &&& forall|i: int| 0 <= i < list.len() ==> next[i] == list[i]
                &&& next.last() == token
            }
        },
{
}

/// Registering a guardian needs the whitelist and two valid addresses, and is
/// refused for the first of these that is wanting; and it needs the token to
/// be listed.
pub proof fn registering_is_refused(
    state: Result<Seq<Seq<char>>, StdError>,
    borrower: Result<Seq<GuardianView>, StdError>,
    sender: Seq<char>,
    cw20_address: AddrInputView,
    pair_address: AddrInputView,
)
    ensures
        state matches Err(e) ==> guardian_added(
            state,
            borrower,
            sender,
            cw20_address,
            pair_address,
        ) == Err::<OutcomeView, ContractError>(ContractError::Std(e)),
        state is Ok && cw20_address.validated is Err ==> guardian_added(
            state,
            borrower,
            sender,
            cw20_address,
            pair_address,
        ) == Err::<OutcomeView, ContractError>(
            ContractError::Std(cw20_address.validated->Err_0),
        ),
        state is Ok && cw20_address.validated is Ok && pair_address.validated is Err
            ==> guardian_added(state, borrower, sender, cw20_address, pair_address) == Err::<
            OutcomeView,
            ContractError,
        >(ContractError::Std(pair_address.validated->Err_0)),
        state is Ok && cw20_address.validated is Ok && pair_address.validated is Ok && (forall|
            i: int,
        |
            0 <= i < state->Ok_0.len() ==> state->Ok_0[i] != cw20_address.validated->Ok_0)
            ==> guardian_added(state, borrower, sender, cw20_address, pair_address) == Err::<
            OutcomeView,
            ContractError,
        >(ContractError::Unauthorized),
{
}

/// A listed token, at whatever place in the list, is registered for its sender
/// and nobody else: the guardian comes last, and the ones before it are those
/// that the record held, in their order; a record that cannot be loaded held
/// none. If `k` is the first of them that is for the same token, that one is
/// left out, and no other.
pub proof fn registering(
    state: Seq<Seq<char>>,
    at: int,
    borrower: Result<Seq<GuardianView>, StdError>,
    record: Seq<GuardianView>,
    sender: Seq<char>,
    cw20_address: AddrInputView,
    pair_address: AddrInputView,
    k: int,
)
    requires
        cw20_address.validated is Ok,
        pair_address.validated is Ok,
        0 <= at < state.len(),
        state[at] == cw20_address.validated->Ok_0,
        match borrower {
            Ok(list) => record == list,
            Err(_) => record.len() == 0,
        },
    ensures
        ({
            let token = cw20_address.validated->Ok_0;
            &&& guardian_added(Ok(state), borrower, sender, cw20_address, pair_address) matches Ok(
                outcome,
            )
            &&& outcome.response.attributes == seq![("action"@, "add_guardian"@)]
            &&& outcome.response.messages.len() == 0
            &&& outcome.writes.len() == 1
            &&& outcome.writes[0] matches WriteView::Borrower { key, borrower: list }
            &&& key == sender
            &&& list.len() > 0
            &&& list.last().address == token
            &&& list.last().pair_address == pair_address.validated->Ok_0
            &&& (forall|i: int|
                0 <= i < record.len() ==> (#[trigger] record[i]).address != token) ==> {
                &&& list.len() == record.len() + 1
                &&& forall|i: int| 0 <= i < record.len() ==> #[trigger] list[i] == record[i]
            }
            &&& (0 <= k < record.len() && record[k].address == token && forall|i: int|
                0 <= i < k ==> (#[trigger] record[i]).address != token) ==> {
                &&& list.len() == record.len()
                &&& forall|i: int| 0 <= i < k ==> #[trigger] list[i] == record[i]
                &&& forall|i: int|
                    k <= i < list.len() - 1 ==> #[trigger] list[i] == record[i + 1]
            }
        }),
{
    let token = cw20_address.validated->Ok_0;
    assert(state.contains(token));
    if record.len() == 0 {
        assert(record =~= Seq::empty());
    }
    if exists|i: int| first_at(record, token, i) {
        let m = choose|i: int| first_at(record, token, i);
        assert(without_first(record, token) == record.remove(m));
        if 0 <= k < record.len() && record[k].address == token && forall|i: int|
            0 <= i < k ==> (#[trigger] record[i]).address != token {
            assert(first_at(record, token, k));
            assert(record[m].address == token);
            assert(k == m);
        }
    } else if 0 <= k < record.len() && record[k].address == token && forall|i: int|
        0 <= i < k ==> (#[trigger] record[i]).address != token {
        assert(first_at(record, token, k));
    }
}

/// A liquidation begins where the settings can be loaded and the address is
/// valid, and fails with the first error otherwise. It is about the borrower
/// that was validated, keeps the address as it was passed in, and runs for the
/// sender under the settings.
pub proof fn liquidation_begins(
    config: Result<ConfigView, StdError>,
    env: EnvView,
    sender: Seq<char>,
    address: AddrInputView,
)
    ensures
        config matches Err(e) ==> liquidation_begun(config, env, sender, address) == Err::<
            LiquidationView,
            ContractError,
        >(ContractError::Std(e)),
        config is Ok && address.validated is Err ==> liquidation_begun(
            config,
            env,
            sender,
            address,
        ) == Err::<LiquidationView, ContractError>(
            ContractError::Std(address.validated->Err_0),
        ),
        config is Ok && address.validated is Ok ==> liquidation_begun(config, env, sender, address)
            == Ok::<LiquidationView, ContractError>(
            LiquidationView::Loan {
                task: TaskView {
                    env,
                    sender,
                    address: address.input,
                    borrower: address.validated->Ok_0,
                    config: config->Ok_0,
                },
            },
        ),
{
}

/// Each message gets what it asks for: its outcome, or its refusal, is that of
/// the one operation it names.
pub proof fn messages_reach_their_operation(
    deps: DepsView,
    env: EnvView,
    sender: Seq<char>,
    first: AddrInputView,
    second: AddrInputView,
    outcome: OutcomeView,
    liquidation: LiquidationView,
    e: ContractError,
)
    ensures
        ({
            let granted = Ok::<ExecutionView, ContractError>(ExecutionView::Finished(outcome));
            let begun = Ok::<ExecutionView, ContractError>(ExecutionView::Liquidating(liquidation));
            let refused = Err::<ExecutionView, ContractError>(e);
            let yes = Ok::<OutcomeView, ContractError>(outcome);
            let no = Err::<OutcomeView, ContractError>(e);
            let list = executed(
                deps,
                env,
                sender,
                ExecuteMsgView::WhitelistCw20 { address: first },
            );
            let hand = executed(deps, env, sender, ExecuteMsgView::UpdateConfig { owner: first });
            let register = executed(
                deps,
                env,
                sender,
                ExecuteMsgView::AddGuardian { cw20_address: first, pair_address: second },
            );
            let liquidate = executed(
                deps,
                env,
                sender,
                ExecuteMsgView::LiquidateCollateral { address: first },
            );
            &&& list == granted <==> cw20_whitelisted(deps.config, deps.state, sender, first) == yes
            &&& list == refused <==> cw20_whitelisted(deps.config, deps.state, sender, first) == no
            &&& hand == granted <==> config_updated(deps.config, sender, first) == yes
            &&& hand == refused <==> config_updated(deps.config, sender, first) == no
            &&& register == granted <==> guardian_added(
                deps.state,
                deps.borrower,
                sender,
                first,
                second,
            ) == yes
            &&& register == refused <==> guardian_added(
                deps.state,
                deps.borrower,
                sender,
                first,
                second,
            ) == no
            &&& liquidate == begun <==> liquidation_begun(deps.config, env, sender, first) == Ok::<
                LiquidationView,
                ContractError,
            >(liquidation)
            &&& liquidate == refused <==> liquidation_begun(deps.config, env, sender, first)
                == Err::<LiquidationView, ContractError>(e)
        }),
{
}

// ---------------------------------------------------------------------------
// Queries.

/// The guardians that are reported are those of the record, all of them, each
/// in its place; without a valid address or a record there is an error.
pub proof fn all_guardians_are_reported(
    borrower: Result<Seq<GuardianView>, StdError>,
    address: AddrInputView,
)
    ensures
        address.validated matches Err(e) ==> guardians_of(borrower, address) == Err::<
            Seq<GuardianView>,
            ContractError,
        >(ContractError::Std(e)),
        address.validated is Ok && borrower is Err ==> guardians_of(borrower, address) == Err::<
            Seq<GuardianView>,
            ContractError,
        >(ContractError::Std(borrower->Err_0)),
        address.validated is Ok && borrower is Ok ==> {
            let stored = borrower->Ok_0;
            &&& guardians_of(borrower, address) matches Ok(reported)
            &&& reported.len() == stored.len()
            &&& forall|i: int|
                0 <= i < stored.len() ==> (#[trigger] reported[i]).address == stored[i].address
                    && reported[i].pair_address == stored[i].pair_address
        },
{
}

/// The settings are reported as they are stored; where they cannot be loaded,
/// the error is.
pub proof fn settings_are_reported(config: Result<ConfigView, StdError>)
    ensures
        config matches Err(e) ==> config_of(config) == Err::<ConfigView, ContractError>(
            ContractError::Std(e),
        ),
        config matches Ok(stored) ==> {
            &&& config_of(config) matches Ok(reported)
            &&& reported.owner == stored.owner
            &&& reported.anchor_market_contract == stored.anchor_market_contract
            &&& reported.anchor_overseer_contract == stored.anchor_overseer_contract
            &&& reported.anchor_liquidation_contract == stored.anchor_liquidation_contract
            &&& reported.anchor_oracle_contract == stored.anchor_oracle_contract
            &&& reported.liquidator_fee == stored.liquidator_fee
        },
{
}

/// A query reads storage as it is: it reports the settings that are stored,
/// and for a valid address the list that is stored under it, or an error where
/// none is.
pub proof fn queries_read_storage(storage: Storage, deps: DepsView, address: AddrInputView)
    requires
        address.validated is Ok,
        storage.loads(address.validated->Ok_0, deps),
    ensures
        storage.config matches Some(config) ==> answered(deps, QueryMsgView::Config) == Ok::<
            QueryResponseView,
            ContractError,
        >(QueryResponseView::Config(config)),
        storage.config is None ==> answered(deps, QueryMsgView::Config) is Err,
        storage.borrowers.contains_key(address.validated->Ok_0) ==> answered(
            deps,
            QueryMsgView::Guardians { address },
        ) == Ok::<QueryResponseView, ContractError>(
            QueryResponseView::Guardians(storage.borrowers[address.validated->Ok_0]),
        ),
        !storage.borrowers.contains_key(address.validated->Ok_0) ==> answered(
            deps,
            QueryMsgView::Guardians { address },
        ) is Err,
{
}

/// A query that cannot be answered reports why: an address that is not valid
/// before a record that is not there.
pub proof fn queries_report_errors(deps: DepsView, address: AddrInputView, e: StdError)
    ensures
        deps.config == Err::<ConfigView, StdError>(e) ==> answered(deps, QueryMsgView::Config)
            == Err::<QueryResponseView, ContractError>(ContractError::Std(e)),
        address.validated == Err::<Seq<char>, StdError>(e) ==> answered(
            deps,
            QueryMsgView::Guardians { address },
        ) == Err::<QueryResponseView, ContractError>(ContractError::Std(e)),
        address.validated is Ok && deps.borrower == Err::<Seq<GuardianView>, StdError>(e)
            ==> answered(deps, QueryMsgView::Guardians { address }) == Err::<
            QueryResponseView,
            ContractError,
        >(ContractError::Std(e)),
{
}

// ---------------------------------------------------------------------------
// Storage from one message to the next.

/// The owner can always whitelist: where there are settings and a whitelist
/// and the address is valid, the message is granted, and the list afterwards
/// is the old one, with the token at its end if it was not there. Nothing else
/// in storage changes.
pub proof fn the_owner_can_whitelist(
    storage: Storage,
    deps: DepsView,
    env: EnvView,
    address: AddrInputView,
)
    requires
        storage.config is Some,
        storage.state is Some,
        storage.loads(storage.config->0.owner, deps),
        address.validated is Ok,
    ensures
        ({
            let sender = storage.config->0.owner;
            let msg = ExecuteMsgView::WhitelistCw20 { address };
            let token = address.validated->Ok_0;
            let list = storage.state->0;
            let after = storage.after(deps, env, sender, msg);
            &&& executed(deps, env, sender, msg) is Ok
            &&& after.state == Some(
                if list.contains(token) {
                    list
                } else {
                    list.push(token)
                },
            )
            &&& after.config == storage.config
            &&& after.borrowers == storage.borrowers
        }),
{
    let sender = storage.config->0.owner;
    let msg = ExecuteMsgView::WhitelistCw20 { address };
    lemma_after(storage, deps, env, sender, msg);
}

/// The owner can always hand the contract over to a valid address, and then
/// only the owner has changed.
pub proof fn the_owner_can_hand_over(
    storage: Storage,
    deps: DepsView,
    env: EnvView,
    owner: AddrInputView,
)
    requires
        storage.config is Some,
        storage.loads(storage.config->0.owner, deps),
        owner.validated is Ok,
    ensures
        ({
            let sender = storage.config->0.owner;
            let msg = ExecuteMsgView::UpdateConfig { owner };
            let after = storage.after(deps, env, sender, msg);
            &&& executed(deps, env, sender, msg) is Ok
            &&& after.config == Some(
                ConfigView { owner: owner.validated->Ok_0, ..storage.config->0 },
            )
            &&& after.state == storage.state
            &&& after.borrowers == storage.borrowers
        }),
{
    let sender = storage.config->0.owner;
    lemma_after(storage, deps, env, sender, ExecuteMsgView::UpdateConfig { owner });
}

/// Two registrations of one sender, one after another and for different
/// tokens, where none was registered before: a query then reports both, in
/// their order, and nothing else.
pub proof fn two_registrations_are_both_reported(
    storage: Storage,
    sender: Seq<char>,
    deps: DepsView,
    env: EnvView,
    token: AddrInputView,
    pool: AddrInputView,
    deps_between: DepsView,
    other_token: AddrInputView,
    other_pool: AddrInputView,
    deps_after: DepsView,
    address: AddrInputView,
)
    requires
        !storage.borrowers.contains_key(sender),
        storage.state is Some,
        token.validated is Ok,
        pool.validated is Ok,
        other_token.validated is Ok,
        other_pool.validated is Ok,
        storage.state->0.contains(token.validated->Ok_0),
        storage.state->0.contains(other_token.validated->Ok_0),
        token.validated->Ok_0 != other_token.validated->Ok_0,
        address.validated is Ok,
        address.validated->Ok_0 == sender,
        storage.loads(sender, deps),
        storage.after(
            deps,
            env,
            sender,
            ExecuteMsgView::AddGuardian { cw20_address: token, pair_address: pool },
        ).loads(sender, deps_between),
        storage.after(
            deps,
            env,
            sender,
            ExecuteMsgView::AddGuardian { cw20_address: token, pair_address: pool },
        ).after(
            deps_between,
            env,
            sender,
            ExecuteMsgView::AddGuardian { cw20_address: other_token, pair_address: other_pool },
        ).loads(sender, deps_after),
    ensures
        answered(deps_after, QueryMsgView::Guardians { address }) matches Ok(
            QueryResponseView::Guardians(list),
        ) && list.len() == 2 && list[0].address == token.validated->Ok_0 && list[0].pair_address
            == pool.validated->Ok_0 && list[1].address == other_token.validated->Ok_0
            && list[1].pair_address == other_pool.validated->Ok_0,
{
    let msg = ExecuteMsgView::AddGuardian { cw20_address: token, pair_address: pool };
    let next = ExecuteMsgView::AddGuardian { cw20_address: other_token, pair_address: other_pool };
    let list = storage.state->0;
    let i = list.index_of(token.validated->Ok_0);
    let j = list.index_of(other_token.validated->Ok_0);
    registering(list, i, deps.borrower, Seq::empty(), sender, token, pool, 0);
    lemma_after(storage, deps, env, sender, msg);
    let between = storage.after(deps, env, sender, msg);
    let once = between.borrowers[sender];
    registering(list, j, deps_between.borrower, once, sender, other_token, other_pool, 0);
    lemma_after(between, deps_between, env, sender, next);
}

/// A liquidation can be asked for by anybody, and by everybody alike: who
/// sends it decides only who is paid.
pub proof fn anybody_can_liquidate(
    storage: Storage,
    sender: Seq<char>,
    deps: DepsView,
    env: EnvView,
    address: AddrInputView,
)
    requires
        storage.config is Some,
        storage.loads(sender, deps),
        address.validated is Ok,
    ensures
        executed(deps, env, sender, ExecuteMsgView::LiquidateCollateral { address }) matches Ok(
            ExecutionView::Liquidating(LiquidationView::Loan { task }),
        ) && task.sender == sender && task.borrower == address.validated->Ok_0 && task.address
            == address.input && task.config == storage.config->0 && task.env == env,
{
}

/// What a message does to storage, where it writes one record or none.
proof fn lemma_after(
    storage: Storage,
    deps: DepsView,
    env: EnvView,
    sender: Seq<char>,
    msg: ExecuteMsgView,
)
    ensures
        executed(deps, env, sender, msg) matches Ok(ExecutionView::Finished(outcome)) ==> {
            let after = storage.after(deps, env, sender, msg);
            &&& outcome.writes.len() == 0 ==> after == storage
            &&& outcome.writes.len() == 1 ==> after == storage.write(outcome.writes[0])
        },
{
    match executed(deps, env, sender, msg) {
        Ok(ExecutionView::Finished(outcome)) => {
            if outcome.writes.len() == 1 {
                reveal_with_fuel(Storage::write_all, 2);
                assert(outcome.writes.drop_last() =~= Seq::empty());
            }
        },
        _ => {},
    }
}

} // verus!
