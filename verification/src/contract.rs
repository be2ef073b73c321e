//! The handlers: one that sets the contract up, one that assigns a score, and
//! the queries. Each is specified by what it does to the [`Ledger`] of the
//! storage that it is given.

use crate::error::ContractError;
use crate::msg::{
    ExecuteMsg, InstantiateMsg, MessageInfo, OwnerResponse, QueryMsg, QueryResponse,
    ScoreByTokenResponse, UserScoreResponse,
};
use crate::response::{add_attribute, new_response, response_attributes, response_extras};
use crate::state::{
    pairable, has_score, has_token_score, is_pairable, ledger, load_score, load_state,
    load_token_score, register_version, save_score, save_state, save_token_score, Ledger, State,
    SCORE_BY_ADDRESS, SCORE_BY_ADDRESS_AND_TOKEN, STATE,
};
use cosmwasm_std::{MemoryStorage, Response, StdError};
use vstd::prelude::*;

verus! {

/// The name under which the contract registers its version.
pub const CONTRACT_NAME: &'static str = "crates.io:simple-terra-dapp";

/// The version that the contract registers.
pub const CONTRACT_VERSION: &'static str = "0.1.0";

/// The score that a query reports where nothing is stored.
pub const NO_SCORE: i32 = i32::MIN;

/// What becomes of a command to set a score.
pub enum Verdict {
    /// The owner, or a stored score that the command needs, cannot be read.
    Unreadable,
    /// The sender is not the owner.
    Unauthorized,
    /// The new score of the address does not fit in an `i32`.
    OutOfRange,
    /// The command is carried out, and leaves this ledger.
    Applied(Ledger),
}

/// The aggregate score of an address once one of its tokens is given `score`.
/// Where the address and the pair both had a score, `existing` holds the two,
/// and the aggregate moves by as much as the score of the pair does; where
/// either was missing, the aggregate is `score` itself.
pub open spec fn new_aggregate(score: i32, existing: Option<(i32, i32)>) -> int {
    match existing {
        Some((aggregate, per_token)) => score + aggregate - per_token,
        None => score as int,
    }
}

/// Whether [`new_aggregate`] fits in an `i32`.
pub open spec fn new_aggregate_fits(score: i32, existing: Option<(i32, i32)>) -> bool {
    i32::MIN <= new_aggregate(score, existing) <= i32::MAX
}

impl Ledger {
    /// The ledger of a storage in which nothing was ever written.
    pub open spec fn empty() -> Ledger {
        Ledger { version: None, owner: None, scores: Map::empty(), token_scores: Map::empty() }
    }

    /// The ledger after [`instantiate`] by `sender`.
    pub open spec fn instantiate(self, sender: Seq<char>) -> Ledger {
        Ledger { version: Some((CONTRACT_NAME@, CONTRACT_VERSION@)), owner: Some(sender), ..self }
    }

    /// The entries of an address and of one of its pairs, where both are there.
    pub open spec fn existing(self, user: Seq<char>, token: Seq<char>) -> Option<
        (Option<i32>, Option<i32>),
    > {
        if self.scores.contains_key(user) && self.token_scores.contains_key((user, token)) {
            Some((self.scores[user], self.token_scores[(user, token)]))
        } else {
            None
        }
    }

    /// The ledger with `score` written for the pair and `aggregate` for the address.
    pub open spec fn record(
        self,
        user: Seq<char>,
        token: Seq<char>,
        score: i32,
        aggregate: i32,
    ) -> Ledger {
        Ledger {
            scores: self.scores.insert(user, Some(aggregate)),
            token_scores: self.token_scores.insert((user, token), Some(score)),
            ..self
        }
    }

    /// What [`try_set_score`] does on this ledger.
    pub open spec fn set_score(
        self,
        sender: Seq<char>,
        user: Seq<char>,
        token: Seq<char>,
        score: i32,
    ) -> Verdict {
        match self.owner {
            None => Verdict::Unreadable,
            Some(owner) => if sender != owner {
                Verdict::Unauthorized
            } else {
                match self.existing(user, token) {
                    None => Verdict::Applied(self.record(user, token, score, score)),
                    Some((Some(aggregate), Some(per_token))) => if new_aggregate_fits(
                        score,
                        Some((aggregate, per_token)),
                    ) {
                        Verdict::Applied(
                            self.record(
                                user,
                                token,
                                score,
                                new_aggregate(score, Some((aggregate, per_token))) as i32,
                            ),
                        )
                    } else {
                        Verdict::OutOfRange
                    },
                    Some(_) => Verdict::Unreadable,
                }
            },
        }
    }

    /// What [`get_score`] reads for an address: its score, [`NO_SCORE`] where
    /// it has none, `None` where its entry cannot be read.
    pub open spec fn score(self, address: Seq<char>) -> Option<i32> {
        if self.scores.contains_key(address) {
            self.scores[address]
        } else {
            Some(NO_SCORE)
        }
    }

    /// What [`get_score_for_token`] reads for a pair, in the same way.
    pub open spec fn token_score(self, user: Seq<char>, token: Seq<char>) -> Option<i32> {
        if self.token_scores.contains_key((user, token)) {
            self.token_scores[(user, token)]
        } else {
            Some(NO_SCORE)
        }
    }
}

/// The attributes of the response to [`instantiate`].
pub open spec fn instantiate_attributes(owner: Seq<char>) -> Seq<(Seq<char>, Seq<char>)> {
    seq![("method"@, "instantiate"@), ("owner"@, owner)]
}

/// The attributes of the response to a score that was set.
pub open spec fn set_score_attributes() -> Seq<(Seq<char>, Seq<char>)> {
    seq![("method"@, "set_score"@)]
}

/// How the result of [`try_set_score`] and the ledger that it leaves follow
/// from the verdict on the ledger that it found. No call is made where the
/// verdict is `OutOfRange`.
pub open spec fn set_score_outcome(
    verdict: Verdict,
    before: Ledger,
    result: Result<Response, ContractError>,
    after: Ledger,
) -> bool {
    match verdict {
        Verdict::Unreadable => result matches Err(ContractError::Std(_)) && after == before,
        Verdict::Unauthorized => result matches Err(ContractError::Unauthorized {}) && after
            == before,
        Verdict::OutOfRange => true,
        Verdict::Applied(next) => {
            &&& result matches Ok(response)
            &&& response_attributes(response) == set_score_attributes()
            &&& response_extras(response) == 0
            &&& after == next
        },
    }
}

/// What a command does on a ledger.
pub open spec fn verdict(ledger: Ledger, sender: Seq<char>, msg: ExecuteMsg) -> Verdict {
    match msg {
        ExecuteMsg::SetScore { user_address, token_address, score } => ledger.set_score(
            sender,
            user_address@,
            token_address@,
            score,
        ),
    }
}

/// Whether [`execute`] can be called: the address fits in a storage key, and
/// the score that the command leaves it fits in an `i32`.
pub open spec fn executable(ledger: Ledger, sender: Seq<char>, msg: ExecuteMsg) -> bool {
    match msg {
        ExecuteMsg::SetScore { user_address, token_address, score } => pairable(user_address@)
            && !(ledger.set_score(sender, user_address@, token_address@, score) is OutOfRange),
    }
}

/// Whether `result` is the answer to `GetOwner` on this ledger.
pub open spec fn answers_owner(ledger: Ledger, result: Result<OwnerResponse, StdError>) -> bool {
    match result {
        Ok(response) => ledger.owner == Some(response.owner@),
        Err(_) => ledger.owner is None,
    }
}

/// Whether `result` is the answer to `GetScore` for `address` on this ledger.
pub open spec fn answers_score(
    ledger: Ledger,
    address: Seq<char>,
    result: Result<UserScoreResponse, StdError>,
) -> bool {
    match result {
        Ok(response) => response.user_address@ == address && ledger.score(address) == Some(
            response.score,
        ),
        Err(_) => ledger.score(address) is None,
    }
}

/// Whether `result` is the answer to `GetScoreForToken` for the pair on this ledger.
pub open spec fn answers_token_score(
    ledger: Ledger,
    user: Seq<char>,
    token: Seq<char>,
    result: Result<ScoreByTokenResponse, StdError>,
) -> bool {
    match result {
        Ok(response) => {
            &&& response.user_address@ == user
            &&& response.token_address@ == token
            &&& ledger.token_score(user, token) == Some(response.score)
        },
        Err(_) => ledger.token_score(user, token) is None,
    }
}

/// Whether `result` is the answer to `msg` on this ledger.
pub open spec fn answers(
    ledger: Ledger,
    msg: QueryMsg,
    result: Result<QueryResponse, StdError>,
) -> bool {
    match msg {
        QueryMsg::GetOwner {  } => match result {
            Ok(QueryResponse::Owner(response)) => answers_owner(ledger, Ok(response)),
            Ok(_) => false,
            Err(e) => answers_owner(ledger, Err(e)),
        },
        QueryMsg::GetScore { address } => match result {
            Ok(QueryResponse::Score(response)) => answers_score(ledger, address@, Ok(response)),
            Ok(_) => false,
            Err(e) => answers_score(ledger, address@, Err(e)),
        },
        QueryMsg::GetScoreForToken { user_address, token_address } => match result {
            Ok(QueryResponse::ScoreForToken(response)) => answers_token_score(
                ledger,
                user_address@,
                token_address@,
                Ok(response),
            ),
            Ok(_) => false,
            Err(e) => answers_token_score(ledger, user_address@, token_address@, Err(e)),
        },
    }
}

/// Lets the owner through and nobody else.
pub fn authorize(state: &State, info: &MessageInfo) -> (allowed: Result<(), ContractError>)
    ensures
        info.sender@ == state.owner@ ==> allowed is Ok,
        info.sender@ != state.owner@ ==> allowed matches Err(ContractError::Unauthorized {  }),
{
    if info.sender == state.owner {
        Ok(())
    } else {
        Err(ContractError::Unauthorized {  })
    }
}

/// Tests [`new_aggregate_fits`].
pub fn aggregate_fits(score: i32, existing: Option<(i32, i32)>) -> (fits: bool)
    ensures
        fits == new_aggregate_fits(score, existing),
{
    match existing {
        Some((aggregate, per_token)) => {
            let sum: i64 = score as i64 + aggregate as i64 - per_token as i64;
            i32::MIN as i64 <= sum && sum <= i32::MAX as i64
        },
        None => true,
    }
}

/// Computes [`new_aggregate`].
pub fn aggregate_after(score: i32, existing: Option<(i32, i32)>) -> (sum: i32)
    requires
        new_aggregate_fits(score, existing),
    ensures
        sum == new_aggregate(score, existing),
{
    match existing {
        Some((aggregate, per_token)) => {
            let sum: i64 = score as i64 + aggregate as i64 - per_token as i64;
            sum as i32
        },
        None => score,
    }
}

/// The response to [`instantiate`]: the method and the owner, nothing else.
pub fn instantiate_response(owner: &str) -> (response: Response)
    ensures
        response_attributes(response) == instantiate_attributes(owner@),
        response_extras(response) == 0,
{
    proof {
        reveal_strlit("method");
        reveal_strlit("owner");
    }
    let response = add_attribute(new_response(), "method", "instantiate");
    add_attribute(response, "owner", owner)
}

/// The response to a score that was set: the method, nothing else.
pub fn set_score_response() -> (response: Response)
    ensures
        response_attributes(response) == set_score_attributes(),
        response_extras(response) == 0,
{
    proof {
        reveal_strlit("method");
    }
    add_attribute(new_response(), "method", "set_score")
}

/// Sets the contract up: registers its name and version, and makes the
/// sender the owner. The scores are left as they are.
pub fn instantiate(
    storage: &mut MemoryStorage,
    info: MessageInfo,
    _msg: InstantiateMsg,
) -> (result: Result<Response, ContractError>)
    ensures
        ledger(*final(storage)) == ledger(*old(storage)).instantiate(info.sender@),
        result matches Ok(response) && {
            &&& response_attributes(response) == instantiate_attributes(info.sender@)
            &&& response_extras(response) == 0
        },
{
    let state = State { owner: info.sender.clone() };
    match register_version(storage, CONTRACT_NAME, CONTRACT_VERSION) {
        Ok(()) => {},
        Err(e) => {
            return Err(ContractError::Std(e));
        },
    }
    match save_state(storage, STATE, &state) {
        Ok(()) => {},
        Err(e) => {
            return Err(ContractError::Std(e));
        },
    }
    Ok(instantiate_response(info.sender.as_str()))
}

/// Carries out a command.
pub fn execute(
    storage: &mut MemoryStorage,
    info: MessageInfo,
    msg: ExecuteMsg,
) -> (result: Result<Response, ContractError>)
    requires
        executable(ledger(*old(storage)), info.sender@, msg),
    ensures
        set_score_outcome(
            verdict(ledger(*old(storage)), info.sender@, msg),
            ledger(*old(storage)),
            result,
            ledger(*final(storage)),
        ),
        result is Err ==> *final(storage) == *old(storage),
{
    match msg {
        ExecuteMsg::SetScore { user_address, token_address, score } => try_set_score(
            storage,
            info,
            user_address,
            token_address,
            score,
        ),
    }
}

/// Reads what a command for the pair starts from: the aggregate score of
/// the address and the score of the pair where both have one, `None` where
/// either has none. Fails where both have one and one of them cannot be read.
pub fn existing_scores(storage: &MemoryStorage, user: &str, token: &str) -> (found: Result<
    Option<(i32, i32)>,
    StdError,
>)
    requires
        pairable(user@),
    ensures
        match found {
            Ok(Some((aggregate, per_token))) => ledger(*storage).existing(user@, token@) == Some(
                (Some(aggregate), Some(per_token)),
            ),
            Ok(None) => ledger(*storage).existing(user@, token@) is None,
            Err(_) => ledger(*storage).existing(user@, token@) matches Some((aggregate, per_token))
                && (aggregate is None || per_token is None),
        },
{
    if has_score(storage, SCORE_BY_ADDRESS, user) && has_token_score(
        storage,
        SCORE_BY_ADDRESS_AND_TOKEN,
        user,
        token,
    ) {
        let aggregate = match load_score(storage, SCORE_BY_ADDRESS, user) {
            Ok(aggregate) => aggregate,
            Err(e) => {
                return Err(e);
            },
        };
        let per_token = match load_token_score(storage, SCORE_BY_ADDRESS_AND_TOKEN, user, token) {
            Ok(per_token) => per_token,
            Err(e) => {
                return Err(e);
            },
        };
        Ok(Some((aggregate, per_token)))
    } else {
        Ok(None)
    }
}

/// Gives the token of an address a score, and moves the aggregate score of
/// the address with it. Only the owner may do so; for anyone else, and where a stored
/// value that is needed cannot be read, nothing is written.
pub fn try_set_score(
    storage: &mut MemoryStorage,
    info: MessageInfo,
    user_address: String,
    token_address: String,
    score: i32,
) -> (result: Result<Response, ContractError>)
    requires
        pairable(user_address@),
        !(ledger(*old(storage)).set_score(info.sender@, user_address@, token_address@, score)
            is OutOfRange),
    ensures
        set_score_outcome(
            ledger(*old(storage)).set_score(info.sender@, user_address@, token_address@, score),
            ledger(*old(storage)),
            result,
            ledger(*final(storage)),
        ),
        result is Err ==> *final(storage) == *old(storage),
{
    let state = match load_state(storage, STATE) {
        Ok(state) => state,
        Err(e) => {
            return Err(ContractError::Std(e));
        },
    };
    match authorize(&state, &info) {
        Ok(()) => {},
        Err(e) => {
            return Err(e);
        },
    }
    let user = user_address.as_str();
    let token = token_address.as_str();
    let existing = match existing_scores(storage, user, token) {
        Ok(existing) => existing,
        Err(e) => {
            return Err(ContractError::Std(e));
        },
    };
    let current_score = aggregate_after(score, existing);
    match save_token_score(storage, SCORE_BY_ADDRESS_AND_TOKEN, user, token, score) {
        Ok(()) => {},
        Err(e) => {
            return Err(ContractError::Std(e));
        },
    }
    match save_score(storage, SCORE_BY_ADDRESS, user, current_score) {
        Ok(()) => {},
        Err(e) => {
            return Err(ContractError::Std(e));
        },
    }
    Ok(set_score_response())
}

/// Tests [`executable`].
pub fn can_execute(storage: &MemoryStorage, info: &MessageInfo, msg: &ExecuteMsg) -> (can: bool)
    ensures
        can == executable(ledger(*storage), info.sender@, *msg),
{
    match msg {
        ExecuteMsg::SetScore { user_address, token_address, score } => {
            if !is_pairable(user_address.as_str()) {
                return false;
            }
            let state = match load_state(storage, STATE) {
                Ok(state) => state,
                Err(_) => {
                    return true;
                },
            };
            if authorize(&state, info).is_err() {
                return true;
            }
            match existing_scores(storage, user_address.as_str(), token_address.as_str()) {
                Ok(existing) => aggregate_fits(*score, existing),
                Err(_) => true,
            }
        },
    }
}

/// Carries out a command where [`execute`] can be called, and is `None`,
/// with the storage as it was, where it cannot.
pub fn execute_checked(
    storage: &mut MemoryStorage,
    info: MessageInfo,
    msg: ExecuteMsg,
) -> (result: Option<Result<Response, ContractError>>)
    ensures
        match result {
            Some(done) => {
                &&& executable(ledger(*old(storage)), info.sender@, msg)
                &&& set_score_outcome(
                    verdict(ledger(*old(storage)), info.sender@, msg),
                    ledger(*old(storage)),
                    done,
                    ledger(*final(storage)),
                )
                &&& done is Err ==> *final(storage) == *old(storage)
            },
            None => !executable(ledger(*old(storage)), info.sender@, msg) && *final(storage)
                == *old(storage),
        },
{
    if can_execute(storage, &info, &msg) {
        Some(execute(storage, info, msg))
    } else {
        None
    }
}

/// Answers a query.
pub fn query(storage: &MemoryStorage, msg: QueryMsg) -> (result: Result<QueryResponse, StdError>)
    requires
        msg matches QueryMsg::GetScoreForToken { user_address, .. } ==> pairable(user_address@),
    ensures
        answers(ledger(*storage), msg, result),
{
    match msg {
        QueryMsg::GetOwner {  } => match get_owner(storage) {
            Ok(response) => Ok(QueryResponse::Owner(response)),
            Err(e) => Err(e),
        },
        QueryMsg::GetScore { address } => match get_score(storage, address) {
            Ok(response) => Ok(QueryResponse::Score(response)),
            Err(e) => Err(e),
        },
        QueryMsg::GetScoreForToken { user_address, token_address } => match get_score_for_token(
            storage,
            user_address,
            token_address,
        ) {
            Ok(response) => Ok(QueryResponse::ScoreForToken(response)),
            Err(e) => Err(e),
        },
    }
}

/// Reads the owner. Fails where no owner can be read, as before [`instantiate`].
pub fn get_owner(storage: &MemoryStorage) -> (result: Result<OwnerResponse, StdError>)
    ensures
        answers_owner(ledger(*storage), result),
{
    match load_state(storage, STATE) {
        Ok(state) => Ok(OwnerResponse { owner: state.owner }),
        Err(e) => Err(e),
    }
}

/// Reads the aggregate score of an address: [`NO_SCORE`] where it has none.
/// Fails where its entry cannot be read.
pub fn get_score(storage: &MemoryStorage, address: String) -> (result: Result<
    UserScoreResponse,
    StdError,
>)
    ensures
        answers_score(ledger(*storage), address@, result),
{
    if !has_score(storage, SCORE_BY_ADDRESS, address.as_str()) {
        return Ok(UserScoreResponse { user_address: address, score: NO_SCORE });
    }
    let score = match load_score(storage, SCORE_BY_ADDRESS, address.as_str()) {
        Ok(score) => score,
        Err(e) => {
            return Err(e);
        },
    };
    Ok(UserScoreResponse { user_address: address, score })
}

/// Reads the score of a token of an address: [`NO_SCORE`] where the pair has
/// none. Fails where its entry cannot be read.
pub fn get_score_for_token(
    storage: &MemoryStorage,
    user_address: String,
    token_address: String,
) -> (result: Result<ScoreByTokenResponse, StdError>)
    requires
        pairable(user_address@),
    ensures
        answers_token_score(ledger(*storage), user_address@, token_address@, result),
{
    let user = user_address.as_str();
    let token = token_address.as_str();
    if !has_token_score(storage, SCORE_BY_ADDRESS_AND_TOKEN, user, token) {
        return Ok(ScoreByTokenResponse { user_address, score: NO_SCORE, token_address });
    }
    let score = match load_token_score(storage, SCORE_BY_ADDRESS_AND_TOKEN, user, token) {
        Ok(score) => score,
        Err(e) => {
            return Err(e);
        },
    };
    Ok(ScoreByTokenResponse { user_address, score, token_address })
}

} // verus!
