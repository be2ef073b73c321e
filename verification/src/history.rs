//! What holds of a ledger after any number of commands.
//!
//! A history is a sequence of commands, each sent by anyone at all. A command
//! that is not carried out (its sender is not the owner, or a value that it
//! needs cannot be read or does not fit) leaves the ledger as it was.

use crate::contract::{new_aggregate_fits, Verdict, NO_SCORE};
use crate::state::Ledger;
use vstd::prelude::*;

verus! {

/// A command to set a score, as it reaches the contract.
pub struct Command {
    pub sender: Seq<char>,
    pub user_address: Seq<char>,
    pub token_address: Seq<char>,
    pub score: i32,
}

impl Command {
    /// Whether the command is for the pair of `user` and `token`.
    pub open spec fn names_pair(self, user: Seq<char>, token: Seq<char>) -> bool {
        self.user_address == user && self.token_address == token
    }
}

impl Ledger {
    /// What becomes of a command on this ledger.
    pub open spec fn verdict(self, command: Command) -> Verdict {
        self.set_score(
            command.sender,
            command.user_address,
            command.token_address,
            command.score,
        )
    }

    /// The ledger after a command: the one that the command leaves where it
    /// is carried out, this one where it is not.
    pub open spec fn after(self, command: Command) -> Ledger {
        match self.verdict(command) {
            Verdict::Applied(next) => next,
            _ => self,
        }
    }

    /// Whether the score of `user` and that of its pair with `token` are
    /// both missing, or both there, readable and the same.
    pub open spec fn follows(self, user: Seq<char>, token: Seq<char>) -> bool {
        if self.scores.contains_key(user) {
            &&& self.token_scores.contains_key((user, token))
            &&& self.scores[user] is Some
            &&& self.scores[user] == self.token_scores[(user, token)]
        } else {
            !self.token_scores.contains_key((user, token))
        }
    }
}

/// The ledger after a history of commands, the first of them first.
pub open spec fn run(start: Ledger, commands: Seq<Command>) -> Ledger
    decreases commands.len(),
{
    if commands.len() == 0 {
        start
    } else {
        run(start, commands.drop_last()).after(commands.last())
    }
}

/// Whether no command of the history is for `address`.
pub open spec fn never_names(commands: Seq<Command>, address: Seq<char>) -> bool {
    forall|i: int| 0 <= i < commands.len() ==> (#[trigger] commands[i]).user_address != address
}

/// Whether no command of the history is for the pair of `user` and `token`.
pub open spec fn never_names_pair(commands: Seq<Command>, user: Seq<char>, token: Seq<char>) -> bool {
    forall|i: int| 0 <= i < commands.len() ==> !(#[trigger] commands[i]).names_pair(user, token)
}

/// Whether every command of the history that is for `user` is for its pair with `token`.
pub open spec fn only_token(commands: Seq<Command>, user: Seq<char>, token: Seq<char>) -> bool {
    forall|i: int|
        0 <= i < commands.len() && (#[trigger] commands[i]).user_address == user
            ==> commands[i].token_address == token
}

/// A command changes no score but that of the address and of the pair that it names.
pub proof fn command_touches_its_own_scores_only(
    ledger: Ledger,
    command: Command,
    user: Seq<char>,
    token: Seq<char>,
)
    ensures
        command.user_address != user ==> ledger.after(command).score(user) == ledger.score(user),
        !command.names_pair(user, token) ==> ledger.after(command).token_score(user, token)
            == ledger.token_score(user, token),
{
}

/// No history changes the score of an address that none of its commands names.
pub proof fn unnamed_address_keeps_its_score(
    start: Ledger,
    commands: Seq<Command>,
    address: Seq<char>,
)
    requires
        never_names(commands, address),
    ensures
        run(start, commands).score(address) == start.score(address),
    decreases commands.len(),
{
    if commands.len() > 0 {
        let earlier = commands.drop_last();
        assert(never_names(earlier, address)) by {
            assert forall|i: int| 0 <= i < earlier.len() implies (#[trigger] earlier[i]).user_address
                != address by {
                assert(earlier[i] == commands[i]);
            }
        }
        unnamed_address_keeps_its_score(start, earlier, address);
        command_touches_its_own_scores_only(
            run(start, earlier),
            commands.last(),
            address,
            address,
        );
    }
}

/// No history changes the score of a pair that none of its commands names.
pub proof fn unnamed_pair_keeps_its_score(
    start: Ledger,
    commands: Seq<Command>,
    user: Seq<char>,
    token: Seq<char>,
)
    requires
        never_names_pair(commands, user, token),
    ensures
        run(start, commands).token_score(user, token) == start.token_score(user, token),
    decreases commands.len(),
{
    if commands.len() > 0 {
        let earlier = commands.drop_last();
        assert(never_names_pair(earlier, user, token)) by {
            assert forall|i: int| 0 <= i < earlier.len() implies !(#[trigger] earlier[i]).names_pair(
                user,
                token,
            ) by {
                assert(earlier[i] == commands[i]);
            }
        }
        unnamed_pair_keeps_its_score(start, earlier, user, token);
        command_touches_its_own_scores_only(run(start, earlier), commands.last(), user, token);
    }
}

/// An address that was never given a score reads as [`NO_SCORE`]: in a
/// contract that was set up on an empty storage, whatever commands came
/// since, as long as none of them named the address.
pub proof fn address_without_score_reads_none(
    creator: Seq<char>,
    commands: Seq<Command>,
    address: Seq<char>,
)
    requires
        never_names(commands, address),
    ensures
        run(Ledger::empty().instantiate(creator), commands).score(address) == Some(NO_SCORE),
{
    unnamed_address_keeps_its_score(Ledger::empty().instantiate(creator), commands, address);
}

/// A pair that was never given a score reads as [`NO_SCORE`]: in a contract
/// that was set up on an empty storage, whatever commands came since, as
/// long as none of them named the pair.
pub proof fn pair_without_score_reads_none(
    creator: Seq<char>,
    commands: Seq<Command>,
    user: Seq<char>,
    token: Seq<char>,
)
    requires
        never_names_pair(commands, user, token),
    ensures
        run(Ledger::empty().instantiate(creator), commands).token_score(user, token) == Some(
            NO_SCORE,
        ),
{
    unnamed_pair_keeps_its_score(Ledger::empty().instantiate(creator), commands, user, token);
}

/// The owner is whoever set the contract up, and no command changes that.
pub proof fn owner_is_who_instantiated(start: Ledger, creator: Seq<char>, commands: Seq<Command>)
    ensures
        start.instantiate(creator).owner == Some(creator),
        run(start.instantiate(creator), commands).owner == Some(creator),
    decreases commands.len(),
{
    if commands.len() > 0 {
        owner_is_who_instantiated(start, creator, commands.drop_last());
    }
}

/// A command from anyone but the owner leaves the ledger, and so the answer
/// to every query, as it was; where there is an owner, it is refused as
/// unauthorized.
pub proof fn stranger_changes_nothing(ledger: Ledger, command: Command)
    requires
        ledger.owner != Some(command.sender),
    ensures
        ledger.after(command) == ledger,
        ledger.owner is Some ==> ledger.verdict(command) == Verdict::Unauthorized,
{
}

/// A command sent a second time changes nothing: the ledger after both is
/// the ledger after the first.
pub proof fn repeated_command_changes_nothing(ledger: Ledger, command: Command)
    ensures
        ledger.after(command).after(command) == ledger.after(command),
{
    let once = ledger.after(command);
    match ledger.verdict(command) {
        Verdict::Applied(next) => {
            let user = command.user_address;
            let token = command.token_address;
            let sum = once.scores[user]->Some_0;
            assert(once.existing(user, token) == Some((Some(sum), Some(command.score))));
            assert(new_aggregate_fits(command.score, Some((sum, command.score))));
            assert(once.record(user, token, command.score, sum) == once);
        },
        _ => {},
    }
}

/// As long as every command that names an address names the same token, the
/// score of the address follows that of the pair.
pub proof fn single_token_address_follows_its_pair(
    creator: Seq<char>,
    commands: Seq<Command>,
    user: Seq<char>,
    token: Seq<char>,
)
    requires
        only_token(commands, user, token),
    ensures
        run(Ledger::empty().instantiate(creator), commands).follows(user, token),
    decreases commands.len(),
{
    if commands.len() > 0 {
        let earlier = commands.drop_last();
        assert(only_token(earlier, user, token)) by {
            assert forall|i: int|
                0 <= i < earlier.len() && (#[trigger] earlier[i]).user_address
                    == user implies earlier[i].token_address == token by {
                assert(earlier[i] == commands[i]);
            }
        }
        single_token_address_follows_its_pair(creator, earlier, user, token);
        let last = commands.last();
        assert(last == commands[commands.len() - 1]);
        assert(last.user_address == user ==> last.token_address == token);
    }
}

/// Where an address was only ever scored for one token, a command of the
/// owner that sets that token's score leaves the address with that very
/// score, and so does the same command sent once more.
pub proof fn single_token_score_is_the_score_set(
    creator: Seq<char>,
    commands: Seq<Command>,
    command: Command,
)
    requires
        only_token(commands, command.user_address, command.token_address),
        command.sender == creator,
    ensures
        ({
            let once = run(Ledger::empty().instantiate(creator), commands).after(command);
            let twice = once.after(command);
            &&& once.score(command.user_address) == Some(command.score)
            &&& twice.score(command.user_address) == Some(command.score)
            &&& once.token_score(command.user_address, command.token_address) == Some(
                command.score,
            )
            &&& twice.token_score(command.user_address, command.token_address) == Some(
                command.score,
            )
        }),
{
    let before = run(Ledger::empty().instantiate(creator), commands);
    owner_is_who_instantiated(Ledger::empty(), creator, commands);
    single_token_address_follows_its_pair(
        creator,
        commands,
        command.user_address,
        command.token_address,
    );
    repeated_command_changes_nothing(before, command);
}

} // verus!
