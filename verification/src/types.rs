//! The values that the oracle works with: its errors, the outcomes of a
//! match, and the entry that is kept for each decided match.
use crate::host::text;
use vstd::prelude::*;

verus! {

/// Why the oracle refuses a request.
#[derive(Clone, Copy, Debug, PartialEq, Eq, Structural)]
pub enum Error {
    /// No admin is stored, or the request was not approved by that admin.
    Unauthorized,
    /// The escrow contract knows no match with the given id.
    MatchNotFound,
    /// A result is already stored for the match.
    AlreadySubmitted,
    /// No result is stored for the match.
    ResultNotFound,
}

/// How a match ended.
#[derive(Clone, Copy, Debug, PartialEq, Eq, Structural)]
pub enum MatchResult {
    Player1Wins,
    Player2Wins,
    Draw,
}

impl MatchResult {
    /// The symbol under which a result travels in storage and in events: the
    /// name of its variant.
    pub open spec fn symbol(self) -> Seq<char> {
        match self {
            MatchResult::Player1Wins => "Player1Wins"@,
            MatchResult::Player2Wins => "Player2Wins"@,
            MatchResult::Draw => "Draw"@,
        }
    }

    /// The result that a symbol stands for, if it stands for one.
    pub open spec fn of_symbol(symbol: Seq<char>) -> Option<MatchResult> {
        if symbol == "Player1Wins"@ {
            Some(MatchResult::Player1Wins)
        } else if symbol == "Player2Wins"@ {
            Some(MatchResult::Player2Wins)
        } else if symbol == "Draw"@ {
            Some(MatchResult::Draw)
        } else {
            None
        }
    }

    /// Returns the symbol of a result.
    pub fn name(self) -> (name: &'static str)
        ensures
            name@ == self.symbol(),
    {
        match self {
            MatchResult::Player1Wins => "Player1Wins",
            MatchResult::Player2Wins => "Player2Wins",
            MatchResult::Draw => "Draw",
        }
    }

    /// Returns the result that a symbol stands for, and `None` for any other
    /// symbol.
    pub fn from_name(name: &String) -> (result: Option<MatchResult>)
        ensures
            result == MatchResult::of_symbol(name@),
    {
        if *name == "Player1Wins".to_owned() {
            Some(MatchResult::Player1Wins)
        } else if *name == "Player2Wins".to_owned() {
            Some(MatchResult::Player2Wins)
        } else if *name == "Draw".to_owned() {
            Some(MatchResult::Draw)
        } else {
            None
        }
    }
}

/// What is kept for a decided match: the id of the game on its platform, and
/// how it ended.
#[derive(Debug)]
pub struct ResultEntry {
    pub game_id: soroban_sdk::String,
    pub result: MatchResult,
}

/// The content of a [`ResultEntry`].
pub struct ResultView {
    pub game_id: Seq<u8>,
    pub result: MatchResult,
}

impl View for ResultEntry {
    type V = ResultView;

    open spec fn view(&self) -> ResultView {
        ResultView { game_id: text(self.game_id), result: self.result }
    }
}

/// Law: reading the symbol of a result gives that result back, so the three
/// results have three different symbols.
pub proof fn law_symbol_round_trip(result: MatchResult)
    ensures
        MatchResult::of_symbol(result.symbol()) == Some(result),
{
    reveal_strlit("Player1Wins");
    reveal_strlit("Player2Wins");
    reveal_strlit("Draw");
    assert("Player1Wins"@[6] != "Player2Wins"@[6]);
    assert("Player1Wins"@.len() != "Draw"@.len());
    assert("Player2Wins"@.len() != "Draw"@.len());
}

} // verus!
