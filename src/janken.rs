//! Rock-paper-scissors: who wins a round.

use vstd::prelude::*;

verus! {

/// The result of a round, for the player.
#[derive(Clone, Copy, Debug, PartialEq, Eq, Structural)]
pub enum ResultType {
    Draw,
    Win,
    Lose,
}

/// The result of a round in which the player shows `player` and the
/// computer `cpu` (0: rock, 1: scissors, 2: paper).
pub open spec fn round_result(player: nat, cpu: nat) -> ResultType {
    let d = (player + 3 - cpu) % 3;
    if d == 0 {
        ResultType::Draw
    } else if d == 1 {
        ResultType::Lose
    } else {
        ResultType::Win
    }
}

/// The word that announces a result.
pub open spec fn result_word(r: ResultType) -> Seq<char> {
    match r {
        ResultType::Draw => "あいこ"@,
        ResultType::Win => "かち"@,
        ResultType::Lose => "まけ"@,
    }
}

impl ResultType {
    /// The word that announces this result.
    pub fn to_str(&self) -> (r: &'static str)
        ensures
            r@ == result_word(*self),
    {
        match self {
            ResultType::Draw => "あいこ",
            ResultType::Win => "かち",
            ResultType::Lose => "まけ",
        }
    }
}

/// Who wins a round (hands 0: rock, 1: scissors, 2: paper).
pub fn judge(player: usize, cpu: usize) -> (r: ResultType)
    requires
        player <= 2,
        cpu <= 2,
    ensures
        r == round_result(player as nat, cpu as nat),
{
    let d = (player + 3 - cpu) % 3;
    if d == 0 {
        ResultType::Draw
    } else if d == 1 {
        ResultType::Lose
    } else {
        ResultType::Win
    }
}

} // verus!
