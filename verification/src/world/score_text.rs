//! The score and its displayed text.
use vstd::prelude::*;

use crate::text::{zero_padded_string, zero_padded_text};

verus! {

/// Width of the displayed score, in characters.
pub const SCORE_WIDTH: usize = 6;

/// The score and its text: the score in decimal, padded with zeros to six
/// characters.
pub struct ScoreText {
    pub score: i32,
    pub score_text: String,
}

impl ScoreText {
    /// The text shows the score.
    pub open spec fn shows_score(&self) -> bool {
        self.score_text@ == zero_padded_text(self.score as int, SCORE_WIDTH as nat)
    }

    /// A score of zero, shown as `000000`.
    pub fn new() -> (res: Self)
        ensures
            res.score == 0,
            res.score_text@ == "000000"@,
            res.shows_score(),
    {
        proof {
            law_initial_score_text();
        }
        ScoreText { score: 0, score_text: String::from_str("000000") }
    }

    /// Adds `amount` to the score and renews its text.
    pub fn add_score(&mut self, amount: i32)
        requires
            i32::MIN <= old(self).score + amount <= i32::MAX,
        ensures
            final(self).score == old(self).score + amount,
            final(self).shows_score(),
    {
        self.score = self.score + amount;
        self.score_text = zero_padded_string(self.score as i64, SCORE_WIDTH);
    }
}

/// The initial text `000000` is the score zero padded to six characters, so
/// the text always shows the score.
pub proof fn law_initial_score_text()
    ensures
        "000000"@ == zero_padded_text(0, SCORE_WIDTH as nat),
{
    reveal_strlit("000000");
    assert(zero_padded_text(0, SCORE_WIDTH as nat) =~= "000000"@);
}

} // verus!
