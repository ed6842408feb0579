//! One phase of a tournament: a timed round, a break, or the end marker.

use crate::text::{decimal, decimal_string, signed_decimal, signed_decimal_string};
use crate::time::{div_toward_zero, Duration};
use vstd::prelude::*;
use vstd::string::*;

verus! {

#[allow(inconsistent_fields)]
#[derive(Debug, PartialEq)]
pub enum Level {
    Blinds { game: String, small: u32, big: u32, ante: Option<u32>, duration: Duration },
    Limit { game: String, small: u32, big: u32, duration: Duration },
    Stud { game: String, ante: u32, bring_in: u32, small: u32, big: u32, duration: Duration },
    Break { duration: Duration },
    Done,
}

/// What a `Level` holds, with its text as a sequence of characters.
#[allow(inconsistent_fields)]
pub enum LevelView {
    Blinds { game: Seq<char>, small: u32, big: u32, ante: Option<u32>, duration: Duration },
    Limit { game: Seq<char>, small: u32, big: u32, duration: Duration },
    Stud { game: Seq<char>, ante: u32, bring_in: u32, small: u32, big: u32, duration: Duration },
    Break { duration: Duration },
    Done,
}

impl View for Level {
    type V = LevelView;

    open spec fn view(&self) -> LevelView {
        match *self {
            Level::Blinds { game, small, big, ante, duration } => LevelView::Blinds {
                game: game@,
                small,
                big,
                ante,
                duration,
            },
            Level::Limit { game, small, big, duration } => LevelView::Limit {
                game: game@,
                small,
                big,
                duration,
            },
            Level::Stud { game, ante, bring_in, small, big, duration } => LevelView::Stud {
                game: game@,
                ante,
                bring_in,
                small,
                big,
                duration,
            },
            Level::Break { duration } => LevelView::Break { duration },
            Level::Done => LevelView::Done,
        }
    }
}

impl LevelView {
    /// How long the level lasts; the end marker lasts no time.
    pub open spec fn duration(self) -> Duration {
        match self {
            LevelView::Blinds { duration, .. } => duration,
            LevelView::Limit { duration, .. } => duration,
            LevelView::Stud { duration, .. } => duration,
            LevelView::Break { duration } => duration,
            LevelView::Done => Duration { millis: 0 },
        }
    }

    /// The name of the game played; a break has none.
    pub open spec fn game(self) -> Seq<char> {
        match self {
            LevelView::Blinds { game, .. } => game,
            LevelView::Limit { game, .. } => game,
            LevelView::Stud { game, .. } => game,
            LevelView::Break { .. } => Seq::empty(),
            LevelView::Done => "FINISHED"@,
        }
    }

    pub open spec fn is_break(self) -> bool {
        self is Break
    }

    pub open spec fn is_done(self) -> bool {
        self is Done
    }

    /// The stakes line shown on the main display, under the game's name.
    pub open spec fn stakes_text(self) -> Seq<char> {
        match self {
            LevelView::Blinds { small, big, ante, .. } => match ante {
                Some(a) => decimal(small as nat) + " / "@ + decimal(big as nat) + " / "@ + decimal(
                    a as nat,
                ),
                None => decimal(small as nat) + " / "@ + decimal(big as nat),
            },
            LevelView::Limit { small, big, .. } => decimal(small as nat) + " / "@ + decimal(
                big as nat,
            ) + "  Big Bet: "@ + decimal((big * 2) as nat),
            LevelView::Stud { ante, bring_in, small, big, .. } => "Ante: "@ + decimal(ante as nat)
                + " Bring: "@ + decimal(bring_in as nat) + " Small: "@ + decimal(small as nat)
                + " Big: "@ + decimal(big as nat),
            LevelView::Break { duration } => signed_decimal(
                div_toward_zero(duration.millis as int, 60_000),
            ) + " MINUTE BREAK"@,
            LevelView::Done => "FINISHED"@,
        }
    }

    /// The one-line summary used for the next level and in level-up
    /// alerts: the stakes line, led by the game's name where there is one.
    pub open spec fn short_text(self) -> Seq<char> {
        match self {
            LevelView::Blinds { game, .. } => game + " "@ + self.stakes_text(),
            LevelView::Limit { game, .. } => game + " "@ + self.stakes_text(),
            LevelView::Stud { game, .. } => game + " "@ + self.stakes_text(),
            LevelView::Break { .. } => self.stakes_text(),
            LevelView::Done => self.stakes_text(),
        }
    }
}

impl Clone for Level {
    fn clone(&self) -> (res: Self)
        ensures
            res == *self,
    {
        match self {
            Level::Blinds { game, small, big, ante, duration } => Level::Blinds {
                game: game.clone(),
                small: *small,
                big: *big,
                ante: *ante,
                duration: *duration,
            },
            Level::Limit { game, small, big, duration } => Level::Limit {
                game: game.clone(),
                small: *small,
                big: *big,
                duration: *duration,
            },
            Level::Stud { game, ante, bring_in, small, big, duration } => Level::Stud {
                game: game.clone(),
                ante: *ante,
                bring_in: *bring_in,
                small: *small,
                big: *big,
                duration: *duration,
            },
            Level::Break { duration } => Level::Break { duration: *duration },
            Level::Done => Level::Done,
        }
    }
}

/// Appends the decimal digits of `n` to `s`.
fn push_number(s: &mut String, n: u64)
    ensures
        final(s)@ == old(s)@ + decimal(n as nat),
{
    let digits: String = decimal_string(n);
    s.append(digits.as_str());
}

impl Level {
    pub fn duration(&self) -> (d: Duration)
        ensures
            d == self@.duration(),
    {
        match self {
            Level::Blinds { duration, .. } => *duration,
            Level::Limit { duration, .. } => *duration,
            Level::Stud { duration, .. } => *duration,
            Level::Break { duration } => *duration,
            Level::Done => Duration::zero(),
        }
    }

    pub fn game(&self) -> (g: &str)
        ensures
            g@ == self@.game(),
    {
        match self {
            Level::Blinds { game, .. } => game.as_str(),
            Level::Limit { game, .. } => game.as_str(),
            Level::Stud { game, .. } => game.as_str(),
            Level::Break { .. } => {
                proof {
                    reveal_strlit("");
                }
                assert(""@ =~= Seq::<char>::empty());
                ""
            },
            Level::Done => "FINISHED",
        }
    }

    pub fn is_break(&self) -> (b: bool)
        ensures
            b == self@.is_break(),
    {
        match self {
            Level::Break { .. } => true,
            _ => false,
        }
    }

    pub fn is_done(&self) -> (b: bool)
        ensures
            b == self@.is_done(),
    {
        match self {
            Level::Done => true,
            _ => false,
        }
    }

    /// The string shown on the main timer; the game is shown above it.
    pub fn make_level_string(&self) -> (s: String)
        ensures
            s@ == self@.stakes_text(),
    {
        match self {
            Level::Blinds { small, big, ante, .. } => {
                let mut s: String = decimal_string(*small as u64);
                s.append(" / ");
                push_number(&mut s, *big as u64);
                match ante {
                    Some(a) => {
                        s.append(" / ");
                        push_number(&mut s, *a as u64);
                    },
                    None => {},
                }
                s
            },
            Level::Limit { small, big, .. } => {
                let mut s: String = decimal_string(*small as u64);
                s.append(" / ");
                push_number(&mut s, *big as u64);
                s.append("  Big Bet: ");
                push_number(&mut s, *big as u64 * 2);
                s
            },
            Level::Stud { ante, bring_in, small, big, .. } => {
                let mut s: String = String::from_str("Ante: ");
                push_number(&mut s, *ante as u64);
                s.append(" Bring: ");
                push_number(&mut s, *bring_in as u64);
                s.append(" Small: ");
                push_number(&mut s, *small as u64);
                s.append(" Big: ");
                push_number(&mut s, *big as u64);
                s
            },
            Level::Break { duration } => {
                let mut s: String = signed_decimal_string(duration.num_minutes());
                s.append(" MINUTE BREAK");
                s
            },
            Level::Done => String::from_str("FINISHED"),
        }
    }

    /// The string shown for the next level and in level-up alerts.
    pub fn short_level_string(&self) -> (s: String)
        ensures
            s@ == self@.short_text(),
    {
        let stakes: String = self.make_level_string();
        match self {
            Level::Blinds { game, .. } => {
                let mut s: String = game.clone();
                s.append(" ");
                s.append(stakes.as_str());
                s
            },
            Level::Limit { game, .. } => {
                let mut s: String = game.clone();
                s.append(" ");
                s.append(stakes.as_str());
                s
            },
            Level::Stud { game, .. } => {
                let mut s: String = game.clone();
                s.append(" ");
                s.append(stakes.as_str());
                s
            },
            Level::Break { .. } => stakes,
            Level::Done => stakes,
        }
    }
}

} // verus!
