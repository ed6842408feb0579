//! The ordered list of levels that a tournament follows, and the
//! structures that can be chosen by name.

use crate::level::{Level, LevelView};
use crate::time::Duration;
use vstd::prelude::*;
use vstd::string::*;

verus! {

#[derive(Debug, PartialEq)]
pub struct Structure {
    pub levels: Vec<Level>,
}

impl View for Structure {
    type V = Seq<LevelView>;

    open spec fn view(&self) -> Seq<LevelView> {
        self.levels@.map_values(|l: Level| l@)
    }
}

/// The level with the one-based number `l` in `levels`. The last entry of
/// the list is never played: from its number on the tournament is done.
pub open spec fn level_at(levels: Seq<LevelView>, l: int) -> LevelView {
    if 1 <= l < levels.len() {
        levels[l - 1]
    } else {
        LevelView::Done
    }
}

impl Clone for Structure {
    fn clone(&self) -> (res: Self)
        ensures
            res@ == self@,
    {
        let mut levels: Vec<Level> = Vec::new();
        let mut i: usize = 0;
        while i < self.levels.len()
            invariant
                i <= self.levels.len(),
                levels.len() == i,
                forall|j: int| 0 <= j < i ==> levels[j] == self.levels[j],
            decreases self.levels.len() - i,
        {
            levels.push(self.levels[i].clone());
            i += 1;
        }
        let res: Structure = Structure { levels };
        assert(res@ =~= self@);
        res
    }
}

impl Structure {
    /// The level with the number `l`, counted from one. A number that is
    /// not below the length of the list, and the number zero, give the
    /// end marker.
    pub fn get_level(&self, l: usize) -> (level: &Level)
        ensures
            level@ == level_at(self@, l as int),
    {
        if l == 0 || l >= self.levels.len() {
            &Level::Done
        } else {
            &self.levels[l - 1]
        }
    }
}

pub open spec fn blinds_view(
    game: Seq<char>,
    small: u32,
    big: u32,
    ante: Option<u32>,
    minutes: int,
) -> LevelView {
    LevelView::Blinds { game, small, big, ante, duration: Duration::of_millis(minutes * 60_000) }
}

pub open spec fn limit_view(game: Seq<char>, small: u32, big: u32, minutes: int) -> LevelView {
    LevelView::Limit { game, small, big, duration: Duration::of_millis(minutes * 60_000) }
}

pub open spec fn stud_view(
    game: Seq<char>,
    ante: u32,
    bring_in: u32,
    small: u32,
    big: u32,
    minutes: int,
) -> LevelView {
    LevelView::Stud {
        game,
        ante,
        bring_in,
        small,
        big,
        duration: Duration::of_millis(minutes * 60_000),
    }
}

pub open spec fn break_view(minutes: int) -> LevelView {
    LevelView::Break { duration: Duration::of_millis(minutes * 60_000) }
}

fn blinds(game: &str, small: u32, big: u32, ante: Option<u32>, minutes: i64) -> (level: Level)
    ensures
        level@ == blinds_view(game@, small, big, ante, minutes as int),
{
    Level::Blinds {
        game: String::from_str(game),
        small,
        big,
        ante,
        duration: Duration::minutes(minutes),
    }
}

fn limit(game: &str, small: u32, big: u32, minutes: i64) -> (level: Level)
    ensures
        level@ == limit_view(game@, small, big, minutes as int),
{
    Level::Limit { game: String::from_str(game), small, big, duration: Duration::minutes(minutes) }
}

fn stud(game: &str, ante: u32, bring_in: u32, small: u32, big: u32, minutes: i64) -> (level: Level)
    ensures
        level@ == stud_view(game@, ante, bring_in, small, big, minutes as int),
{
    Level::Stud {
        game: String::from_str(game),
        ante,
        bring_in,
        small,
        big,
        duration: Duration::minutes(minutes),
    }
}

fn break_of(minutes: i64) -> (level: Level)
    ensures
        level@ == break_view(minutes as int),
{
    Level::Break { duration: Duration::minutes(minutes) }
}

/// The levels of "Nightly TOC".
pub open spec fn nightly_toc_levels() -> Seq<LevelView> {
    seq![
        limit_view("Hold Em"@, 200, 400, 20),
        limit_view("Omaha Hi/Lo"@, 200, 500, 20),
        stud_view("Stud Hi/Lo"@, 100, 200, 600, 1200, 20),
        limit_view("Hold Em"@, 400, 800, 20),
        limit_view("Omaha Hi/Lo"@, 500, 1000, 20),
        stud_view("Stud Hi/Lo"@, 300, 400, 1200, 2400, 20),
        break_view(10),
        blinds_view("NLHE"@, 500, 1000, Some(1000), 20),
        blinds_view("NLHE"@, 600, 1200, Some(1200), 20),
        blinds_view("NLHE"@, 1000, 1500, Some(1500), 20),
        blinds_view("NLHE"@, 1000, 2000, Some(2000), 20),
        blinds_view("NLHE"@, 1500, 2500, Some(2500), 20),
        blinds_view("NLHE"@, 1500, 3000, Some(3000), 20),
        blinds_view("NLHE"@, 2000, 4000, Some(4000), 20),
        blinds_view("NLHE"@, 2500, 5000, Some(5000), 20),
        blinds_view("NLHE"@, 3000, 6000, Some(6000), 20),
        blinds_view("NLHE"@, 4000, 8000, Some(8000), 20),
        blinds_view("NLHE"@, 5000, 10000, Some(10000), 20),
        blinds_view("NLHE"@, 6000, 12000, Some(12000), 20),
        blinds_view("NLHE"@, 8000, 16000, Some(16000), 20),
        blinds_view("NLHE"@, 10000, 20000, Some(20000), 20),
    ]
}

/// The levels of "Nightly NLHE".
pub open spec fn nightly_nlhe_levels() -> Seq<LevelView> {
    seq![
        blinds_view("NLHE"@, 100, 200, Some(200), 20),
        blinds_view("NLHE"@, 200, 300, Some(300), 20),
        blinds_view("NLHE"@, 200, 400, Some(400), 20),
        blinds_view("NLHE"@, 300, 500, Some(500), 20),
        blinds_view("NLHE"@, 300, 600, Some(600), 20),
        break_view(10),
        blinds_view("NLHE"@, 400, 800, Some(800), 20),
        blinds_view("NLHE"@, 500, 1000, Some(1000), 20),
        blinds_view("NLHE"@, 600, 1200, Some(1200), 20),
        blinds_view("NLHE"@, 1000, 1500, Some(1500), 20),
        blinds_view("NLHE"@, 1000, 2000, Some(2000), 20),
        blinds_view("NLHE"@, 1500, 2500, Some(2500), 20),
        blinds_view("NLHE"@, 1500, 3000, Some(3000), 20),
        blinds_view("NLHE"@, 2000, 4000, Some(4000), 20),
        blinds_view("NLHE"@, 2500, 5000, Some(5000), 20),
        blinds_view("NLHE"@, 3000, 6000, Some(6000), 20),
        blinds_view("NLHE"@, 4000, 8000, Some(8000), 20),
        blinds_view("NLHE"@, 5000, 10000, Some(10000), 20),
        blinds_view("NLHE"@, 6000, 12000, Some(12000), 20),
        blinds_view("NLHE"@, 10000, 15000, Some(15000), 20),
        blinds_view("NLHE"@, 10000, 20000, Some(20000), 20),
    ]
}

/// The levels of "NHLE/PLO".
pub open spec fn nhle_plo_levels() -> Seq<LevelView> {
    seq![
        blinds_view("NLHE"@, 100, 200, Some(200), 20),
        blinds_view("PLO"@, 200, 300, None, 20),
        blinds_view("NLHE"@, 200, 400, Some(400), 20),
        blinds_view("PLO"@, 300, 500, None, 20),
        blinds_view("NLHE"@, 300, 600, Some(600), 20),
        break_view(10),
        blinds_view("PLO"@, 400, 800, None, 20),
        blinds_view("NLHE"@, 500, 1000, Some(1000), 20),
        blinds_view("PLO"@, 600, 1200, None, 20),
        blinds_view("NLHE"@, 1000, 1500, Some(1500), 20),
        blinds_view("PLO"@, 1000, 2000, None, 20),
        blinds_view("NLHE"@, 1500, 2500, Some(2500), 20),
        blinds_view("PLO"@, 1500, 3000, None, 20),
        blinds_view("NLHE"@, 2000, 4000, Some(4000), 20),
        blinds_view("PLO"@, 2500, 5000, None, 20),
        blinds_view("NLHE"@, 3000, 6000, Some(6000), 20),
        blinds_view("PLO"@, 4000, 8000, None, 20),
        blinds_view("NLHE"@, 5000, 10000, Some(10000), 20),
        blinds_view("PLO"@, 6000, 12000, None, 20),
        blinds_view("NLHE"@, 10000, 15000, Some(15000), 20),
        blinds_view("PLO"@, 10000, 20000, None, 20),
    ]
}

/// The levels of "FARGO Pairs".
pub open spec fn fargo_pairs_levels() -> Seq<LevelView> {
    seq![
        limit_view("Hold Em"@, 100, 100, 20),
        limit_view("Omaha Hi/Lo"@, 100, 200, 20),
        limit_view("Hold Em"@, 200, 400, 20),
        limit_view("Omaha Hi/Lo"@, 300, 600, 20),
        limit_view("Hold Em"@, 400, 800, 20),
        break_view(20),
        limit_view("Omaha Hi/Lo"@, 600, 1200, 20),
        limit_view("Hold Em"@, 800, 1600, 20),
        limit_view("Omaha Hi/Lo"@, 1200, 2400, 20),
        limit_view("Hold Em"@, 1600, 3200, 20),
        limit_view("Omaha Hi/Lo"@, 2000, 4000, 20),
        limit_view("Hold Em"@, 3000, 6000, 20),
        limit_view("Omaha Hi/Lo"@, 4000, 8000, 20),
        limit_view("Hold Em"@, 5000, 10000, 20),
        limit_view("Omaha Hi/Lo"@, 6000, 12000, 20),
    ]
}

fn nightly_toc() -> (s: Structure)
    ensures
        s@ == nightly_toc_levels(),
{
    let mut levels: Vec<Level> = Vec::new();
    levels.push(limit("Hold Em", 200, 400, 20));
    levels.push(limit("Omaha Hi/Lo", 200, 500, 20));
    levels.push(stud("Stud Hi/Lo", 100, 200, 600, 1200, 20));
    levels.push(limit("Hold Em", 400, 800, 20));
    levels.push(limit("Omaha Hi/Lo", 500, 1000, 20));
    levels.push(stud("Stud Hi/Lo", 300, 400, 1200, 2400, 20));
    levels.push(break_of(10));
    levels.push(blinds("NLHE", 500, 1000, Some(1000), 20));
    levels.push(blinds("NLHE", 600, 1200, Some(1200), 20));
    levels.push(blinds("NLHE", 1000, 1500, Some(1500), 20));
    levels.push(blinds("NLHE", 1000, 2000, Some(2000), 20));
    levels.push(blinds("NLHE", 1500, 2500, Some(2500), 20));
    levels.push(blinds("NLHE", 1500, 3000, Some(3000), 20));
    levels.push(blinds("NLHE", 2000, 4000, Some(4000), 20));
    levels.push(blinds("NLHE", 2500, 5000, Some(5000), 20));
    levels.push(blinds("NLHE", 3000, 6000, Some(6000), 20));
    levels.push(blinds("NLHE", 4000, 8000, Some(8000), 20));
    levels.push(blinds("NLHE", 5000, 10000, Some(10000), 20));
    levels.push(blinds("NLHE", 6000, 12000, Some(12000), 20));
    levels.push(blinds("NLHE", 8000, 16000, Some(16000), 20));
    levels.push(blinds("NLHE", 10000, 20000, Some(20000), 20));
    let s: Structure = Structure { levels };
    assert(s@ =~= nightly_toc_levels());
    s
}

fn nightly_nlhe() -> (s: Structure)
    ensures
        s@ == nightly_nlhe_levels(),
{
    let mut levels: Vec<Level> = Vec::new();
    levels.push(blinds("NLHE", 100, 200, Some(200), 20));
    levels.push(blinds("NLHE", 200, 300, Some(300), 20));
    levels.push(blinds("NLHE", 200, 400, Some(400), 20));
    levels.push(blinds("NLHE", 300, 500, Some(500), 20));
    levels.push(blinds("NLHE", 300, 600, Some(600), 20));
    levels.push(break_of(10));
    levels.push(blinds("NLHE", 400, 800, Some(800), 20));
    levels.push(blinds("NLHE", 500, 1000, Some(1000), 20));
    levels.push(blinds("NLHE", 600, 1200, Some(1200), 20));
    levels.push(blinds("NLHE", 1000, 1500, Some(1500), 20));
    levels.push(blinds("NLHE", 1000, 2000, Some(2000), 20));
    levels.push(blinds("NLHE", 1500, 2500, Some(2500), 20));
    levels.push(blinds("NLHE", 1500, 3000, Some(3000), 20));
    levels.push(blinds("NLHE", 2000, 4000, Some(4000), 20));
    levels.push(blinds("NLHE", 2500, 5000, Some(5000), 20));
    levels.push(blinds("NLHE", 3000, 6000, Some(6000), 20));
    levels.push(blinds("NLHE", 4000, 8000, Some(8000), 20));
    levels.push(blinds("NLHE", 5000, 10000, Some(10000), 20));
    levels.push(blinds("NLHE", 6000, 12000, Some(12000), 20));
    levels.push(blinds("NLHE", 10000, 15000, Some(15000), 20));
    levels.push(blinds("NLHE", 10000, 20000, Some(20000), 20));
    let s: Structure = Structure { levels };
    assert(s@ =~= nightly_nlhe_levels());
    s
}

fn nhle_plo() -> (s: Structure)
    ensures
        s@ == nhle_plo_levels(),
{
    let mut levels: Vec<Level> = Vec::new();
    levels.push(blinds("NLHE", 100, 200, Some(200), 20));
    levels.push(blinds("PLO", 200, 300, None, 20));
    levels.push(blinds("NLHE", 200, 400, Some(400), 20));
    levels.push(blinds("PLO", 300, 500, None, 20));
    levels.push(blinds("NLHE", 300, 600, Some(600), 20));
    levels.push(break_of(10));
    levels.push(blinds("PLO", 400, 800, None, 20));
    levels.push(blinds("NLHE", 500, 1000, Some(1000), 20));
    levels.push(blinds("PLO", 600, 1200, None, 20));
    levels.push(blinds("NLHE", 1000, 1500, Some(1500), 20));
    levels.push(blinds("PLO", 1000, 2000, None, 20));
    levels.push(blinds("NLHE", 1500, 2500, Some(2500), 20));
    levels.push(blinds("PLO", 1500, 3000, None, 20));
    levels.push(blinds("NLHE", 2000, 4000, Some(4000), 20));
    levels.push(blinds("PLO", 2500, 5000, None, 20));
    levels.push(blinds("NLHE", 3000, 6000, Some(6000), 20));
    levels.push(blinds("PLO", 4000, 8000, None, 20));
    levels.push(blinds("NLHE", 5000, 10000, Some(10000), 20));
    levels.push(blinds("PLO", 6000, 12000, None, 20));
    levels.push(blinds("NLHE", 10000, 15000, Some(15000), 20));
    levels.push(blinds("PLO", 10000, 20000, None, 20));
    let s: Structure = Structure { levels };
    assert(s@ =~= nhle_plo_levels());
    s
}

fn fargo_pairs() -> (s: Structure)
    ensures
        s@ == fargo_pairs_levels(),
{
    let mut levels: Vec<Level> = Vec::new();
    levels.push(limit("Hold Em", 100, 100, 20));
    levels.push(limit("Omaha Hi/Lo", 100, 200, 20));
    levels.push(limit("Hold Em", 200, 400, 20));
    levels.push(limit("Omaha Hi/Lo", 300, 600, 20));
    levels.push(limit("Hold Em", 400, 800, 20));
    levels.push(break_of(20));
    levels.push(limit("Omaha Hi/Lo", 600, 1200, 20));
    levels.push(limit("Hold Em", 800, 1600, 20));
    levels.push(limit("Omaha Hi/Lo", 1200, 2400, 20));
    levels.push(limit("Hold Em", 1600, 3200, 20));
    levels.push(limit("Omaha Hi/Lo", 2000, 4000, 20));
    levels.push(limit("Hold Em", 3000, 6000, 20));
    levels.push(limit("Omaha Hi/Lo", 4000, 8000, 20));
    levels.push(limit("Hold Em", 5000, 10000, 20));
    levels.push(limit("Omaha Hi/Lo", 6000, 12000, 20));
    let s: Structure = Structure { levels };
    assert(s@ =~= fargo_pairs_levels());
    s
}

/// The structure that goes by `name`, if there is one.
pub open spec fn catalog(name: Seq<char>) -> Option<Seq<LevelView>> {
    if name == "Nightly TOC"@ {
        Some(nightly_toc_levels())
    } else if name == "Nightly NLHE"@ {
        Some(nightly_nlhe_levels())
    } else if name == "NHLE/PLO"@ {
        Some(nhle_plo_levels())
    } else if name == "FARGO Pairs"@ {
        Some(fargo_pairs_levels())
    } else {
        None
    }
}

fn same_text(a: &str, b: &str) -> (same: bool)
    ensures
        same == (a@ == b@),
{
    let left: String = String::from_str(a);
    let right: String = String::from_str(b);
    left == right
}

/// Looks a structure up by its name.
pub fn structure_by_name(name: &str) -> (found: Option<Structure>)
    ensures
        match found {
            Some(s) => catalog(name@) == Some(s@),
            None => catalog(name@) is None,
        },
{
    if same_text(name, "Nightly TOC") {
        Some(nightly_toc())
    } else if same_text(name, "Nightly NLHE") {
        Some(nightly_nlhe())
    } else if same_text(name, "NHLE/PLO") {
        Some(nhle_plo())
    } else if same_text(name, "FARGO Pairs") {
        Some(fargo_pairs())
    } else {
        None
    }
}

/// The names under which structures can be looked up.
pub fn structure_names() -> (names: Vec<String>)
    ensures
        names@.map_values(|n: String| n@) == seq![
            "Nightly TOC"@,
            "Nightly NLHE"@,
            "NHLE/PLO"@,
            "FARGO Pairs"@,
        ],
{
    let mut names: Vec<String> = Vec::new();
    names.push(String::from_str("Nightly TOC"));
    names.push(String::from_str("Nightly NLHE"));
    names.push(String::from_str("NHLE/PLO"));
    names.push(String::from_str("FARGO Pairs"));
    assert(names@.map_values(|n: String| n@) =~= seq![
        "Nightly TOC"@,
        "Nightly NLHE"@,
        "NHLE/PLO"@,
        "FARGO Pairs"@,
    ]);
    names
}

} // verus!
