//! The list of game cards, split into auto-detected and manually added sections.
use vstd::prelude::*;

use crate::reshade::game::{Game, GameSource};
use crate::reshade::reshade::names;
use crate::text::str_eq;

verus! {

broadcast use vstd::seq_lib::lemma_seq_contains_after_push;

/// The section a game's card is in.
#[derive(Debug, Clone, Copy, PartialEq, Eq, Structural)]
pub enum ListSection {
    /// Games discovered in the Steam library.
    Auto,
    /// Games added by hand.
    Manual,
}

/// What one card shows.
#[derive(Debug, Clone)]
pub struct GameRow {
    /// Stable game ID.
    pub id: String,
    /// Display name.
    pub name: String,
    /// `ReShade` is installed.
    pub installed: bool,
    /// The card is in the manual section and has a remove button.
    pub manual: bool,
}

/// The card of a game.
pub open spec fn spec_row(g: Game) -> (Seq<char>, Seq<char>, bool, bool) {
    (g.id@, g.name@, g.status is Installed, g.source is Manual)
}

/// The plain value of a card.
pub open spec fn row_view(r: GameRow) -> (Seq<char>, Seq<char>, bool, bool) {
    (r.id@, r.name@, r.installed, r.manual)
}

/// The identifiers of a list of games.
pub open spec fn game_ids(s: Seq<Game>) -> Seq<Seq<char>> {
    s.map_values(|g: Game| g.id@)
}

/// Some game of `s` was added by hand.
pub open spec fn any_manual(s: Seq<Game>) -> bool {
    exists|i: int| 0 <= i < s.len() && (#[trigger] s[i]).source is Manual
}

/// The test "this game does not have the identifier `id`".
pub open spec fn other_game(id: Seq<char>) -> spec_fn(Game) -> bool {
    |g: Game| g.id@ != id
}

fn card(g: &Game) -> (r: GameRow)
    ensures
        row_view(r) == spec_row(*g),
{
    let manual = match g.source {
        GameSource::Manual => true,
        GameSource::Steam { .. } => false,
    };
    GameRow { id: g.id.clone(), name: g.name.clone(), installed: g.status.is_installed(), manual }
}

/// Whether some game of `games` was added by hand.
pub fn has_manual_game(games: &Vec<Game>) -> (r: bool)
    ensures
        r == any_manual(games@),
{
    let mut i: usize = 0;
    while i < games.len()
        invariant
            i <= games@.len(),
            forall|j: int| 0 <= j < i ==> !((#[trigger] games@[j]).source is Manual),
        decreases games.len() - i,
    {
        if let GameSource::Manual = games[i].source {
            return true;
        }
        i = i + 1;
    }
    false
}

/// Removes every game with the identifier `id`, keeping the others in order.
pub fn remove_game_by_id(games: &mut Vec<Game>, id: &str)
    ensures
        final(games)@ == old(games)@.filter(other_game(id@)),
{
    let ghost orig = games@;
    let ghost p = other_game(id@);
    let ghost mut j: int = 0;
    let mut i: usize = 0;
    assert(orig.take(0).filter(p) =~= Seq::<Game>::empty()) by {
        reveal_with_fuel(Seq::filter, 1);
    }
    assert(games@.take(0) =~= Seq::<Game>::empty());
    assert(games@.skip(0) =~= orig.skip(0));
    while i < games.len()
        invariant
            0 <= i <= games@.len(),
            0 <= j <= orig.len(),
            p == other_game(id@),
            games@.take(i as int) == orig.take(j).filter(p),
            games@.skip(i as int) == orig.skip(j),
            games@.len() - i == orig.len() - j,
        decreases games.len() - i,
    {
        let ghost g = games@[i as int];
        assert(g == orig[j]) by {
            assert(games@.skip(i as int)[0] == orig.skip(j)[0]);
        }
        assert(orig.take(j + 1).drop_last() =~= orig.take(j));
        proof {
            orig.take(j).lemma_filter_push(g, p);
            assert(orig.take(j + 1) =~= orig.take(j).push(g));
        }
        if str_eq(games[i].id.as_str(), id) {
            let ghost before = games@;
            games.remove(i);
            assert(games@.take(i as int) =~= before.take(i as int));
            assert(games@.skip(i as int) =~= before.skip(i + 1));
            assert(before.skip(i + 1) =~= before.skip(i as int).drop_first());
            assert(orig.skip(j + 1) =~= orig.skip(j).drop_first());
        } else {
            assert(games@.take(i + 1) =~= games@.take(i as int).push(g));
            assert(games@.skip(i + 1) =~= games@.skip(i as int).drop_first());
            assert(orig.skip(j + 1) =~= orig.skip(j).drop_first());
            i = i + 1;
        }
        proof {
            j = j + 1;
        }
    }
    assert(games@.skip(i as int).len() == 0);
    assert(j == orig.len());
    assert(orig.take(j) =~= orig);
    assert(games@.take(i as int) =~= games@);
}

/// The game list, apart from its widgets.
#[derive(Debug)]
pub struct GameListModel {
    /// All games shown.
    pub games: Vec<Game>,
    /// The manual section is shown: some game was added by hand.
    pub has_manual: bool,
    /// Identifiers of the cards in the auto-detected section.
    pub auto_rows: Vec<String>,
    /// Identifiers of the cards in the manual section.
    pub manual_rows: Vec<String>,
}

impl GameListModel {
    /// Builds the list: one card per game, in order, each in its section.
    pub fn init(games: Vec<Game>) -> (r: (Self, Vec<GameRow>))
        ensures
            r.0.games@ == games@,
            r.0.has_manual == any_manual(games@),
            r.1@.len() == games@.len(),
            forall|i: int| 0 <= i < games@.len() ==> row_view(#[trigger] r.1@[i]) == spec_row(games@[i]),
            forall|i: int| 0 <= i < games@.len() && (#[trigger] games@[i]).source is Manual ==> names(r.0.manual_rows@).contains(games@[i].id@),
            forall|i: int| 0 <= i < games@.len() && !((#[trigger] games@[i]).source is Manual) ==> names(r.0.auto_rows@).contains(games@[i].id@),
    {
        let mut rows: Vec<GameRow> = Vec::new();
        let mut auto_rows: Vec<String> = Vec::new();
        let mut manual_rows: Vec<String> = Vec::new();
        let mut i: usize = 0;
        while i < games.len()
            invariant
                i <= games@.len(),
                rows@.len() == i,
                forall|j: int| 0 <= j < i ==> row_view(#[trigger] rows@[j]) == spec_row(games@[j]),
                forall|j: int| 0 <= j < i && (#[trigger] games@[j]).source is Manual ==> names(manual_rows@).contains(games@[j].id@),
                forall|j: int| 0 <= j < i && !((#[trigger] games@[j]).source is Manual) ==> names(auto_rows@).contains(games@[j].id@),
            decreases games.len() - i,
        {
            let row = card(&games[i]);
            let ghost m0 = names(manual_rows@);
            let ghost a0 = names(auto_rows@);
            if row.manual {
                manual_rows.push(games[i].id.clone());
                assert(names(manual_rows@) =~= m0.push(games@[i as int].id@));
            } else {
                auto_rows.push(games[i].id.clone());
                assert(names(auto_rows@) =~= a0.push(games@[i as int].id@));
            }
            rows.push(row);
            i = i + 1;
        }
        let has_manual = has_manual_game(&games);
        (GameListModel { games, has_manual, auto_rows, manual_rows }, rows)
    }

    /// Replaces the games kept; the cards stay as they are.
    pub fn set_games(&mut self, games: Vec<Game>)
        ensures
            final(self).games@ == games@,
            final(self).has_manual == old(self).has_manual,
            final(self).auto_rows == old(self).auto_rows,
            final(self).manual_rows == old(self).manual_rows,
    {
        self.games = games;
    }

    /// Adds a game's card to its section.
    pub fn add_game(&mut self, game: Game) -> (row: GameRow)
        ensures
            row_view(row) == spec_row(game),
            final(self).games@ == old(self).games@.push(game),
            final(self).has_manual == any_manual(old(self).games@.push(game)),
            game.source is Manual ==> names(final(self).manual_rows@) == names(old(self).manual_rows@).push(game.id@)
                && final(self).auto_rows == old(self).auto_rows,
            !(game.source is Manual) ==> names(final(self).auto_rows@) == names(old(self).auto_rows@).push(game.id@)
                && final(self).manual_rows == old(self).manual_rows,
    {
        let row = card(&game);
        if row.manual {
            let ghost m0 = names(self.manual_rows@);
            self.manual_rows.push(game.id.clone());
            assert(names(self.manual_rows@) =~= m0.push(game.id@));
        } else {
            let ghost a0 = names(self.auto_rows@);
            self.auto_rows.push(game.id.clone());
            assert(names(self.auto_rows@) =~= a0.push(game.id@));
        }
        self.games.push(game);
        self.has_manual = has_manual_game(&self.games);
        row
    }

    /// Removes a game's card: from the manual section if it is there, else
    /// from the auto-detected one. Returns the section it was removed from.
    pub fn remove_game(&mut self, id: String) -> (r: Option<ListSection>)
        ensures
            final(self).games@ == old(self).games@.filter(other_game(id@)),
            final(self).has_manual == any_manual(old(self).games@.filter(other_game(id@))),
            names(old(self).manual_rows@).contains(id@) ==> r == Some(ListSection::Manual)
                && names(final(self).manual_rows@) == crate::reshade::config::drop_name(names(old(self).manual_rows@), id@)
                && final(self).auto_rows == old(self).auto_rows,
            !names(old(self).manual_rows@).contains(id@) && names(old(self).auto_rows@).contains(id@) ==> r == Some(ListSection::Auto)
                && names(final(self).auto_rows@) == crate::reshade::config::drop_name(names(old(self).auto_rows@), id@)
                && final(self).manual_rows == old(self).manual_rows,
            !names(old(self).manual_rows@).contains(id@) && !names(old(self).auto_rows@).contains(id@) ==> r is None
                && final(self).auto_rows == old(self).auto_rows && final(self).manual_rows == old(self).manual_rows,
    {
        let r = if crate::reshade::config::contains_name(&self.manual_rows, id.as_str()) {
            self.manual_rows = crate::reshade::config::without_name(&self.manual_rows, id.as_str());
            Some(ListSection::Manual)
        } else if crate::reshade::config::contains_name(&self.auto_rows, id.as_str()) {
            self.auto_rows = crate::reshade::config::without_name(&self.auto_rows, id.as_str());
            Some(ListSection::Auto)
        } else {
            None
        };
        remove_game_by_id(&mut self.games, id.as_str());
        self.has_manual = has_manual_game(&self.games);
        r
    }

    /// The section of a game's card, when it has one (the auto-detected
    /// section is looked at first); its line then shows the new status.
    pub fn set_game_status(&self, id: &str) -> (r: Option<ListSection>)
        ensures
            names(self.auto_rows@).contains(id@) ==> r == Some(ListSection::Auto),
            !names(self.auto_rows@).contains(id@) && names(self.manual_rows@).contains(id@) ==> r == Some(ListSection::Manual),
            !names(self.auto_rows@).contains(id@) && !names(self.manual_rows@).contains(id@) ==> r is None,
    {
        if crate::reshade::config::contains_name(&self.auto_rows, id) {
            Some(ListSection::Auto)
        } else if crate::reshade::config::contains_name(&self.manual_rows, id) {
            Some(ListSection::Manual)
        } else {
            None
        }
    }
}

} // verus!
