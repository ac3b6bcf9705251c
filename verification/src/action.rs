use vstd::prelude::*;
use crate::color::{Color, Player};
use crate::board::Point;
use crate::text::{
    chars_of, decimal, digit_char, parse_usize, split_words, usize_from_text, views, words,
};

verus! {

/// Describes the contents of an action.
#[derive(Clone, Copy, PartialEq, Eq, Debug, Structural)]
pub enum ActionKind {
    Place(Point),
    Move(Point, Point),
    Remove(Point),
}

/// An action taken by a player.
#[derive(Clone, Copy, PartialEq, Eq, Debug, Structural)]
pub struct Action {
    pub player: Player,
    pub action: ActionKind,
}

/// The letter that names a player in an action's text.
pub open spec fn player_letter(p: Player) -> char {
    match p {
        Color::White => 'W',
        Color::Black => 'B',
    }
}

/// The player that a word names, if any.
pub open spec fn player_from_word(w: Seq<char>) -> Option<Player> {
    if w == seq!['W'] {
        Some(Color::White)
    } else if w == seq!['B'] {
        Some(Color::Black)
    } else {
        None
    }
}

/// What reading `s` as an action gives: words separated by white space,
/// the player (`W` or `B`), the kind (`P`, `M` or `R`) and its points,
/// such as "W P 0", "B M 0 1" or "W R 5".
pub open spec fn action_from_text(s: Seq<char>) -> Result<Action, &'static str> {
    let parts = words(s);
    if parts.len() < 3 {
        Err("Invalid action format")
    } else {
        match player_from_word(parts[0]) {
            None => Err("Invalid player"),
            Some(player) => {
                if parts[1] == seq!['P'] {
                    match usize_from_text(parts[2]) {
                        Some(p) => Ok(Action { player, action: ActionKind::Place(p) }),
                        None => Err("Invalid point"),
                    }
                } else if parts[1] == seq!['M'] {
                    if parts.len() != 4 {
                        Err("Invalid move format")
                    } else {
                        match usize_from_text(parts[2]) {
                            None => Err("Invalid from point"),
                            Some(from) => match usize_from_text(parts[3]) {
                                None => Err("Invalid to point"),
                                Some(to) => Ok(Action { player, action: ActionKind::Move(from, to) }),
                            },
                        }
                    }
                } else if parts[1] == seq!['R'] {
                    match usize_from_text(parts[2]) {
                        Some(p) => Ok(Action { player, action: ActionKind::Remove(p) }),
                        None => Err("Invalid point"),
                    }
                } else {
                    Err("Invalid action type")
                }
            },
        }
    }
}

/// The text of an action: "W P 0", "B M 0 1", "W R 5".
pub open spec fn action_text(a: Action) -> Seq<char> {
    seq![player_letter(a.player), ' '] + match a.action {
        ActionKind::Place(p) => seq!['P', ' '] + decimal(p as nat),
        ActionKind::Move(from, to) => seq!['M', ' '] + decimal(from as nat) + seq![' '] + decimal(to as nat),
        ActionKind::Remove(p) => seq!['R', ' '] + decimal(p as nat),
    }
}

/// Whether word `w` is the single character `c`.
fn is_letter(w: &Vec<char>, c: char) -> (r: bool)
    ensures
        r == (w@ == seq![c]),
{
    if w.len() == 1 && w[0] == c {
        assert(w@ =~= seq![c]);
        true
    } else {
        false
    }
}

/// The one-character text of digit `d`.
fn digit_str(d: usize) -> (r: &'static str)
    requires
        d < 10,
    ensures
        r@ == seq![digit_char(d as nat)],
{
    match d {
        0 => { proof { reveal_strlit("0"); } "0" },
        1 => { proof { reveal_strlit("1"); } "1" },
        2 => { proof { reveal_strlit("2"); } "2" },
        3 => { proof { reveal_strlit("3"); } "3" },
        4 => { proof { reveal_strlit("4"); } "4" },
        5 => { proof { reveal_strlit("5"); } "5" },
        6 => { proof { reveal_strlit("6"); } "6" },
        7 => { proof { reveal_strlit("7"); } "7" },
        8 => { proof { reveal_strlit("8"); } "8" },
        _ => { proof { reveal_strlit("9"); } "9" },
    }
}

/// Appends the decimal digits of `n` to `s`.
fn push_decimal(s: &mut String, n: usize)
    ensures
        final(s)@ == old(s)@ + decimal(n as nat),
    decreases n,
{
    if n >= 10 {
        push_decimal(s, n / 10);
    }
    s.append(digit_str(n % 10));
    proof {
        if n >= 10 {
            assert(old(s)@ + decimal(n as nat) =~= old(s)@ + decimal((n / 10) as nat) + seq![digit_char((n % 10) as nat)]);
        } else {
            assert(old(s)@ + decimal(n as nat) =~= old(s)@ + seq![digit_char((n % 10) as nat)]);
        }
    }
}

impl Action {
    /// Reads an action from text. Example inputs:
    /// "W P 0" - White places at 0;
    /// "B M 0 1" - Black moves from 0 to 1;
    /// "W R 5" - White removes at 5.
    pub fn parse(s: &str) -> (r: Result<Action, &'static str>)
        ensures
            r == action_from_text(s@),
    {
        let chars = chars_of(s);
        let parts = split_words(&chars);
        proof {
            assert(views(parts@).len() == parts@.len());
        }
        if parts.len() < 3 {
            return Err("Invalid action format");
        }
        proof {
            assert(views(parts@)[0] == parts@[0]@);
            assert(views(parts@)[1] == parts@[1]@);
            assert(views(parts@)[2] == parts@[2]@);
        }
        let player = if is_letter(&parts[0], 'W') {
            Color::White
        } else if is_letter(&parts[0], 'B') {
            Color::Black
        } else {
            return Err("Invalid player");
        };
        let action = if is_letter(&parts[1], 'P') {
            let point = match parse_usize(&parts[2]) {
                Some(p) => p,
                None => return Err("Invalid point"),
            };
            ActionKind::Place(point)
        } else if is_letter(&parts[1], 'M') {
            if parts.len() != 4 {
                return Err("Invalid move format");
            }
            proof {
                assert(views(parts@)[3] == parts@[3]@);
            }
            let from = match parse_usize(&parts[2]) {
                Some(p) => p,
                None => return Err("Invalid from point"),
            };
            let to = match parse_usize(&parts[3]) {
                Some(p) => p,
                None => return Err("Invalid to point"),
            };
            ActionKind::Move(from, to)
        } else if is_letter(&parts[1], 'R') {
            let point = match parse_usize(&parts[2]) {
                Some(p) => p,
                None => return Err("Invalid point"),
            };
            ActionKind::Remove(point)
        } else {
            return Err("Invalid action type");
        };
        Ok(Action { player, action })
    }

    /// The text of this action, in the form that `parse` reads.
    pub fn to_string(&self) -> (r: String)
        ensures
            r@ == action_text(*self),
    {
        let mut s = String::new();
        match self.player {
            Color::White => {
                s.append("W ");
                proof { reveal_strlit("W "); }
            },
            Color::Black => {
                s.append("B ");
                proof { reveal_strlit("B "); }
            },
        }
        let ghost head = s@;
        match self.action {
            ActionKind::Place(p) => {
                s.append("P ");
                proof { reveal_strlit("P "); }
                push_decimal(&mut s, p);
                proof { assert(s@ =~= head + (seq!['P', ' '] + decimal(p as nat))); }
            },
            ActionKind::Move(from, to) => {
                s.append("M ");
                proof { reveal_strlit("M "); }
                push_decimal(&mut s, from);
                s.append(" ");
                proof { reveal_strlit(" "); }
                push_decimal(&mut s, to);
                proof {
                    assert(s@ =~= head + (seq!['M', ' '] + decimal(from as nat) + seq![' '] + decimal(to as nat)));
                }
            },
            ActionKind::Remove(p) => {
                s.append("R ");
                proof { reveal_strlit("R "); }
                push_decimal(&mut s, p);
                proof { assert(s@ =~= head + (seq!['R', ' '] + decimal(p as nat))); }
            },
        }
        s
    }
}

impl std::str::FromStr for Action {
    type Err = &'static str;

    fn from_str(s: &str) -> (r: Result<Self, Self::Err>)
        ensures
            r == action_from_text(s@),
    {
        Action::parse(s)
    }
}

} // verus!
