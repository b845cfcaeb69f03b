use vstd::prelude::*;

use crate::models::{spec_name, Card, PlayedCard};
use crate::state::State;

verus! {

/// The decimal digits of `n`.
pub open spec fn decimal(n: nat) -> Seq<char>
    decreases n,
{
    if n < 10 {
        seq![digit_char(n)]
    } else {
        decimal(n / 10) + seq![digit_char(n % 10)]
    }
}

/// The character of the digit `d`.
pub open spec fn digit_char(d: nat) -> char {
    if d == 0 { '0' } else if d == 1 { '1' } else if d == 2 { '2' } else if d == 3 { '3' }
    else if d == 4 { '4' } else if d == 5 { '5' } else if d == 6 { '6' } else if d == 7 { '7' }
    else if d == 8 { '8' } else { '9' }
}

/// `c` as it appears inside a quoted string: quotes and backslashes are
/// escaped with a backslash.
pub open spec fn escaped_char(c: char) -> Seq<char> {
    if c == '"' || c == '\\' { seq!['\\', c] } else { seq![c] }
}

/// `s` with each character escaped.
pub open spec fn escaped(s: Seq<char>) -> Seq<char>
    decreases s.len(),
{
    if s.len() == 0 {
        Seq::empty()
    } else {
        escaped(s.drop_last()) + escaped_char(s.last())
    }
}

/// `s` in double quotes, escaped.
pub open spec fn quoted(s: Seq<char>) -> Seq<char> {
    seq!['"'] + escaped(s) + seq!['"']
}

/// The quoted items of `items`, separated by ", ".
pub open spec fn joined(items: Seq<Seq<char>>) -> Seq<char>
    decreases items.len(),
{
    if items.len() == 0 {
        Seq::empty()
    } else if items.len() == 1 {
        quoted(items[0])
    } else {
        joined(items.drop_last()) + seq![',', ' '] + quoted(items.last())
    }
}

/// A list of strings as written for debugging: in brackets, each quoted.
pub open spec fn list_text(items: Seq<Seq<char>>) -> Seq<char> {
    seq!['['] + joined(items) + seq![']']
}

/// The name of a Pokémon in play, its remaining hit points and the number of
/// energies attached, as in "Bulbasaur(70hp,2)"; empty for an empty slot.
pub open spec fn card_text(slot: Option<PlayedCard>) -> Seq<char> {
    match slot {
        None => Seq::empty(),
        Some(pc) => spec_name(pc.card.id) + seq!['('] + decimal(pc.remaining_hp as nat) + seq!['h', 'p', ',']
            + decimal(pc.attached_energy@.len()) + seq![')'],
    }
}

/// The texts of the slots of `slots`.
pub open spec fn slot_texts(slots: Seq<Option<PlayedCard>>) -> Seq<Seq<char>> {
    slots.map_values(|s: Option<PlayedCard>| card_text(s))
}

/// The contents of `strings`.
pub open spec fn texts(strings: Seq<String>) -> Seq<Seq<char>> {
    strings.map_values(|t: String| t@)
}

/// The names of `cards`.
pub open spec fn card_names(cards: Seq<Card>) -> Seq<Seq<char>> {
    cards.map_values(|c: Card| spec_name(c.id))
}

/// The string of a single character.
fn char_str(c: char) -> (r: &'static str)
    requires
        c == '"' || c == '\\' || ('0' <= c <= '9'),
    ensures
        r@ == seq![c],
{
    if c == '"' {
        proof { reveal_strlit("\""); }
        "\""
    } else if c == '\\' {
        proof { reveal_strlit("\\"); }
        "\\"
    } else {
        digit_str(c)
    }
}

/// The string of the digit character `c`.
fn digit_str(c: char) -> (r: &'static str)
    requires
        '0' <= c <= '9',
    ensures
        r@ == seq![c],
{
    proof {
        reveal_strlit("0"); reveal_strlit("1"); reveal_strlit("2"); reveal_strlit("3"); reveal_strlit("4");
        reveal_strlit("5"); reveal_strlit("6"); reveal_strlit("7"); reveal_strlit("8"); reveal_strlit("9");
    }
    if c == '0' { "0" } else if c == '1' { "1" } else if c == '2' { "2" } else if c == '3' { "3" }
    else if c == '4' { "4" } else if c == '5' { "5" } else if c == '6' { "6" } else if c == '7' { "7" }
    else if c == '8' { "8" } else { "9" }
}

/// The character of the digit `d`.
fn digit(d: u64) -> (c: char)
    requires
        d < 10,
    ensures
        c == digit_char(d as nat),
        '0' <= c <= '9',
{
    if d == 0 { '0' } else if d == 1 { '1' } else if d == 2 { '2' } else if d == 3 { '3' }
    else if d == 4 { '4' } else if d == 5 { '5' } else if d == 6 { '6' } else if d == 7 { '7' }
    else if d == 8 { '8' } else { '9' }
}

/// Appends the decimal digits of `n`.
fn push_decimal(out: &mut String, n: u64)
    ensures
        final(out)@ == old(out)@ + decimal(n as nat),
    decreases n,
{
    if n >= 10 {
        push_decimal(out, n / 10);
    }
    out.append(digit_str(digit(n % 10)));
    assert(final(out)@ =~= old(out)@ + decimal(n as nat));
}

/// Appends `s` quoted and escaped.
fn push_quoted(out: &mut String, s: &str)
    ensures
        final(out)@ == old(out)@ + quoted(s@),
{
    let ghost start = out@;
    out.append(char_str('"'));
    let n = s.unicode_len();
    let mut i: usize = 0;
    while i < n
        invariant
            n == s@.len(),
            i <= n,
            out@ == start + seq!['"'] + escaped(s@.take(i as int)),
        decreases n - i,
    {
        let c = s.get_char(i);
        if c == '"' || c == '\\' {
            out.append(char_str('\\'));
            out.append(char_str(c));
        } else {
            out.append(s.substring_char(i, i + 1));
        }
        assert(s@.take(i + 1).drop_last() == s@.take(i as int));
        assert(s@.take(i + 1).last() == c);
        assert(out@ =~= start + seq!['"'] + escaped(s@.take(i + 1)));
        i = i + 1;
    }
    assert(s@.take(n as int) == s@);
    out.append(char_str('"'));
    assert(out@ =~= start + quoted(s@));
}

/// Appends `items` as a list for debugging.
fn push_list(out: &mut String, items: &Vec<String>)
    ensures
        final(out)@ == old(out)@ + list_text(texts(items@)),
{
    let ghost start = out@;
    let ghost views = texts(items@);
    out.append("[");
    proof { reveal_strlit("["); reveal_strlit(", "); reveal_strlit("]"); }
    let mut i: usize = 0;
    while i < items.len()
        invariant
            i <= items@.len(),
            views == texts(items@),
            out@ == start + seq!['['] + joined(views.take(i as int)),
        decreases items@.len() - i,
    {
        proof { reveal_strlit(", "); }
        let ghost before = out@;
        if i > 0 {
            out.append(", ");
        }
        let ghost mid = out@;
        push_quoted(out, items[i].as_str());
        assert(views.take(i + 1).drop_last() == views.take(i as int));
        assert(views.take(i + 1).last() == items@[i as int]@);
        if i == 0 {
            assert(views.take(0) =~= Seq::<Seq<char>>::empty());
            assert(mid == before);
            assert(joined(views.take(1)) == quoted(items@[0]@));
            assert(out@ =~= start + seq!['['] + joined(views.take(i + 1)));
        } else {
            assert(mid == before + seq![',', ' ']);
            assert(joined(views.take(i + 1)) == joined(views.take(i as int)) + seq![',', ' '] + quoted(items@[i as int]@));
            assert(out@ =~= start + seq!['['] + joined(views.take(i + 1)));
        }
        i = i + 1;
    }
    assert(views.take(items@.len() as int) == views);
    out.append("]");
    assert(out@ =~= start + list_text(views));
}

/// The text of a slot of the board.
fn format_card(x: &Option<PlayedCard>) -> (r: String)
    ensures
        r@ == card_text(*x),
{
    match x {
        Some(played_card) => {
            let mut out = played_card.get_name();
            proof { reveal_strlit("("); reveal_strlit("hp,"); reveal_strlit(")"); }
            out.append("(");
            push_decimal(&mut out, played_card.get_remaining_hp() as u64);
            out.append("hp,");
            push_decimal(&mut out, played_card.attached_energy.len() as u64);
            out.append(")");
            out
        },
        None => String::new(),
    }
}

/// The texts of the slots of a side of the board.
fn format_cards(played_cards: &[Option<PlayedCard>; 4]) -> (r: Vec<String>)
    ensures
        texts(r@) == slot_texts(played_cards@),
{
    let mut out: Vec<String> = Vec::new();
    let mut i: usize = 0;
    while i < 4
        invariant
            i <= 4,
            texts(out@) == slot_texts(played_cards@.take(i as int)),
        decreases 4 - i,
    {
        let ghost prev = out@;
        let text = format_card(&played_cards[i]);
        let ghost tv = text@;
        let ghost tx = text;
        out.push(text);
        assert(prev.len() == texts(prev).len());
        assert(out@ == prev.push(tx));
        assert forall|j: int| 0 <= j < i + 1 implies #[trigger] texts(out@)[j]
            == slot_texts(played_cards@.take(i + 1))[j] by {
            if j < i {
                assert(texts(prev)[j] == slot_texts(played_cards@.take(i as int))[j]);
                assert(out@[j] == prev[j]);
            } else {
                assert(out@[j]@ == tv);
            }
        }
        assert(texts(out@) =~= slot_texts(played_cards@.take(i + 1)));
        i = i + 1;
    }
    assert(played_cards@.take(4) == played_cards@);
    out
}

/// The name under which a card is listed.
fn canonical_name(card: &Card) -> (r: String)
    ensures
        r@ == spec_name(card.id),
{
    card.get_name()
}

/// The names of `cards`.
fn to_canonical_names(cards: &Vec<Card>) -> (r: Vec<String>)
    ensures
        texts(r@) == card_names(cards@),
{
    let mut out: Vec<String> = Vec::new();
    let mut i: usize = 0;
    while i < cards.len()
        invariant
            i <= cards@.len(),
            texts(out@) == card_names(cards@.take(i as int)),
        decreases cards@.len() - i,
    {
        let ghost prev = out@;
        let name = canonical_name(&cards[i]);
        let ghost nv = name@;
        let ghost nx = name;
        out.push(name);
        assert(prev.len() == texts(prev).len());
        assert(out@ == prev.push(nx));
        assert forall|j: int| 0 <= j < i + 1 implies #[trigger] texts(out@)[j]
            == card_names(cards@.take(i + 1))[j] by {
            if j < i {
                assert(texts(prev)[j] == card_names(cards@.take(i as int))[j]);
                assert(out@[j] == prev[j]);
            } else {
                assert(out@[j]@ == nv);
            }
        }
        assert(texts(out@) =~= card_names(cards@.take(i + 1)));
        i = i + 1;
    }
    assert(cards@.take(cards@.len() as int) == cards@);
    out
}

/// The text of `state` for debugging: each player's hand and Pokémon in play.
pub open spec fn debug_text(state: State) -> Seq<char> {
    "P1 Hand:\t"@ + list_text(card_names(state.hands[0]@))
        + "\nP1 InPlay:\t"@ + list_text(slot_texts(state.in_play_pokemon[0]@))
        + "\nP2 InPlay:\t"@ + list_text(slot_texts(state.in_play_pokemon[1]@))
        + "\nP2 Hand:\t"@ + list_text(card_names(state.hands[1]@))
}

impl State {
    /// The hands and the Pokémon in play of both players, for debugging.
    pub fn debug_string(&self) -> (r: String)
        ensures
            r@ == debug_text(*self),
    {
        let mut out = String::new();
        out.append("P1 Hand:\t");
        push_list(&mut out, &to_canonical_names(&self.hands[0]));
        out.append("\nP1 InPlay:\t");
        push_list(&mut out, &format_cards(&self.in_play_pokemon[0]));
        out.append("\nP2 InPlay:\t");
        push_list(&mut out, &format_cards(&self.in_play_pokemon[1]));
        out.append("\nP2 Hand:\t");
        push_list(&mut out, &to_canonical_names(&self.hands[1]));
        assert(out@ =~= debug_text(*self));
        out
    }
}

} // verus!
