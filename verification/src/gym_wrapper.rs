use vstd::prelude::*;

use crate::actions::{Action, SimpleAction};
use crate::hooks::{count_energy, count_energy_exec, typed_energy};
use crate::models::{spec_card_number, spec_trainer_type, Card, EnergyType, PlayedCard, TrainerType};
use crate::move_generation::{generate_possible_actions, possible_actions};
use crate::state::{GameOutcome, State};

// The integer side of the observations handed to learning agents: indices
// of energy types, the type an attack mostly needs, the order in which the
// hand is shown and the mask of valid actions.

verus! {

/// The index of an energy type in encoded observations: Grass 0, Fire 1,
/// Water 2, Lightning 3, Psychic 4, Fighting 5, Darkness 6, Metal 7,
/// Dragon 8, Colorless 9.
pub open spec fn energy_index(e: EnergyType) -> int {
    match e {
        EnergyType::Grass => 0,
        EnergyType::Fire => 1,
        EnergyType::Water => 2,
        EnergyType::Lightning => 3,
        EnergyType::Psychic => 4,
        EnergyType::Fighting => 5,
        EnergyType::Darkness => 6,
        EnergyType::Metal => 7,
        EnergyType::Dragon => 8,
        EnergyType::Colorless => 9,
    }
}

/// The index of an energy type in encoded observations.
pub fn energy_type_to_idx(e: EnergyType) -> (r: usize)
    ensures
        r == energy_index(e),
        r < 10,
{
    match e {
        EnergyType::Grass => 0,
        EnergyType::Fire => 1,
        EnergyType::Water => 2,
        EnergyType::Lightning => 3,
        EnergyType::Psychic => 4,
        EnergyType::Fighting => 5,
        EnergyType::Darkness => 6,
        EnergyType::Metal => 7,
        EnergyType::Dragon => 8,
        EnergyType::Colorless => 9,
    }
}

/// How many energies of the type with index `i` a cost requires; Colorless
/// requirements are not counted.
pub open spec fn cost_count(cost: Seq<EnergyType>, i: int) -> nat {
    if 0 <= i < 9 { count_energy(cost, typed_energy(i)) } else { 0 }
}

/// Whether `r` is the index of the type that `cost` requires most, apart
/// from Colorless, the highest such index on ties; 9 (Colorless) when the
/// cost requires no other type.
pub open spec fn is_primary_index(cost: Seq<EnergyType>, r: int) -> bool {
    if forall|i: int| 0 <= i < 10 ==> #[trigger] cost_count(cost, i) == 0 {
        r == 9
    } else {
        &&& 0 <= r < 10
        &&& forall|j: int| 0 <= j < 10 ==> #[trigger] cost_count(cost, j) <= cost_count(cost, r)
        &&& forall|j: int| r < j < 10 ==> #[trigger] cost_count(cost, j) < cost_count(cost, r)
    }
}

/// The index of the type an attack with this cost mostly needs.
pub fn primary_energy_idx(energy_required: &Vec<EnergyType>) -> (r: usize)
    ensures
        is_primary_index(energy_required@, r as int),
        r < 10,
{
    let mut counts: Vec<usize> = Vec::new();
    let mut t: usize = 0;
    while t < 9
        invariant
            t <= 9,
            counts@.len() == t,
            forall|i: int| 0 <= i < t ==> counts@[i] == cost_count(energy_required@, i),
        decreases 9 - t,
    {
        let e = typed(t);
        counts.push(count_energy_exec(energy_required, e));
        t = t + 1;
    }
    counts.push(0);
    assert(counts@[9] == cost_count(energy_required@, 9));
    let mut best: usize = 0;
    let mut j: usize = 1;
    while j < 10
        invariant
            1 <= j <= 10,
            best < j,
            counts@.len() == 10,
            forall|i: int| 0 <= i < 10 ==> counts@[i] == cost_count(energy_required@, i),
            forall|i: int| 0 <= i < j ==> counts@[i] <= counts@[best as int],
            forall|i: int| best < i < j ==> counts@[i] < counts@[best as int],
        decreases 10 - j,
    {
        if counts[j] >= counts[best] {
            best = j;
        }
        j = j + 1;
    }
    if counts[best] == 0 {
        assert forall|i: int| 0 <= i < 10 implies #[trigger] cost_count(energy_required@, i) == 0 by {
            assert(counts@[i] <= counts@[best as int]);
        }
        9
    } else {
        proof {
            assert(cost_count(energy_required@, best as int) > 0);
            assert forall|j: int| 0 <= j < 10 implies #[trigger] cost_count(energy_required@, j)
                <= cost_count(energy_required@, best as int) by {
                assert(counts@[j] <= counts@[best as int]);
            }
            assert forall|j: int| best < j < 10 implies #[trigger] cost_count(energy_required@, j)
                < cost_count(energy_required@, best as int) by {
                assert(counts@[j] < counts@[best as int]);
            }
        }
        best
    }
}

/// The energy type with index `i` among the first nine.
fn typed(i: usize) -> (r: EnergyType)
    requires
        i < 9,
    ensures
        r == typed_energy(i as int),
{
    match i {
        0 => EnergyType::Grass,
        1 => EnergyType::Fire,
        2 => EnergyType::Water,
        3 => EnergyType::Lightning,
        4 => EnergyType::Psychic,
        5 => EnergyType::Fighting,
        6 => EnergyType::Darkness,
        7 => EnergyType::Metal,
        _ => EnergyType::Dragon,
    }
}

/// The rank of a card's kind in the hand order: Pokémon, then Supporter,
/// Item, Tool, Stadium and Fossil.
pub open spec fn kind_rank(card: Card) -> u8 {
    match spec_trainer_type(card.id) {
        None => 0,
        Some(TrainerType::Supporter) => 1,
        Some(TrainerType::Item) => 2,
        Some(TrainerType::Tool) => 3,
        Some(TrainerType::Stadium) => 4,
        Some(TrainerType::Fossil) => 5,
    }
}

/// The key by which the hand is ordered: playable cards first, then by kind,
/// then by card number.
pub fn hand_sort_key(card: &Card, is_playable: bool) -> (r: (u8, u8, String))
    ensures
        r.0 == (if is_playable { 0u8 } else { 1u8 }),
        r.1 == kind_rank(*card),
        r.2@ == spec_card_number(card.id),
{
    let p: u8 = if is_playable { 0 } else { 1 };
    let t: u8 = match card.trainer_type() {
        None => 0,
        Some(TrainerType::Supporter) => 1,
        Some(TrainerType::Item) => 2,
        Some(TrainerType::Tool) => 3,
        Some(TrainerType::Stadium) => 4,
        Some(TrainerType::Fossil) => 5,
    };
    (p, t, card.get_id())
}

/// The number of the card that an action puts into play from the hand.
pub open spec fn placed_number(action: Action) -> Option<Seq<char>> {
    match action.action {
        SimpleAction::Place(card, _) => Some(spec_card_number(card.id)),
        _ => None,
    }
}

/// Whether `ids` lists each number of a card that the first `n` actions put
/// into play from the hand, once, and nothing else.
pub open spec fn lists_played(ids: Seq<String>, actions: Seq<Action>, n: int) -> bool {
    &&& forall|k: int| 0 <= k < ids.len() ==>
        exists|a: int| 0 <= a < n && placed_number(#[trigger] actions[a]) == Some((#[trigger] ids[k])@)
    &&& forall|a: int| 0 <= a < n && (#[trigger] placed_number(actions[a])) is Some ==>
        exists|k: int| 0 <= k < ids.len() && placed_number(actions[a]) == Some((#[trigger] ids[k])@)
    &&& forall|k: int, l: int| 0 <= k < l < ids.len() ==> (#[trigger] ids[k])@ != (#[trigger] ids[l])@
}

/// The numbers of the cards that the actions put into play from the hand,
/// each once, in the order they first appear.
pub fn playable_hand_card_ids(possible_actions: &Vec<Action>) -> (r: Vec<String>)
    ensures
        lists_played(r@, possible_actions@, possible_actions@.len() as int),
{
    let mut ids: Vec<String> = Vec::new();
    let mut a: usize = 0;
    while a < possible_actions.len()
        invariant
            a <= possible_actions@.len(),
            lists_played(ids@, possible_actions@, a as int),
        decreases possible_actions@.len() - a,
    {
        let ghost before = ids@;
        if let SimpleAction::Place(card, _) = possible_actions[a].action {
            let id = card.get_id();
            let mut seen = false;
            let mut k: usize = 0;
            while k < ids.len()
                invariant
                    k <= ids@.len(),
                    ids@ == before,
                    seen <==> exists|m: int| 0 <= m < k && (#[trigger] ids@[m])@ == id@,
                decreases ids@.len() - k,
            {
                if ids[k] == id {
                    seen = true;
                }
                k = k + 1;
            }
            if !seen {
                let ghost idv = id@;
                ids.push(id);
                assert(placed_number(possible_actions@[a as int]) == Some(idv));
                assert forall|k: int| 0 <= k < ids@.len() implies
                    exists|b: int| 0 <= b < a + 1 && placed_number(#[trigger] possible_actions@[b]) == Some((#[trigger] ids@[k])@) by {
                    if k < before.len() {
                        assert(ids@[k] == before[k]);
                    } else {
                        assert(ids@[k]@ == idv);
                    }
                }
                assert forall|b: int| 0 <= b < a + 1 && (#[trigger] placed_number(possible_actions@[b])) is Some implies
                    exists|k: int| 0 <= k < ids@.len() && placed_number(possible_actions@[b]) == Some((#[trigger] ids@[k])@) by {
                    if b < a {
                        let k = choose|k: int| 0 <= k < before.len() && placed_number(possible_actions@[b]) == Some((#[trigger] before[k])@);
                        assert(ids@[k] == before[k]);
                    } else {
                        assert(ids@[before.len() as int]@ == idv);
                    }
                }
                assert forall|k: int, l: int| 0 <= k < l < ids@.len() implies (#[trigger] ids@[k])@ != (#[trigger] ids@[l])@ by {
                    if l == before.len() {
                        assert(ids@[k] == before[k]);
                    } else {
                        assert(ids@[k] == before[k]);
                        assert(ids@[l] == before[l]);
                    }
                }
            } else {
                let ghost m = choose|m: int| 0 <= m < ids@.len() && (#[trigger] ids@[m])@ == id@;
                assert(placed_number(possible_actions@[a as int]) == Some(id@));
                assert forall|k: int| 0 <= k < ids@.len() implies
                    exists|b: int| 0 <= b < a + 1 && placed_number(#[trigger] possible_actions@[b]) == Some((#[trigger] ids@[k])@) by {
                    let b = choose|b: int| 0 <= b < a && placed_number(#[trigger] possible_actions@[b]) == Some(ids@[k]@);
                }
            }
        } else {
            assert(placed_number(possible_actions@[a as int]) is None);
            assert forall|k: int| 0 <= k < ids@.len() implies
                exists|b: int| 0 <= b < a + 1 && placed_number(#[trigger] possible_actions@[b]) == Some((#[trigger] ids@[k])@) by {
                let b = choose|b: int| 0 <= b < a && placed_number(#[trigger] possible_actions@[b]) == Some(ids@[k]@);
            }
        }
        a = a + 1;
    }
    ids
}

/// The action mask: one entry per action slot, 1 for the slots that hold an
/// offered action, 0 for the others.
pub fn build_mask(possible_actions: &Vec<Action>, max_actions: usize) -> (r: Vec<i8>)
    ensures
        r@.len() == max_actions,
        forall|i: int| 0 <= i < max_actions ==> #[trigger] r@[i] == if i < possible_actions@.len() { 1i8 } else { 0i8 },
{
    let mut mask: Vec<i8> = Vec::new();
    let mut i: usize = 0;
    while i < max_actions
        invariant
            i <= max_actions,
            mask@.len() == i,
            forall|j: int| 0 <= j < i ==> #[trigger] mask@[j] == if j < possible_actions@.len() { 1i8 } else { 0i8 },
        decreases max_actions - i,
    {
        if i < possible_actions.len() {
            mask.push(1);
        } else {
            mask.push(0);
        }
        i = i + 1;
    }
    mask
}

} // verus!

verus! {

broadcast use {vstd::seq_lib::group_to_multiset_ensures, vstd::multiset::group_multiset_axioms};

/// Whether `a` comes before `b` in lexicographic order of characters.
pub open spec fn chars_lt(a: Seq<char>, b: Seq<char>) -> bool
    decreases a.len(),
{
    if a.len() == 0 {
        b.len() > 0
    } else if b.len() == 0 {
        false
    } else if a[0] == b[0] {
        chars_lt(a.drop_first(), b.drop_first())
    } else {
        a[0] < b[0]
    }
}

proof fn lemma_chars_lt_order(a: Seq<char>, b: Seq<char>, c: Seq<char>)
    ensures
        !chars_lt(a, a),
        chars_lt(a, b) ==> !chars_lt(b, a),
        a != b ==> chars_lt(a, b) || chars_lt(b, a),
        chars_lt(a, b) && chars_lt(b, c) ==> chars_lt(a, c),
    decreases a.len(),
{
    if a.len() > 0 && b.len() > 0 && c.len() > 0 {
        lemma_chars_lt_order(a.drop_first(), b.drop_first(), c.drop_first());
        if a != b && a[0] == b[0] {
            assert(a.drop_first() != b.drop_first()) by {
                if a.drop_first() == b.drop_first() {
                    assert(a =~= seq![a[0]] + a.drop_first());
                    assert(b =~= seq![b[0]] + b.drop_first());
                }
            }
        }
    } else if a.len() > 0 && b.len() > 0 {
        lemma_chars_lt_order(a.drop_first(), b.drop_first(), a.drop_first());
        if a != b && a[0] == b[0] {
            assert(a.drop_first() != b.drop_first()) by {
                if a.drop_first() == b.drop_first() {
                    assert(a =~= seq![a[0]] + a.drop_first());
                    assert(b =~= seq![b[0]] + b.drop_first());
                }
            }
        }
    } else if a.len() > 0 {
        lemma_chars_lt_order(a.drop_first(), a.drop_first(), a.drop_first());
    } else if b.len() == 0 {
        assert(a =~= b);
    }
}

/// The key of a hand entry as a value: playable first, then by kind, then by
/// card number.
pub open spec fn entry_key(e: (Card, bool)) -> (u8, u8, Seq<char>) {
    (if e.1 { 0u8 } else { 1u8 }, kind_rank(e.0), spec_card_number(e.0.id))
}

/// Whether key `a` comes strictly before key `b`.
pub open spec fn key_lt(a: (u8, u8, Seq<char>), b: (u8, u8, Seq<char>)) -> bool {
    ||| a.0 < b.0
    ||| a.0 == b.0 && a.1 < b.1
    ||| a.0 == b.0 && a.1 == b.1 && chars_lt(a.2, b.2)
}

proof fn lemma_key_order(a: (u8, u8, Seq<char>), b: (u8, u8, Seq<char>), c: (u8, u8, Seq<char>))
    ensures
        !key_lt(a, a),
        key_lt(a, b) ==> !key_lt(b, a),
        a != b ==> key_lt(a, b) || key_lt(b, a),
        key_lt(a, b) && key_lt(b, c) ==> key_lt(a, c),
{
    lemma_chars_lt_order(a.2, b.2, c.2);
}

/// Whether the entries are in key order.
pub open spec fn sorted_by_key(s: Seq<(Card, bool)>) -> bool {
    forall|i: int, j: int| 0 <= i < j < s.len() ==> !key_lt(entry_key(#[trigger] s[j]), entry_key(#[trigger] s[i]))
}

/// Whether a card number is among `ids`.
pub open spec fn listed_id(ids: Seq<String>, number: Seq<char>) -> bool {
    exists|k: int| 0 <= k < ids.len() && (#[trigger] ids[k])@ == number
}

/// The hand entries: each card with whether its number is among the playable
/// ones.
pub open spec fn hand_entries(hand: Seq<Card>, ids: Seq<String>) -> Seq<(Card, bool)> {
    hand.map_values(|c: Card| (c, listed_id(ids, spec_card_number(c.id))))
}

/// The characters of a card number, the key of a hand entry.
fn entry_key_exec(e: &(Card, bool)) -> (r: (u8, u8, Vec<char>))
    ensures
        (r.0, r.1, r.2@) == entry_key(*e),
{
    let (p, t, number) = hand_sort_key(&e.0, e.1);
    (p, t, crate::text::chars_of(number.as_str()))
}

/// Whether key `a` comes strictly before key `b`.
fn key_less(a: &(u8, u8, Vec<char>), b: &(u8, u8, Vec<char>)) -> (r: bool)
    ensures
        r == key_lt((a.0, a.1, a.2@), (b.0, b.1, b.2@)),
{
    if a.0 != b.0 {
        return a.0 < b.0;
    }
    if a.1 != b.1 {
        return a.1 < b.1;
    }
    let x = &a.2;
    let y = &b.2;
    let mut i: usize = 0;
    assert(x@.skip(0) =~= x@ && y@.skip(0) =~= y@);
    while i < x.len() && i < y.len() && x[i] == y[i]
        invariant
            i <= x@.len(),
            i <= y@.len(),
            chars_lt(x@, y@) == chars_lt(x@.skip(i as int), y@.skip(i as int)),
        decreases x@.len() - i,
    {
        assert(x@.skip(i as int).drop_first() =~= x@.skip(i + 1));
        assert(y@.skip(i as int).drop_first() =~= y@.skip(i + 1));
        i = i + 1;
    }
    if i == x.len() {
        i < y.len()
    } else if i == y.len() {
        false
    } else {
        x[i] < y[i]
    }
}

/// Whether a card number is among `ids`.
fn listed_id_exec(ids: &Vec<String>, number: &String) -> (r: bool)
    ensures
        r == listed_id(ids@, number@),
{
    let mut k: usize = 0;
    while k < ids.len()
        invariant
            k <= ids@.len(),
            forall|m: int| 0 <= m < k ==> (#[trigger] ids@[m])@ != number@,
        decreases ids@.len() - k,
    {
        if ids[k] == *number {
            return true;
        }
        k = k + 1;
    }
    false
}

/// The hand in the order it is shown: each card with whether it is playable
/// (its number is among `playable_ids`), playable cards first, then by kind,
/// then by card number. Entries with the same key are the same card with the
/// same flag.
pub fn sorted_hand(hand: &Vec<Card>, playable_ids: &Vec<String>) -> (r: Vec<(Card, bool)>)
    ensures
        r@.to_multiset() == hand_entries(hand@, playable_ids@).to_multiset(),
        sorted_by_key(r@),
{
    let ghost entries = hand_entries(hand@, playable_ids@);
    let mut out: Vec<(Card, bool)> = Vec::new();
    let mut keys: Vec<(u8, u8, Vec<char>)> = Vec::new();
    let mut h: usize = 0;
    while h < hand.len()
        invariant
            h <= hand@.len(),
            entries == hand_entries(hand@, playable_ids@),
            out@.len() == keys@.len(),
            forall|k: int| 0 <= k < keys@.len() ==> (keys@[k].0, keys@[k].1, keys@[k].2@) == entry_key(#[trigger] out@[k]),
            out@.to_multiset() == entries.take(h as int).to_multiset(),
            sorted_by_key(out@),
        decreases hand@.len() - h,
    {
        let card = hand[h];
        let playable = listed_id_exec(playable_ids, &card.get_id());
        let e = (card, playable);
        assert(e == entries[h as int]);
        let key = entry_key_exec(&e);
        let ghost ek = entry_key(e);
        let mut pos: usize = 0;
        while pos < keys.len() && !key_less(&key, &keys[pos])
            invariant
                pos <= keys@.len(),
                out@.len() == keys@.len(),
                (key.0, key.1, key.2@) == ek,
                forall|k: int| 0 <= k < keys@.len() ==> (keys@[k].0, keys@[k].1, keys@[k].2@) == entry_key(#[trigger] out@[k]),
                forall|k: int| 0 <= k < pos ==> !key_lt(ek, entry_key(#[trigger] out@[k])),
            decreases keys@.len() - pos,
        {
            pos = pos + 1;
        }
        let ghost before = out@;
        proof {
            assert forall|i: int, j: int| 0 <= i < j < before.len() + 1 implies
                !key_lt(entry_key(#[trigger] before.insert(pos as int, e)[j]), entry_key(#[trigger] before.insert(pos as int, e)[i])) by {
                let s = before.insert(pos as int, e);
                if j < pos {
                    assert(s[i] == before[i] && s[j] == before[j]);
                } else if j == pos {
                    assert(s[i] == before[i]);
                    assert(!key_lt(ek, entry_key(before[i])));
                } else if i < pos {
                    assert(s[i] == before[i] && s[j] == before[j - 1]);
                } else if i == pos {
                    assert(s[j] == before[j - 1]);
                    assert(key_lt(ek, entry_key(before[pos as int])));
                    if j - 1 > pos {
                        assert(!key_lt(entry_key(before[j - 1]), entry_key(before[pos as int])));
                    }
                    lemma_key_order(ek, entry_key(before[pos as int]), entry_key(before[j - 1]));
                    lemma_key_order(entry_key(before[pos as int]), entry_key(before[j - 1]), ek);
                    lemma_key_order(entry_key(before[j - 1]), entry_key(before[pos as int]), ek);
                } else {
                    assert(s[i] == before[i - 1] && s[j] == before[j - 1]);
                }
            }
        }
        out.insert(pos, e);
        keys.insert(pos, key);
        proof {
            assert(entries.take(h + 1) =~= entries.take(h as int).push(e));
            assert(out@.to_multiset() == before.to_multiset().insert(e)) by {
                vstd::seq_lib::to_multiset_insert(before, pos as int, e);
            }
            assert forall|k: int| 0 <= k < keys@.len() implies (keys@[k].0, keys@[k].1, keys@[k].2@) == entry_key(#[trigger] out@[k]) by {
                if k < pos {
                } else if k == pos {
                } else {
                }
            }
        }
        h = h + 1;
    }
    assert(entries.take(hand@.len() as int) =~= entries);
    out
}

} // verus!

verus! {

/// Number of energies attached to the Pokémon in the slots `0..n`.
pub open spec fn energy_in_slots(slots: Seq<Option<PlayedCard>>, n: int) -> nat
    decreases n,
{
    if n <= 0 {
        0
    } else {
        energy_in_slots(slots, n - 1) + match slots[n - 1] {
            Some(pc) => pc.attached_energy@.len(),
            None => 0,
        }
    }
}

/// Number of energies attached to `player`'s Pokémon in play.
pub fn energy_in_play(state: &State, player: usize) -> (r: u128)
    requires
        player < 2,
    ensures
        r == energy_in_slots(state.in_play_pokemon[player as int]@, 4),
{
    let mut total: u128 = 0;
    let mut i: usize = 0;
    while i < 4
        invariant
            player < 2,
            i <= 4,
            total == energy_in_slots(state.in_play_pokemon[player as int]@, i as int),
            total <= i * 0xffff_ffff_ffff_ffffu128,
        decreases 4 - i,
    {
        if let Some(pc) = &state.in_play_pokemon[player][i] {
            total = total + pc.attached_energy.len() as u128;
        }
        i = i + 1;
    }
    total
}

/// Whether a card is a Pokémon (`pokemon`) or a Supporter.
pub open spec fn kind_pred(pokemon: bool) -> spec_fn(Card) -> bool {
    if pokemon {
        |c: Card| c.is_pokemon_spec()
    } else {
        |c: Card| c.is_support_spec()
    }
}

/// Number of the Pokémon cards (`pokemon`) or of the Supporter cards of
/// `cards`.
fn count_kind(cards: &Vec<Card>, pokemon: bool) -> (r: usize)
    ensures
        r == cards@.filter(kind_pred(pokemon)).len(),
{
    let ghost pred = kind_pred(pokemon);
    let mut count: usize = 0;
    let mut i: usize = 0;
    while i < cards.len()
        invariant
            i <= cards@.len(),
            pred == kind_pred(pokemon),
            count == cards@.take(i as int).filter(pred).len(),
            count <= i,
        decreases cards@.len() - i,
    {
        let c = cards[i];
        let keep = if pokemon { c.is_pokemon() } else { c.is_support() };
        proof {
            assert(cards@.take(i + 1) == cards@.take(i as int).push(c));
            cards@.take(i as int).lemma_filter_push(c, pred);
        }
        if keep {
            count = count + 1;
        }
        i = i + 1;
    }
    assert(cards@.take(cards@.len() as int) == cards@);
    count
}

/// Number of Pokémon cards in `player`'s discard pile.
pub fn discarded_pokemon_count(state: &State, player: usize) -> (r: usize)
    requires
        player < 2,
    ensures
        r == state.discard_piles[player as int]@.filter(|c: Card| c.is_pokemon_spec()).len(),
{
    let r = count_kind(&state.discard_piles[player], true);
    assert(kind_pred(true) =~= (|c: Card| c.is_pokemon_spec()));
    r
}

/// Number of Supporter cards in `player`'s discard pile.
pub fn discarded_supporter_count(state: &State, player: usize) -> (r: usize)
    requires
        player < 2,
    ensures
        r == state.discard_piles[player as int]@.filter(|c: Card| c.is_support_spec()).len(),
{
    let r = count_kind(&state.discard_piles[player], false);
    assert(kind_pred(false) =~= (|c: Card| c.is_support_spec()));
    r
}

/// What the environment does next in a state: report the finished game,
/// hand the agent its actions, let the game move on by itself when the player
/// to move has no action, or ask the opponent to pick among its actions.
#[derive(Debug)]
pub enum GymNext {
    Finished(Option<GameOutcome>),
    AgentTurn(Vec<Action>),
    Tick,
    AskOpponent(Vec<Action>),
}

/// Why an agent's step is refused.
#[derive(Debug, Clone, Copy, PartialEq, Eq, Structural)]
pub enum GymError {
    /// The game is over; the environment must be reset.
    GameOver,
    /// The agent has no action to choose from.
    NoValidActions,
}

/// What the environment does next in `state`, with `agent` the player the
/// learning agent controls.
pub fn gym_next(state: &State, agent: usize) -> (r: GymNext)
    requires
        state.current_player < 2,
    ensures
        state.is_game_over_spec() ==> r == GymNext::Finished(state.winner),
        !state.is_game_over_spec() && possible_actions(*state).0 == agent ==> (r matches GymNext::AgentTurn(a)
            && a@ == possible_actions(*state).1),
        !state.is_game_over_spec() && possible_actions(*state).0 != agent && possible_actions(*state).1.len() == 0
            ==> r is Tick,
        !state.is_game_over_spec() && possible_actions(*state).0 != agent && possible_actions(*state).1.len() > 0
            ==> (r matches GymNext::AskOpponent(a) && a@ == possible_actions(*state).1),
{
    if state.is_game_over() {
        return GymNext::Finished(state.winner);
    }
    let (actor, actions) = generate_possible_actions(state);
    if actor == agent {
        GymNext::AgentTurn(actions)
    } else if actions.len() == 0 {
        GymNext::Tick
    } else {
        GymNext::AskOpponent(actions)
    }
}

/// The action an agent's step applies: index `idx` among `possible`, clamped
/// to the last one; refused when the game is over or nothing can be chosen.
pub fn gym_pick(possible: &Vec<Action>, game_over: bool, idx: usize) -> (r: Result<Action, GymError>)
    ensures
        game_over <==> r == Err::<Action, GymError>(GymError::GameOver),
        (!game_over && possible@.len() == 0) <==> r == Err::<Action, GymError>(GymError::NoValidActions),
        !game_over && possible@.len() > 0 ==> r == Ok::<Action, GymError>(
            possible@[if idx < possible@.len() { idx as int } else { possible@.len() - 1 }],
        ),
{
    if game_over {
        return Err(GymError::GameOver);
    }
    if possible.len() == 0 {
        return Err(GymError::NoValidActions);
    }
    let i = if idx < possible.len() { idx } else { possible.len() - 1 };
    Ok(possible[i])
}

} // verus!
