use vstd::prelude::*;

use crate::actions::apply_attack_action::{mechanic_implemented, mechanic_implemented_exec};
use crate::models::{spec_attack_mechanic, spec_num_attacks, Card, CardId};

verus! {

/// The card with identifier `id`.
pub fn get_card_by_enum(id: CardId) -> (r: Card)
    ensures
        r.id == id,
{
    Card { id }
}

/// The cards of the database, in the order of their identifiers.
pub open spec fn card_list() -> Seq<CardId> {
    seq![
        CardId::A1001Bulbasaur,
        CardId::A1002Ivysaur,
        CardId::A1033Charmander,
        CardId::A1094Pikachu,
        CardId::A2a071ArceusEx,
        CardId::A3166TapuKoko,
        CardId::A4b122Wishiwashi,
        CardId::A4b124WishiwashiEx,
        CardId::B2165Minun,
        CardId::A2058Uxie,
        CardId::A2059Mesprit,
        CardId::A2060Azelf,
        CardId::B2052Plusle,
        CardId::B1047Turtonator,
        CardId::A4b026Cherubi,
        CardId::PA095Chinchou,
        CardId::PA001Potion,
        CardId::PA007ProfessorsResearch,
        CardId::A3b067Leftovers,
        CardId::A4153SteelApron,
    ]
}

/// Every card of the database, in the order of their identifiers.
pub fn all_card_ids() -> (r: Vec<CardId>)
    ensures
        r@ == card_list(),
        forall|id: CardId| #[trigger] r@.contains(id),
        r@.len() == 20,
{
    let r = vec![
        CardId::A1001Bulbasaur,
        CardId::A1002Ivysaur,
        CardId::A1033Charmander,
        CardId::A1094Pikachu,
        CardId::A2a071ArceusEx,
        CardId::A3166TapuKoko,
        CardId::A4b122Wishiwashi,
        CardId::A4b124WishiwashiEx,
        CardId::B2165Minun,
        CardId::A2058Uxie,
        CardId::A2059Mesprit,
        CardId::A2060Azelf,
        CardId::B2052Plusle,
        CardId::B1047Turtonator,
        CardId::A4b026Cherubi,
        CardId::PA095Chinchou,
        CardId::PA001Potion,
        CardId::PA007ProfessorsResearch,
        CardId::A3b067Leftovers,
        CardId::A4153SteelApron,
    ];
    assert(r@ =~= card_list());
    assert forall|id: CardId| #[trigger] r@.contains(id) by {
        match id {
            CardId::A1001Bulbasaur => assert(r@[0] == id),
            CardId::A1002Ivysaur => assert(r@[1] == id),
            CardId::A1033Charmander => assert(r@[2] == id),
            CardId::A1094Pikachu => assert(r@[3] == id),
            CardId::A2a071ArceusEx => assert(r@[4] == id),
            CardId::A3166TapuKoko => assert(r@[5] == id),
            CardId::A4b122Wishiwashi => assert(r@[6] == id),
            CardId::A4b124WishiwashiEx => assert(r@[7] == id),
            CardId::B2165Minun => assert(r@[8] == id),
            CardId::A2058Uxie => assert(r@[9] == id),
            CardId::A2059Mesprit => assert(r@[10] == id),
            CardId::A2060Azelf => assert(r@[11] == id),
            CardId::B2052Plusle => assert(r@[12] == id),
            CardId::B1047Turtonator => assert(r@[13] == id),
            CardId::A4b026Cherubi => assert(r@[14] == id),
            CardId::PA095Chinchou => assert(r@[15] == id),
            CardId::PA001Potion => assert(r@[16] == id),
            CardId::PA007ProfessorsResearch => assert(r@[17] == id),
            CardId::A3b067Leftovers => assert(r@[18] == id),
            CardId::A4153SteelApron => assert(r@[19] == id),
        }
    }
    r
}

/// Whether the card belongs to set B2a or an earlier one; every card of
/// the database does.
pub fn is_b2a_or_earlier(card_id: &CardId) -> (r: bool)
    ensures
        r,
{
    true
}

/// Whether every attack of the card has an implemented mechanic.
pub open spec fn attacks_implemented_spec(id: CardId) -> bool {
    forall|i: int, m: Option<crate::actions::attacks::Mechanic>|
        0 <= i < spec_num_attacks(id) && #[trigger] spec_attack_mechanic(id, i, m) ==> mechanic_implemented(m)
}

/// Every attack of every card of the database is implemented.
pub proof fn lemma_database_attacks_implemented(id: CardId)
    ensures
        attacks_implemented_spec(id),
{
}

/// Whether every attack of the card has an implemented mechanic.
pub fn attacks_implemented(id: CardId) -> (r: bool)
    ensures
        r == attacks_implemented_spec(id),
{
    let card = get_card_by_enum(id);
    let n = card.num_attacks();
    let mut i: usize = 0;
    while i < n
        invariant
            i <= n,
            n == spec_num_attacks(id),
            card.id == id,
            forall|j: int, m: Option<crate::actions::attacks::Mechanic>|
                0 <= j < i && #[trigger] spec_attack_mechanic(id, j, m) ==> mechanic_implemented(m),
        decreases n - i,
    {
        let m = card.attack_mechanic(i);
        if !mechanic_implemented_exec(&m) {
            return false;
        }
        i = i + 1;
    }
    true
}

} // verus!
