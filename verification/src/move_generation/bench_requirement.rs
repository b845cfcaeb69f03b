use vstd::prelude::*;

use crate::models::{spec_attack_effect, spec_name, CardId, PlayedCard};
use crate::text::{
    chars_of, find, find_from_exec, is_ws, lemma_find_from, occurs_at, trim_start, push_split, same_chars, slice_chars, split, split_each, trim,
    trim_exec, views,
};

// Attacks such as Mesprit's Supreme Blast say "You can use this attack only
// if you have Uxie and Azelf on your Bench." The names are read from the
// text: what stands between "have " and " on your Bench", split at " and "
// and ", ", each part trimmed.

verus! {

/// The names listed in `names`: split at " and ", then at ", ", each
/// trimmed.
pub open spec fn listed_names(names: Seq<char>) -> Seq<Seq<char>> {
    split_each(split(names, " and "@), ", "@).map_values(|p: Seq<char>| trim(p))
}

/// The names of the benched Pokémon among `slots`, in slot order.
pub open spec fn bench_names(slots: Seq<Option<PlayedCard>>, hi: int) -> Seq<Seq<char>>
    decreases hi,
{
    if hi <= 1 {
        Seq::empty()
    } else {
        let rest = bench_names(slots, hi - 1);
        match slots[hi - 1] {
            Some(pc) => rest.push(spec_name(pc.card.id)),
            None => rest,
        }
    }
}

/// Whether an attack with effect text `effect` may be used with benched
/// Pokémon named `bench`. A text that says "only if you have" and "on your
/// Bench" requires each name it lists between "have " and " on your Bench"
/// on the bench.
pub open spec fn bench_requirement_met(effect: Option<Seq<char>>, bench: Seq<Seq<char>>) -> bool {
    match effect {
        None => true,
        Some(text) => if find(text, "only if you have"@) is Some && find(text, "on your Bench"@) is Some {
            match (find(text, "have "@), find(text, " on your Bench"@)) {
                (Some(start), Some(end)) => {
                    let required = listed_names(text.subrange(start + 5, end));
                    forall|k: int| 0 <= k < required.len() ==> bench.contains(#[trigger] required[k])
                },
                _ => true,
            }
        } else {
            true
        },
    }
}

/// Whether `text` states a bench requirement whose names can be read: it
/// says "only if you have" and "on your Bench", and its first " on your
/// Bench" does not begin before the end of its first "have ".
pub open spec fn states_bench_requirement(text: Seq<char>) -> bool {
    &&& find(text, "only if you have"@) is Some
    &&& find(text, "on your Bench"@) is Some
    &&& find(text, "have "@) is Some
    &&& find(text, " on your Bench"@) is Some
    &&& find(text, "have "@).unwrap() + 5 <= find(text, " on your Bench"@).unwrap()
}

/// The names a bench requirement in `text` lists.
pub open spec fn required_names(text: Seq<char>) -> Seq<Seq<char>> {
    listed_names(text.subrange(find(text, "have "@).unwrap() + 5, find(text, " on your Bench"@).unwrap()))
}

/// A text that states a bench requirement is not met while any one of the
/// names it lists is missing from the bench.
pub proof fn law_bench_requirement_needs_each_name(text: Seq<char>, bench: Seq<Seq<char>>, k: int)
    requires
        states_bench_requirement(text),
        0 <= k < required_names(text).len(),
        !bench.contains(required_names(text)[k]),
    ensures
        !bench_requirement_met(Some(text), bench),
{
}

/// A text that states a bench requirement is met once every name it lists
/// is on the bench, whatever else is benched.
pub proof fn law_bench_requirement_met_by_all_names(text: Seq<char>, bench: Seq<Seq<char>>)
    requires
        states_bench_requirement(text),
        forall|k: int| 0 <= k < required_names(text).len() ==> bench.contains(#[trigger] required_names(text)[k]),
    ensures
        bench_requirement_met(Some(text), bench),
{
    let required = required_names(text);
    assert forall|k: int| 0 <= k < required.len() implies bench.contains(#[trigger] required[k]) by {
        assert(bench.contains(required_names(text)[k]));
    }
}

/// A text with no bench requirement never holds an attack back.
pub proof fn law_no_requirement_no_restriction(text: Seq<char>, bench: Seq<Seq<char>>)
    requires
        find(text, "only if you have"@) is None || find(text, "on your Bench"@) is None,
    ensures
        bench_requirement_met(Some(text), bench),
{
}

/// The first occurrence of `pat` in `s` is at `p` when it occurs there and
/// one of its characters, at `k`, stands nowhere in `s` before `p + k`.
proof fn lemma_found_at(s: Seq<char>, pat: Seq<char>, k: int, p: int)
    requires
        0 <= k < pat.len(),
        occurs_at(s, pat, p),
        forall|j: int| 0 <= j < p + k ==> s[j] != pat[k],
    ensures
        find(s, pat) == Some(p),
{
    lemma_find_from(s, pat, 0);
    let m = find(s, pat).unwrap();
    assert(s[m + k] == pat[k]);
}

/// A name with no white space at either end, and too short to hold `sep`
/// or holding no character of it, is listed as itself.
proof fn lemma_plain_name(name: Seq<char>, sep: Seq<char>)
    requires
        sep.len() > 0,
        name.len() > 0,
        forall|j: int| 0 <= j < name.len() ==> name[j] != sep[0],
        !is_ws(name[0]),
        !is_ws(name.last()),
    ensures
        split(name, sep) == seq![name],
        trim(name) == name,
{
    lemma_find_from(name, sep, 0);
    if let Some(m) = find(name, sep) {
        assert(name[m + 0] == sep[0]);
    }
    assert(trim_start(name) == name);
}

/// Mesprit's Supreme Blast can be used only with both Uxie and Azelf on the
/// bench: its requirement is met exactly when the bench holds both names.
pub proof fn law_supreme_blast_needs_uxie_and_azelf(bench: Seq<Seq<char>>)
    ensures
        bench_requirement_met(spec_attack_effect(CardId::A2059Mesprit, 0), bench)
            <==> bench.contains("Uxie"@) && bench.contains("Azelf"@),
{
    let s = "You can use this attack only if you have Uxie and Azelf on your Bench. Discard all Energy from this Pokémon."@;
    reveal_strlit("You can use this attack only if you have Uxie and Azelf on your Bench. Discard all Energy from this Pokémon.");
    reveal_strlit("only if you have");
    reveal_strlit("on your Bench");
    reveal_strlit("have ");
    reveal_strlit(" on your Bench");
    reveal_strlit(" and ");
    reveal_strlit(", ");
    reveal_strlit("Uxie");
    reveal_strlit("Azelf");
    reveal_strlit("Uxie and Azelf");
    assert(occurs_at(s, "only if you have"@, 24));
    lemma_find_from(s, "only if you have"@, 0);
    assert(occurs_at(s, "on your Bench"@, 56));
    lemma_find_from(s, "on your Bench"@, 0);
    assert(occurs_at(s, "have "@, 36));
    lemma_found_at(s, "have "@, 2, 36);
    assert(occurs_at(s, " on your Bench"@, 55));
    lemma_found_at(s, " on your Bench"@, 9, 55);
    let names = s.subrange(41, 55);
    assert(names =~= "Uxie and Azelf"@);
    assert(occurs_at(names, " and "@, 4));
    lemma_found_at(names, " and "@, 1, 4);
    let uxie = names.subrange(0, 4);
    let azelf = names.subrange(9, 14);
    assert(uxie =~= "Uxie"@);
    assert(azelf =~= "Azelf"@);
    assert(names.subrange(9, names.len() as int) =~= azelf);
    lemma_plain_name(azelf, " and "@);
    assert(split(names, " and "@) =~= seq![uxie, azelf]);
    lemma_plain_name(uxie, ", "@);
    lemma_plain_name(azelf, ", "@);
    let parts = seq![uxie, azelf];
    assert(parts.drop_last() =~= seq![uxie]);
    assert(seq![uxie].drop_last() =~= Seq::<Seq<char>>::empty());
    assert(split_each(Seq::<Seq<char>>::empty(), ", "@) =~= Seq::<Seq<char>>::empty());
    assert(seq![uxie].last() == uxie);
    assert(parts.last() == azelf);
    assert(split_each(seq![uxie], ", "@) =~= seq![uxie]);
    assert(split_each(parts, ", "@) =~= seq![uxie, azelf]);
    let required = listed_names(names);
    assert(required =~= seq![uxie, azelf]);
    if bench.contains("Uxie"@) && bench.contains("Azelf"@) {
        assert forall|k: int| 0 <= k < required.len() implies bench.contains(#[trigger] required[k]) by {
            if k == 0 {
                assert(required[k] == "Uxie"@);
            } else {
                assert(required[k] == "Azelf"@);
            }
        }
    }
    assert(spec_attack_effect(CardId::A2059Mesprit, 0) == Some(s));
    assert(find(s, "have "@) == Some(36int));
    assert(find(s, " on your Bench"@) == Some(55int));
    if bench_requirement_met(spec_attack_effect(CardId::A2059Mesprit, 0), bench) {
        assert(bench.contains(required[0]));
        assert(bench.contains(required[1]));
    }
}

/// Whether the names of a bench requirement in `effect` can be read: when the
/// text says "only if you have" and "on your Bench", the first " on your
/// Bench" does not begin before the end of the first "have ".
pub open spec fn bench_text_ok(effect: Option<Seq<char>>) -> bool {
    match effect {
        None => true,
        Some(text) => (find(text, "only if you have"@) is Some && find(text, "on your Bench"@) is Some) ==> match (
            find(text, "have "@),
            find(text, " on your Bench"@),
        ) {
            (Some(start), Some(end)) => start + 5 <= end,
            _ => true,
        },
    }
}

/// A pattern one of whose characters stands in the text at most at `p`, and
/// does not occur at the position that would put it there, is not found.
proof fn lemma_not_found(s: Seq<char>, pat: Seq<char>, k: int, p: int)
    requires
        0 <= k < pat.len(),
        forall|j: int| 0 <= j < s.len() && s[j] == pat[k] ==> j == p,
        !occurs_at(s, pat, p - k),
    ensures
        find(s, pat) is None,
{
    lemma_find_from(s, pat, 0);
    if let Some(m) = find(s, pat) {
        assert(s[m + k] == pat[k]);
    }
}

/// Every attack text of the card database has readable bench requirements.
pub proof fn lemma_database_texts_ok(id: CardId, i: int)
    ensures
        bench_text_ok(spec_attack_effect(id, i)),
{
    reveal_strlit("only if you have");
    reveal_strlit("on your Bench");
    reveal_strlit("have ");
    reveal_strlit(" on your Bench");
    if i == 0 {
        match id {
            CardId::A1033Charmander => {
                let s = "Discard a Fire Energy from this Pokémon."@;
                reveal_strlit("Discard a Fire Energy from this Pokémon.");
                lemma_not_found(s, "only if you have"@, 14, -1);
            },
            CardId::A2a071ArceusEx => {
                let s = "This attack does 20 more damage for each of your Benched Pokémon."@;
                reveal_strlit("This attack does 20 more damage for each of your Benched Pokémon.");
                lemma_not_found(s, "only if you have"@, 14, -1);
            },
            CardId::A3166TapuKoko => {
                let s = "Switch this Pokémon with 1 of your Benched Pokémon."@;
                reveal_strlit("Switch this Pokémon with 1 of your Benched Pokémon.");
                lemma_not_found(s, "only if you have"@, 14, -1);
            },
            CardId::A4b124WishiwashiEx => {
                let s = "This attack does 40 more damage for each of your Benched Water Pokémon."@;
                reveal_strlit("This attack does 40 more damage for each of your Benched Water Pokémon.");
                lemma_not_found(s, "only if you have"@, 14, -1);
            },
            CardId::A2059Mesprit => {
                let s = "You can use this attack only if you have Uxie and Azelf on your Bench. Discard all Energy from this Pokémon."@;
                reveal_strlit("You can use this attack only if you have Uxie and Azelf on your Bench. Discard all Energy from this Pokémon.");
                lemma_find_from(s, "have "@, 0);
                lemma_find_from(s, " on your Bench"@, 0);
                assert(occurs_at(s, "have "@, 36));
                assert(forall|j: int| 0 <= j < 64 ==> s[j] != 'B');
                if let Some(end) = find(s, " on your Bench"@) {
                    assert(" on your Bench"@[9] == 'B');
                    assert(s[end + 9] == 'B');
                }
            },
            CardId::B2165Minun => {
                let s = "If Plusle is on your Bench, this attack also does 10 damage to each of your opponent's Benched Pokémon."@;
                reveal_strlit("If Plusle is on your Bench, this attack also does 10 damage to each of your opponent's Benched Pokémon.");
                lemma_not_found(s, "only if you have"@, 14, -1);
            },
            CardId::B1047Turtonator => {
                let s = "During your opponent's next turn, if this Pokémon is damaged by an attack, do 40 damage to the Attacking Pokémon."@;
                reveal_strlit("During your opponent's next turn, if this Pokémon is damaged by an attack, do 40 damage to the Attacking Pokémon.");
                lemma_not_found(s, "only if you have"@, 14, -1);
            },
            CardId::A4b026Cherubi => {
                let s = "If this Pokémon has a Pokémon Tool attached, this attack costs 1 less Grass Energy."@;
                reveal_strlit("If this Pokémon has a Pokémon Tool attached, this attack costs 1 less Grass Energy.");
                lemma_not_found(s, "only if you have"@, 14, -1);
            },
            CardId::PA095Chinchou => {
                let s = "Flip a coin. If heads, switch in 1 of your opponent's Benched Pokémon to the Active Spot."@;
                reveal_strlit("Flip a coin. If heads, switch in 1 of your opponent's Benched Pokémon to the Active Spot.");
                assert(s[48] != "on your Bench"@[2]);
                assert(!occurs_at(s, "on your Bench"@, 46));
                lemma_not_found(s, "on your Bench"@, 8, 54);
            },
            _ => {},
        }
    }
}

/// The names listed in `names`.
fn listed_names_exec(names: Vec<char>) -> (r: Vec<Vec<char>>)
    ensures
        views(r@) == listed_names(names@),
{
    let and_sep = chars_of(" and ");
    let comma_sep = chars_of(", ");
    let mut parts: Vec<Vec<char>> = Vec::new();
    push_split(&mut parts, names, &and_sep);
    assert(views(parts@) =~= split(names@, " and "@));
    let mut pieces: Vec<Vec<char>> = Vec::new();
    let mut i: usize = 0;
    while i < parts.len()
        invariant
            i <= parts@.len(),
            comma_sep@ == ", "@,
            views(pieces@) == split_each(views(parts@).take(i as int), ", "@),
        decreases parts@.len() - i,
    {
        let part = slice_chars(&parts[i], 0, parts[i].len());
        assert(part@ =~= parts@[i as int]@);
        push_split(&mut pieces, part, &comma_sep);
        assert(views(parts@).take(i + 1).drop_last() =~= views(parts@).take(i as int));
        i = i + 1;
    }
    assert(views(parts@).take(parts@.len() as int) =~= views(parts@));
    let mut out: Vec<Vec<char>> = Vec::new();
    let mut j: usize = 0;
    while j < pieces.len()
        invariant
            j <= pieces@.len(),
            views(out@) == views(pieces@).take(j as int).map_values(|p: Seq<char>| trim(p)),
        decreases pieces@.len() - j,
    {
        let t = trim_exec(&pieces[j]);
        let ghost tv = t@;
        let ghost before = views(out@);
        out.push(t);
        assert(views(out@) =~= before.push(tv));
        assert(views(out@) =~= views(pieces@).take(j + 1).map_values(|p: Seq<char>| trim(p)));
        j = j + 1;
    }
    assert(views(pieces@).take(pieces@.len() as int) =~= views(pieces@));
    out
}

/// The names of the benched Pokémon among `slots`, as characters.
fn bench_names_exec(slots: &[Option<PlayedCard>; 4]) -> (r: Vec<Vec<char>>)
    ensures
        views(r@) == bench_names(slots@, 4),
{
    let mut out: Vec<Vec<char>> = Vec::new();
    let mut i: usize = 1;
    while i < 4
        invariant
            1 <= i <= 4,
            views(out@) == bench_names(slots@, i as int),
        decreases 4 - i,
    {
        if let Some(pc) = &slots[i] {
            let name = pc.get_name();
            let cs = chars_of(name.as_str());
            let ghost before = views(out@);
            let ghost cv = cs@;
            out.push(cs);
            assert(views(out@) =~= before.push(cv));
        }
        i = i + 1;
    }
    out
}

/// Whether the attack with effect text `effect` may be used with the benched
/// Pokémon among `slots`.
pub fn bench_requirement_met_exec(effect: &Option<String>, slots: &[Option<PlayedCard>; 4]) -> (r: bool)
    requires
        bench_text_ok(
            match effect {
                Some(t) => Some(t@),
                None => None,
            },
        ),
    ensures
        r == bench_requirement_met(
            match effect {
                Some(t) => Some(t@),
                None => None,
            },
            bench_names(slots@, 4),
        ),
{
    let text = match effect {
        None => { return true; },
        Some(t) => chars_of(t.as_str()),
    };
    let applies = find_from_exec(&text, &chars_of("only if you have"), 0).is_some()
        && find_from_exec(&text, &chars_of("on your Bench"), 0).is_some();
    if !applies {
        return true;
    }
    let start = find_from_exec(&text, &chars_of("have "), 0);
    let end = find_from_exec(&text, &chars_of(" on your Bench"), 0);
    match (start, end) {
        (Some(start), Some(end)) => {
            proof {
                reveal_strlit("have ");
                lemma_find_from(text@, "have "@, 0);
                lemma_find_from(text@, " on your Bench"@, 0);
            }
            let names = slice_chars(&text, start + 5, end);
            let required = listed_names_exec(names);
            let bench = bench_names_exec(slots);
            let ghost req = views(required@);
            let ghost ben = views(bench@);
            let mut all = true;
            let mut k: usize = 0;
            while k < required.len()
                invariant
                    k <= required@.len(),
                    req == views(required@),
                    ben == views(bench@),
                    all <==> forall|m: int| 0 <= m < k ==> ben.contains(#[trigger] req[m]),
                decreases required@.len() - k,
            {
                let mut found = false;
                let mut b: usize = 0;
                while b < bench.len()
                    invariant
                        b <= bench@.len(),
                        k < required@.len(),
                        req == views(required@),
                        ben == views(bench@),
                        found <==> exists|x: int| 0 <= x < b && ben[x] == req[k as int],
                    decreases bench@.len() - b,
                {
                    assert(ben[b as int] == bench@[b as int]@);
                    assert(req[k as int] == required@[k as int]@);
                    if same_chars(&bench[b], &required[k]) {
                        found = true;
                    }
                    b = b + 1;
                }
                proof {
                    if ben.contains(req[k as int]) {
                        let x = choose|x: int| 0 <= x < ben.len() && ben[x] == req[k as int];
                        assert(ben.len() == bench@.len());
                    }
                    assert(found <==> ben.contains(req[k as int]));
                }
                if !found {
                    all = false;
                }
                k = k + 1;
            }
            all
        },
        _ => true,
    }
}

} // verus!
