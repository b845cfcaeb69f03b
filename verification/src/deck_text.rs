use vstd::prelude::*;

use crate::database::{all_card_ids, card_list};
use crate::deck::Deck;
use crate::models::{spec_card_number, Card, CardId, EnergyType};
use crate::text::{chars_of, push_split, same_chars, slice_chars, split, trim, trim_exec, views};

// The text of a deck. Each line is blank, names the energy types of the
// energy zone ("Energy: Grass" or "Energy: Grass, Water"), or lists copies
// of a card: "2 Bulbasaur A1 1" is two copies of the card numbered "A1 001";
// the words between the count and the set are the card's name and are not
// read. A count has one to three digits; a card number is padded with zeros
// to three digits.

verus! {

/// The energy type with this name.
pub open spec fn energy_named(name: Seq<char>) -> Option<EnergyType> {
    if name == "Grass"@ {
        Some(EnergyType::Grass)
    } else if name == "Fire"@ {
        Some(EnergyType::Fire)
    } else if name == "Water"@ {
        Some(EnergyType::Water)
    } else if name == "Lightning"@ {
        Some(EnergyType::Lightning)
    } else if name == "Psychic"@ {
        Some(EnergyType::Psychic)
    } else if name == "Fighting"@ {
        Some(EnergyType::Fighting)
    } else if name == "Darkness"@ {
        Some(EnergyType::Darkness)
    } else if name == "Metal"@ {
        Some(EnergyType::Metal)
    } else if name == "Dragon"@ {
        Some(EnergyType::Dragon)
    } else if name == "Colorless"@ {
        Some(EnergyType::Colorless)
    } else {
        None
    }
}

/// The energy types named by `names`, if each names one.
pub open spec fn energies_named(names: Seq<Seq<char>>) -> Option<Seq<EnergyType>>
    decreases names.len(),
{
    if names.len() == 0 {
        Some(Seq::empty())
    } else {
        match (energies_named(names.drop_last()), energy_named(trim(names.last()))) {
            (Some(rest), Some(e)) => Some(rest.push(e)),
            _ => None,
        }
    }
}

/// Whether `s` is a run of decimal digits.
pub open spec fn all_digits(s: Seq<char>) -> bool {
    forall|i: int| 0 <= i < s.len() ==> '0' <= #[trigger] s[i] <= '9'
}

/// The value of the decimal digits `s`.
pub open spec fn digits_value(s: Seq<char>) -> nat
    decreases s.len(),
{
    if s.len() == 0 {
        0
    } else {
        digits_value(s.drop_last()) * 10 + (s.last() as nat - '0' as nat) as nat
    }
}

/// A count of copies: one to three digits.
pub open spec fn parse_count(s: Seq<char>) -> Option<nat> {
    if 0 < s.len() <= 3 && all_digits(s) { Some(digits_value(s)) } else { None }
}

/// `s` padded with zeros on the left to three characters.
pub open spec fn pad3(s: Seq<char>) -> Seq<char> {
    if s.len() >= 3 { s } else { Seq::new((3 - s.len()) as nat, |_i: int| '0') + s }
}

/// The first card of the database with this number.
pub open spec fn card_numbered(number: Seq<char>) -> Option<CardId> {
    first_numbered(card_list(), number)
}

/// The first card of `ids` with this number.
pub open spec fn first_numbered(ids: Seq<CardId>, number: Seq<char>) -> Option<CardId>
    decreases ids.len(),
{
    if ids.len() == 0 {
        None
    } else if spec_card_number(ids[0]) == number {
        Some(ids[0])
    } else {
        first_numbered(ids.drop_first(), number)
    }
}

/// The nonempty words of `parts`.
pub open spec fn words(parts: Seq<Seq<char>>) -> Seq<Seq<char>>
    decreases parts.len(),
{
    if parts.len() == 0 {
        Seq::empty()
    } else if parts.last().len() > 0 {
        words(parts.drop_last()).push(parts.last())
    } else {
        words(parts.drop_last())
    }
}

/// The cards and energy types of one line, or `None` for a line that is
/// none of the three kinds.
pub open spec fn parse_line(line: Seq<char>) -> Option<(Seq<Card>, Seq<EnergyType>)> {
    let t = trim(line);
    if t.len() == 0 {
        Some((Seq::empty(), Seq::empty()))
    } else if t.len() >= 7 && t.take(7) == "Energy:"@ {
        match energies_named(split(t.skip(7), ","@)) {
            Some(energies) => Some((Seq::empty(), energies)),
            None => None,
        }
    } else {
        let w = words(split(t, " "@));
        if w.len() >= 3 && parse_count(w[0]) is Some && w.last().len() > 0 && all_digits(w.last()) {
            match card_numbered(w[w.len() - 2] + " "@ + pad3(w.last())) {
                Some(id) => Some((Seq::new(parse_count(w[0]).unwrap(), |_i: int| Card { id }), Seq::empty())),
                None => None,
            }
        } else {
            None
        }
    }
}

/// The cards and energy types of the lines, in order, or `None` when a line
/// does not parse.
pub open spec fn parse_lines(lines: Seq<Seq<char>>) -> Option<(Seq<Card>, Seq<EnergyType>)>
    decreases lines.len(),
{
    if lines.len() == 0 {
        Some((Seq::empty(), Seq::empty()))
    } else {
        match (parse_lines(lines.drop_last()), parse_line(lines.last())) {
            (Some(a), Some(b)) => Some((a.0 + b.0, a.1 + b.1)),
            _ => None,
        }
    }
}

/// The cards and energy types of a deck text, or `None` when a line does not
/// parse.
pub open spec fn parse_deck(text: Seq<char>) -> Option<(Seq<Card>, Seq<EnergyType>)> {
    parse_lines(split(text, "\n"@))
}

/// The energy type with this name.
fn energy_named_exec(name: &Vec<char>) -> (r: Option<EnergyType>)
    ensures
        r == energy_named(name@),
{
    if same_chars(name, &chars_of("Grass")) {
        Some(EnergyType::Grass)
    } else if same_chars(name, &chars_of("Fire")) {
        Some(EnergyType::Fire)
    } else if same_chars(name, &chars_of("Water")) {
        Some(EnergyType::Water)
    } else if same_chars(name, &chars_of("Lightning")) {
        Some(EnergyType::Lightning)
    } else if same_chars(name, &chars_of("Psychic")) {
        Some(EnergyType::Psychic)
    } else if same_chars(name, &chars_of("Fighting")) {
        Some(EnergyType::Fighting)
    } else if same_chars(name, &chars_of("Darkness")) {
        Some(EnergyType::Darkness)
    } else if same_chars(name, &chars_of("Metal")) {
        Some(EnergyType::Metal)
    } else if same_chars(name, &chars_of("Dragon")) {
        Some(EnergyType::Dragon)
    } else if same_chars(name, &chars_of("Colorless")) {
        Some(EnergyType::Colorless)
    } else {
        None
    }
}

/// The energy types named by `names`, if each names one.
fn energies_named_exec(names: &Vec<Vec<char>>) -> (r: Option<Vec<EnergyType>>)
    ensures
        match energies_named(views(names@)) {
            Some(es) => r matches Some(v) && v@ == es,
            None => r is None,
        },
{
    let mut out: Vec<EnergyType> = Vec::new();
    let mut i: usize = 0;
    while i < names.len()
        invariant
            i <= names@.len(),
            energies_named(views(names@).take(i as int)) == Some(out@),
        decreases names@.len() - i,
    {
        assert(views(names@).take(i + 1).drop_last() =~= views(names@).take(i as int));
        assert(views(names@).take(i + 1).last() == names@[i as int]@);
        let t = trim_exec(&names[i]);
        match energy_named_exec(&t) {
            Some(e) => out.push(e),
            None => {
                proof {
                    lemma_energies_named_prefix(views(names@), i as int + 1);
                }
                return None;
            },
        }
        i = i + 1;
    }
    assert(views(names@).take(names@.len() as int) =~= views(names@));
    Some(out)
}

/// A name that fails stops the whole list from naming energies.
proof fn lemma_energies_named_prefix(names: Seq<Seq<char>>, n: int)
    requires
        0 <= n <= names.len(),
        energies_named(names.take(n)) is None,
    ensures
        energies_named(names) is None,
    decreases names.len() - n,
{
    if n < names.len() {
        assert(names.take(n + 1).drop_last() =~= names.take(n));
        lemma_energies_named_prefix(names, n + 1);
    } else {
        assert(names.take(n) =~= names);
    }
}

/// A count of copies: one to three digits.
fn parse_count_exec(s: &Vec<char>) -> (r: Option<usize>)
    ensures
        match r {
            Some(v) => parse_count(s@) == Some(v as nat),
            None => parse_count(s@) is None,
        },
{
    if s.len() == 0 || s.len() > 3 {
        return None;
    }
    let mut value: usize = 0;
    let mut i: usize = 0;
    while i < s.len()
        invariant
            s@.len() <= 3,
            i <= s@.len(),
            all_digits(s@.take(i as int)),
            value == digits_value(s@.take(i as int)),
            value < 1000,
            i == 0 ==> value == 0,
            i == 1 ==> value < 10,
            i == 2 ==> value < 100,
        decreases s@.len() - i,
    {
        let c = s[i];
        if c < '0' || c > '9' {
            assert(!all_digits(s@)) by {
                assert(s@[i as int] == c);
            }
            return None;
        }
        let d: usize = (c as u32 - '0' as u32) as usize;
        assert(s@.take(i + 1).drop_last() =~= s@.take(i as int));
        value = value * 10 + d;
        assert(all_digits(s@.take(i + 1)));
        i = i + 1;
    }
    assert(s@.take(s@.len() as int) =~= s@);
    Some(value)
}

/// `s` padded with zeros on the left to three characters.
fn pad3_exec(s: &Vec<char>) -> (r: Vec<char>)
    ensures
        r@ == pad3(s@),
{
    if s.len() >= 3 {
        return slice_chars(s, 0, s.len());
    }
    let mut out: Vec<char> = Vec::new();
    let mut k: usize = 0;
    while k < 3 - s.len()
        invariant
            s@.len() < 3,
            k <= 3 - s@.len(),
            out@ == Seq::new(k as nat, |_i: int| '0'),
        decreases 3 - s@.len() - k,
    {
        out.push('0');
        assert(out@ =~= Seq::new((k + 1) as nat, |_i: int| '0'));
        k = k + 1;
    }
    let mut i: usize = 0;
    let ghost zeros = out@;
    while i < s.len()
        invariant
            i <= s@.len(),
            zeros == Seq::new((3 - s@.len()) as nat, |_i: int| '0'),
            out@ == zeros + s@.take(i as int),
        decreases s@.len() - i,
    {
        out.push(s[i]);
        assert(out@ =~= zeros + s@.take(i + 1));
        i = i + 1;
    }
    assert(s@.take(s@.len() as int) =~= s@);
    out
}

/// The first card of the database with this number.
fn card_numbered_exec(number: &Vec<char>) -> (r: Option<CardId>)
    ensures
        r == card_numbered(number@),
{
    let ids = all_card_ids();
    let mut i: usize = 0;
    assert(ids@.skip(0) =~= ids@);
    while i < ids.len()
        invariant
            ids@ == card_list(),
            i <= ids@.len(),
            first_numbered(ids@, number@) == first_numbered(ids@.skip(i as int), number@),
        decreases ids@.len() - i,
    {
        assert(ids@.skip(i as int).drop_first() =~= ids@.skip(i + 1));
        let id = ids[i];
        let card = Card { id };
        if same_chars(&chars_of(card.get_id().as_str()), number) {
            return Some(id);
        }
        i = i + 1;
    }
    None
}

/// The nonempty words of `parts`.
fn words_exec(parts: Vec<Vec<char>>) -> (r: Vec<Vec<char>>)
    ensures
        views(r@) == words(views(parts@)),
{
    let mut out: Vec<Vec<char>> = Vec::new();
    let mut i: usize = 0;
    let n = parts.len();
    let ghost pv = views(parts@);
    let mut parts = parts;
    while i < n
        invariant
            n == pv.len(),
            parts@.len() == n,
            views(parts@) == pv,
            i <= n,
            views(out@) == words(pv.take(i as int)),
        decreases n - i,
    {
        assert(pv.take(i + 1).drop_last() =~= pv.take(i as int));
        assert(pv.take(i + 1).last() == parts@[i as int]@);
        let part = slice_chars(&parts[i], 0, parts[i].len());
        assert(part@ =~= parts@[i as int]@);
        if part.len() > 0 {
            let ghost before = views(out@);
            let ghost partv = part@;
            out.push(part);
            assert(views(out@) =~= before.push(partv));
        }
        i = i + 1;
    }
    assert(pv.take(n as int) =~= pv);
    out
}

/// `n` copies of the card `id`.
fn copies(id: CardId, n: usize) -> (r: Vec<Card>)
    ensures
        r@ == Seq::new(n as nat, |_i: int| Card { id }),
{
    let mut out: Vec<Card> = Vec::new();
    let mut k: usize = 0;
    while k < n
        invariant
            k <= n,
            out@ == Seq::new(k as nat, |_i: int| Card { id }),
        decreases n - k,
    {
        out.push(Card { id });
        assert(out@ =~= Seq::new((k + 1) as nat, |_i: int| Card { id }));
        k = k + 1;
    }
    out
}

/// The cards and energy types of one line.
fn parse_line_exec(line: &Vec<char>) -> (r: Option<(Vec<Card>, Vec<EnergyType>)>)
    ensures
        match parse_line(line@) {
            Some((cards, energies)) => r matches Some(v) && v.0@ == cards && v.1@ == energies,
            None => r is None,
        },
{
    let t = trim_exec(line);
    if t.len() == 0 {
        return Some((Vec::new(), Vec::new()));
    }
    let energy_tag = chars_of("Energy:");
    proof {
        reveal_strlit("Energy:");
    }
    if t.len() >= 7 && same_chars(&slice_chars(&t, 0, 7), &energy_tag) {
        let rest = slice_chars(&t, 7, t.len());
        assert(rest@ =~= t@.skip(7));
        let mut names: Vec<Vec<char>> = Vec::new();
        push_split(&mut names, rest, &chars_of(","));
        assert(views(names@) =~= split(t@.skip(7), ","@));
        return match energies_named_exec(&names) {
            Some(energies) => Some((Vec::new(), energies)),
            None => None,
        };
    }
    assert(!(t@.len() >= 7 && t@.take(7) == "Energy:"@)) by {
        if t@.len() >= 7 && t@.take(7) == "Energy:"@ {
            assert(t@.subrange(0, 7) =~= t@.take(7));
        }
    }
    let mut parts: Vec<Vec<char>> = Vec::new();
    let whole = slice_chars(&t, 0, t.len());
    assert(whole@ =~= t@);
    push_split(&mut parts, whole, &chars_of(" "));
    assert(views(parts@) =~= split(t@, " "@));
    let w = words_exec(parts);
    let len = w.len();
    if len < 3 {
        return None;
    }
    let count = match parse_count_exec(&w[0]) {
        Some(c) => c,
        None => { return None; },
    };
    let number = &w[len - 1];
    let mut digits = number.len() > 0;
    let mut i: usize = 0;
    while i < number.len()
        invariant
            i <= number@.len(),
            digits <==> number@.len() > 0 && forall|j: int| 0 <= j < i ==> '0' <= #[trigger] number@[j] <= '9',
        decreases number@.len() - i,
    {
        if number[i] < '0' || number[i] > '9' {
            digits = false;
        }
        i = i + 1;
    }
    assert(views(w@)[len - 1] == number@);
    assert(views(w@)[0] == w@[0]@);
    if !digits {
        return None;
    }
    let mut full = slice_chars(&w[len - 2], 0, w[len - 2].len());
    assert(full@ =~= views(w@)[len - 2]);
    let mut space = chars_of(" ");
    full.append(&mut space);
    let mut padded = pad3_exec(number);
    full.append(&mut padded);
    proof {
        let wv = views(w@);
        assert(wv == words(split(t@, " "@)));
        assert(wv.len() == len);
        assert(wv.last() == number@);
        assert(all_digits(number@));
        assert(full@ == wv[len - 2] + " "@ + pad3(wv.last()));
        assert(parse_count(wv[0]) == Some(count as nat));
    }
    match card_numbered_exec(&full) {
        Some(id) => Some((copies(id, count), Vec::new())),
        None => None,
    }
}

impl Deck {
    /// The deck written in `text`; an error names the first line that does
    /// not parse.
    pub fn from_string(text: &str) -> (r: Result<Deck, String>)
        ensures
            match parse_deck(text@) {
                Some((cards, energies)) => r matches Ok(d) && d.cards@ == cards && d.energy_types@ == energies,
                None => r is Err,
            },
    {
        let mut lines: Vec<Vec<char>> = Vec::new();
        push_split(&mut lines, chars_of(text), &chars_of("\n"));
        let ghost lv = views(lines@);
        assert(lv =~= split(text@, "\n"@));
        let mut cards: Vec<Card> = Vec::new();
        let mut energies: Vec<EnergyType> = Vec::new();
        let mut i: usize = 0;
        while i < lines.len()
            invariant
                i <= lines@.len(),
                lv == views(lines@),
                lv == split(text@, "\n"@),
                parse_lines(lv.take(i as int)) == Some((cards@, energies@)),
            decreases lines@.len() - i,
        {
            assert(lv.take(i + 1).drop_last() =~= lv.take(i as int));
            assert(lv.take(i + 1).last() == lines@[i as int]@);
            match parse_line_exec(&lines[i]) {
                Some((mut c, mut e)) => {
                    cards.append(&mut c);
                    energies.append(&mut e);
                },
                None => {
                    proof {
                        lemma_parse_lines_prefix(lv, i as int + 1);
                    }
                    return Err(String::from_str("invalid deck line"));
                },
            }
            i = i + 1;
        }
        assert(lv.take(lines@.len() as int) =~= lv);
        Ok(Deck { cards, energy_types: energies })
    }
}

/// A line that does not parse stops the whole text from parsing.
proof fn lemma_parse_lines_prefix(lines: Seq<Seq<char>>, n: int)
    requires
        0 <= n <= lines.len(),
        parse_lines(lines.take(n)) is None,
    ensures
        parse_lines(lines) is None,
    decreases lines.len() - n,
{
    if n < lines.len() {
        assert(lines.take(n + 1).drop_last() =~= lines.take(n));
        lemma_parse_lines_prefix(lines, n + 1);
    } else {
        assert(lines.take(n) =~= lines);
    }
}

} // verus!
