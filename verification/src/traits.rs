//! Choosing the traits of a generated item.
use vstd::prelude::*;

use crate::config::{attribute_ordered, config_ordered, Attribute, Config, Entry, Odds};
use crate::order::ascending;
use crate::metadata::Trait;
use crate::text::{find_colon, strip_png, strip_png_suffix};

verus! {

/// `key` and `value` are the parts of the layer key `k`: the text before and after its
/// first `:`, or, without a `:`, `_key` and the whole of `k`.
pub open spec fn key_parts(k: Seq<char>, key: Seq<char>, value: Seq<char>) -> bool {
    ||| exists|i: int|
        #![trigger k[i]]
        0 <= i < k.len() && k[i] == ':' && (forall|j: int| 0 <= j < i ==> k[j] != ':') && key
            == k.subrange(0, i) && value == k.subrange(i + 1, k.len() as int)
    ||| (forall|j: int| 0 <= j < k.len() ==> k[j] != ':') && key == seq!['_', 'k', 'e', 'y']
        && value == k
}

/// Whether the trait `t` matches the layer key `k`.
pub open spec fn key_matches(k: Seq<char>, t: Trait) -> bool {
    key_parts(k, t.trait_type@, t.value@)
}

/// The key `_`, of the layer that applies when no other key does.
pub open spec fn underscore() -> Seq<char> {
    seq!['_']
}

/// The keys of the layers, in order.
pub open spec fn layer_keys(layers: Seq<Entry<Odds>>) -> Seq<Seq<char>> {
    layers.map_values(|l: Entry<Odds>| l.key@)
}

/// Walks the layer keys from `j` as a scan that shares one pass over the chosen traits:
/// the key `_` is skipped; a key is looked up in what is left of the pass and, when no
/// trait matches, the pass is used up, so that no later key can match. Gives the position
/// of the matching key, or `None` when the key `_` applies.
pub open spec fn walk_keys(keys: Seq<Seq<char>>, j: int, used_up: bool, chosen: Seq<Trait>) -> Option<
    int,
>
    decreases keys.len() - j,
{
    if j >= keys.len() || j < 0 {
        None
    } else if keys[j] == underscore() {
        walk_keys(keys, j + 1, used_up, chosen)
    } else if !used_up && exists|p: int| 0 <= p < chosen.len() && key_matches(keys[j], chosen[p]) {
        Some(j)
    } else {
        walk_keys(keys, j + 1, true, chosen)
    }
}

/// The position of the first key from `j` that is not `_`.
pub open spec fn first_real_key(keys: Seq<Seq<char>>, j: int) -> Option<int>
    decreases keys.len() - j,
{
    if j >= keys.len() || j < 0 {
        None
    } else if keys[j] == underscore() {
        first_real_key(keys, j + 1)
    } else {
        Some(j)
    }
}

/// Once the shared pass is used up, no key matches.
proof fn lemma_used_up_walk(keys: Seq<Seq<char>>, j: int, chosen: Seq<Trait>)
    ensures
        walk_keys(keys, j, true, chosen) is None,
    decreases keys.len() - j,
{
    if 0 <= j < keys.len() {
        lemma_used_up_walk(keys, j + 1, chosen);
    }
}

proof fn lemma_fresh_walk(keys: Seq<Seq<char>>, j: int, chosen: Seq<Trait>)
    requires
        j >= 0,
    ensures
        walk_keys(keys, j, false, chosen) == match first_real_key(keys, j) {
            Some(i) => if exists|p: int| 0 <= p < chosen.len() && key_matches(keys[i], chosen[p]) {
                Some(i)
            } else {
                None
            },
            None => None,
        },
    decreases keys.len() - j,
{
    if j < keys.len() {
        if keys[j] == underscore() {
            lemma_fresh_walk(keys, j + 1, chosen);
        } else {
            lemma_used_up_walk(keys, j + 1, chosen);
        }
    }
}

/// Since every key shares one pass over the chosen traits, only the first key other than
/// `_` can ever match: the layer that applies is that key's when some chosen trait matches
/// it, and the `_` layer otherwise, whatever the later keys are.
pub proof fn law_only_first_key_can_match(keys: Seq<Seq<char>>, chosen: Seq<Trait>)
    ensures
        computed_key(keys, chosen) == match first_real_key(keys, 0) {
            Some(i) => if exists|p: int| 0 <= p < chosen.len() && key_matches(keys[i], chosen[p]) {
                keys[i]
            } else {
                underscore()
            },
            None => underscore(),
        },
{
    lemma_fresh_walk(keys, 0, chosen);
}

/// The key of the layer that applies: the matching key found by the walk, or `_`.
pub open spec fn computed_key(keys: Seq<Seq<char>>, chosen: Seq<Trait>) -> Seq<char> {
    match walk_keys(keys, 0, false, chosen) {
        Some(j) => keys[j],
        None => underscore(),
    }
}

/// The first position of `key` among `keys`.
pub open spec fn find_key(keys: Seq<Seq<char>>, key: Seq<char>) -> Option<int> {
    if exists|i: int| 0 <= i < keys.len() && keys[i] == key {
        Some(
            choose|i: int|
                0 <= i < keys.len() && keys[i] == key && forall|j: int| 0 <= j < i ==> keys[j] != key,
        )
    } else {
        None
    }
}

/// Splits the layer key `k` into its parts.
pub fn split_key(k: &String) -> (r: (String, String))
    ensures
        key_parts(k@, r.0@, r.1@),
{
    let s = k.as_str();
    match find_colon(s) {
        Some(i) => {
            let n = s.unicode_len();
            let key = String::from_str(s.substring_char(0, i));
            let value = String::from_str(s.substring_char(i + 1, n));
            assert(k@[i as int] == ':');
            (key, value)
        },
        None => {
            let key = String::from_str("_key");
            proof {
                reveal_strlit("_key");
                assert(key@ =~= seq!['_', 'k', 'e', 'y']);
            }
            (key, k.clone())
        },
    }
}

/// The parts of a layer key are unique.
proof fn lemma_key_parts_unique(k: Seq<char>, a: Seq<char>, b: Seq<char>, c: Seq<char>, d: Seq<char>)
    requires
        key_parts(k, a, b),
        key_parts(k, c, d),
    ensures
        a == c && b == d,
{
    if exists|i: int|
        #![trigger k[i]]
        0 <= i < k.len() && k[i] == ':' && (forall|j: int| 0 <= j < i ==> k[j] != ':') && a
            == k.subrange(0, i) && b == k.subrange(i + 1, k.len() as int) {
        let i = choose|i: int|
            #![trigger k[i]]
            0 <= i < k.len() && k[i] == ':' && (forall|j: int| 0 <= j < i ==> k[j] != ':') && a
                == k.subrange(0, i) && b == k.subrange(i + 1, k.len() as int);
        if exists|i2: int|
            #![trigger k[i2]]
            0 <= i2 < k.len() && k[i2] == ':' && (forall|j: int| 0 <= j < i2 ==> k[j] != ':') && c
                == k.subrange(0, i2) && d == k.subrange(i2 + 1, k.len() as int) {
            let i2 = choose|i2: int|
                #![trigger k[i2]]
                0 <= i2 < k.len() && k[i2] == ':' && (forall|j: int| 0 <= j < i2 ==> k[j] != ':')
                    && c == k.subrange(0, i2) && d == k.subrange(i2 + 1, k.len() as int);
            if i < i2 {
                assert(k[i] != ':');
            } else if i2 < i {
                assert(k[i2] != ':');
            }
        } else {
            assert(k[i] == ':');
        }
    } else {
        if exists|i2: int|
            #![trigger k[i2]]
            0 <= i2 < k.len() && k[i2] == ':' && (forall|j: int| 0 <= j < i2 ==> k[j] != ':') && c
                == k.subrange(0, i2) && d == k.subrange(i2 + 1, k.len() as int) {
            let i2 = choose|i2: int|
                #![trigger k[i2]]
                0 <= i2 < k.len() && k[i2] == ':' && (forall|j: int| 0 <= j < i2 ==> k[j] != ':')
                    && c == k.subrange(0, i2) && d == k.subrange(i2 + 1, k.len() as int);
            assert(k[i2] == ':');
        }
    }
}

/// Whether some chosen trait matches the layer key `k`.
pub fn any_trait_matches(k: &String, chosen: &Vec<Trait>) -> (r: bool)
    ensures
        r == exists|p: int| 0 <= p < chosen@.len() && key_matches(k@, chosen@[p]),
{
    let (key, value) = split_key(k);
    let mut p: usize = 0;
    while p < chosen.len()
        invariant
            0 <= p <= chosen@.len(),
            key_parts(k@, key@, value@),
            forall|q: int| 0 <= q < p ==> !key_matches(k@, #[trigger] chosen@[q]),
        decreases chosen@.len() - p,
    {
        let t = &chosen[p];
        if t.trait_type == key && t.value == value {
            assert(key_matches(k@, chosen@[p as int]));
            return true;
        }
        proof {
            if key_matches(k@, chosen@[p as int]) {
                lemma_key_parts_unique(k@, key@, value@, t.trait_type@, t.value@);
            }
        }
        p = p + 1;
    }
    false
}

/// The position of the first layer with the key `key`.
pub fn find_layer(layers: &Vec<Entry<Odds>>, key: &String) -> (r: Option<usize>)
    requires
        ascending(layers@),
    ensures
        r matches Some(i) ==> find_key(layer_keys(layers@), key@) == Some(i as int),
        r is None ==> find_key(layer_keys(layers@), key@) is None,
{
    let ghost keys = layer_keys(layers@);
    let mut i: usize = 0;
    while i < layers.len()
        invariant
            0 <= i <= layers@.len(),
            keys == layer_keys(layers@),
            keys.len() == layers@.len(),
            forall|j: int| 0 <= j < i ==> keys[j] != key@,
        decreases layers@.len() - i,
    {
        if layers[i].key == *key {
            assert(keys[i as int] == key@);
            let ghost w = choose|w: int|
                0 <= w < keys.len() && keys[w] == key@ && forall|j: int| 0 <= j < w ==> keys[j] != key@;
            assert(w == i) by {
                if w < i {
                    assert(keys[w] != key@);
                } else if w > i {
                    assert(keys[i as int] != key@);
                }
            }
            return Some(i);
        }
        i = i + 1;
    }
    None
}

/// Which table of files an attribute is picked from.
#[derive(Debug, Clone, Copy, PartialEq, Eq, Structural)]
pub enum LayerChoice {
    /// The attribute's only table.
    Standard,
    /// The table of the layer at this position.
    Keyed(usize),
    /// No layer has the key that applies (the key `_` when no key matched).
    Missing,
}

/// Picks the table an attribute's file is chosen from, given the traits chosen so far:
/// for a keyed attribute, the layer whose key is the computed key.
pub fn choose_layer(attribute: &Attribute, chosen: &Vec<Trait>) -> (r: LayerChoice)
    requires
        attribute_ordered(*attribute),
    ensures
        match attribute {
            Attribute::Standard(_) => r == LayerChoice::Standard,
            Attribute::Keyed(layers) => match find_key(
                layer_keys(layers@),
                computed_key(layer_keys(layers@), chosen@),
            ) {
                Some(i) => r == LayerChoice::Keyed(i as usize),
                None => r == LayerChoice::Missing,
            },
        },
{
    match attribute {
        Attribute::Standard(_) => LayerChoice::Standard,
        Attribute::Keyed(layers) => {
            let ghost keys = layer_keys(layers@);
            let underscore_key = String::from_str("_");
            proof {
                reveal_strlit("_");
                assert(underscore_key@ =~= underscore());
            }
            let mut used_up = false;
            let mut found: Option<usize> = None;
            let mut j: usize = 0;
            while j < layers.len()
                invariant_except_break
                    found is None,
                    walk_keys(keys, 0, false, chosen@) == walk_keys(keys, j as int, used_up, chosen@),
                invariant
                    0 <= j <= layers@.len(),
                    keys == layer_keys(layers@),
                    keys.len() == layers@.len(),
                    underscore_key@ == underscore(),
                ensures
                    found matches Some(f) ==> f < layers@.len() && walk_keys(keys, 0, false, chosen@)
                        == Some(f as int),
                    found is None ==> walk_keys(keys, 0, false, chosen@) is None,
                decreases layers@.len() - j,
            {
                let key = &layers[j].key;
                assert(keys[j as int] == key@);
                if *key == underscore_key {
                } else if !used_up {
                    if any_trait_matches(key, chosen) {
                        found = Some(j);
                        break;
                    } else {
                        used_up = true;
                    }
                }
                j = j + 1;
            }
            let computed = match found {
                Some(j) => layers[j].key.clone(),
                None => underscore_key,
            };
            assert(computed@ == computed_key(keys, chosen@));
            match find_layer(layers, &computed) {
                Some(i) => LayerChoice::Keyed(i),
                None => LayerChoice::Missing,
            }
        },
    }
}

/// The trait for the file `choice` picked for the attribute `attribute_name`: its value is
/// the file name without a trailing `.png`.
pub fn trait_from_choice(attribute_name: &String, choice: &String) -> (t: Trait)
    ensures
        t.trait_type@ == attribute_name@,
        t.value@ == strip_png(choice@),
{
    Trait { trait_type: attribute_name.clone(), value: strip_png_suffix(choice) }
}

/// The table of odds of the attribute `a` that the choice names, if there is one.
pub open spec fn choice_odds(a: Attribute, choice: LayerChoice) -> Option<Seq<Entry<u32>>> {
    match (a, choice) {
        (Attribute::Standard(odds), _) => Some(odds@),
        (Attribute::Keyed(layers), LayerChoice::Keyed(i)) => if i < layers@.len() {
            Some(layers@[i as int].value@)
        } else {
            None
        },
        _ => None,
    }
}

/// The weights (the bits of their `f32`) of the table the choice names, in the order of
/// its files, to draw a file by; `None` when no layer has the key that applies.
pub fn choice_weights(attribute: &Attribute, choice: LayerChoice) -> (r: Option<Vec<u32>>)
    ensures
        match choice_odds(*attribute, choice) {
            Some(odds) => r matches Some(w) && w@ == odds.map_values(|e: Entry<u32>| e.value),
            None => r is None,
        },
{
    let odds = match attribute {
        Attribute::Standard(odds) => odds,
        Attribute::Keyed(layers) => match choice {
            LayerChoice::Keyed(i) => {
                if i >= layers.len() {
                    return None;
                }
                &layers[i].value
            },
            _ => return None,
        },
    };
    let mut weights: Vec<u32> = Vec::new();
    let mut k: usize = 0;
    while k < odds.len()
        invariant
            0 <= k <= odds@.len(),
            choice_odds(*attribute, choice) == Some(odds@),
            weights@ == odds@.subrange(0, k as int).map_values(|e: Entry<u32>| e.value),
        decreases odds@.len() - k,
    {
        weights.push(odds[k].value);
        k = k + 1;
        assert(weights@ =~= odds@.subrange(0, k as int).map_values(|e: Entry<u32>| e.value));
    }
    assert(odds@.subrange(0, odds@.len() as int) =~= odds@);
    Some(weights)
}

/// Adds to the chosen traits the trait of the attribute `entry` for the file at position
/// `drawn` of the table the choice names (drawn by the caller by its weights): the
/// attribute's name with the file name without a trailing `.png`.
pub fn add_drawn_trait(entry: &Entry<Attribute>, choice: LayerChoice, drawn: usize, chosen: &mut Vec<Trait>)
    requires
        choice_odds(entry.value, choice) matches Some(odds) && drawn < odds.len(),
    ensures
        final(chosen)@.len() == old(chosen)@.len() + 1,
        final(chosen)@.subrange(0, old(chosen)@.len() as int) == old(chosen)@,
        final(chosen)@.last().trait_type@ == entry.key@,
        final(chosen)@.last().value@ == strip_png(choice_odds(entry.value, choice)->0[drawn as int].key@),
{
    let t = match &entry.value {
        Attribute::Standard(odds) => trait_from_choice(&entry.key, &odds[drawn].key),
        Attribute::Keyed(layers) => match choice {
            LayerChoice::Keyed(i) => trait_from_choice(&entry.key, &layers[i].value[drawn].key),
            _ => trait_from_choice(&entry.key, &entry.key),
        },
    };
    chosen.push(t);
    assert(chosen@.subrange(0, old(chosen)@.len() as int) =~= old(chosen)@);
}

/// The traits of a guaranteed roll: its `i`-th file name goes with the `i`-th attribute.
pub fn guaranteed_traits(config: &Config, roll: usize) -> (r: Vec<Trait>)
    requires
        config_ordered(*config),
        roll < config.guaranteed_attribute_rolls@.len(),
        config.guaranteed_attribute_rolls@[roll as int]@.len() <= config.attributes@.len(),
    ensures
        r@.len() == config.guaranteed_attribute_rolls@[roll as int]@.len(),
        forall|i: int|
            0 <= i < r@.len() ==> (#[trigger] r@[i]).trait_type@ == config.attributes@[i].key@
                && r@[i].value@ == config.guaranteed_attribute_rolls@[roll as int]@[i]@,
{
    let files = &config.guaranteed_attribute_rolls[roll];
    let mut r: Vec<Trait> = Vec::new();
    let mut i: usize = 0;
    while i < files.len()
        invariant
            0 <= i <= files@.len(),
            files@.len() <= config.attributes@.len(),
            files == config.guaranteed_attribute_rolls@[roll as int],
            r@.len() == i,
            forall|j: int|
                0 <= j < i ==> (#[trigger] r@[j]).trait_type@ == config.attributes@[j].key@
                    && r@[j].value@ == files@[j]@,
        decreases files@.len() - i,
    {
        r.push(Trait { trait_type: config.attributes[i].key.clone(), value: files[i].clone() });
        i = i + 1;
    }
    r
}

/// When `key` occurs among the keys from `j` on, and not before `j`, it has a first
/// position.
proof fn lemma_first_position(keys: Seq<Seq<char>>, key: Seq<char>, j: int)
    requires
        0 <= j,
        forall|k: int| 0 <= k < j ==> keys[k] != key,
        exists|i: int| j <= i < keys.len() && keys[i] == key,
    ensures
        exists|w: int|
            0 <= w < keys.len() && keys[w] == key && forall|k: int| 0 <= k < w ==> keys[k] != key,
    decreases keys.len() - j,
{
    if keys[j] == key {
        assert(0 <= j < keys.len() && keys[j] == key && forall|k: int| 0 <= k < j ==> keys[k] != key);
    } else {
        let i = choose|i: int| j <= i < keys.len() && keys[i] == key;
        assert(j + 1 <= i);
        lemma_first_position(keys, key, j + 1);
    }
}

/// The file of a keyed attribute is drawn from the layer the keys chose and from no other:
/// the table named by the choice `Keyed(i)` is the `i`-th layer's own table, that layer
/// carries the key found, and a `Standard` attribute always draws from its one table. So
/// the weights drawn by (`choice_weights`) and the file the trait takes (`add_drawn_trait`)
/// both come from that table.
pub proof fn law_drawn_trait_comes_from_the_chosen_layer(a: Attribute, i: usize, key: Seq<char>)
    ensures
        a is Keyed && i < a->Keyed_0@.len() ==> choice_odds(a, LayerChoice::Keyed(i)) == Some(
            a->Keyed_0@[i as int].value@,
        ),
        a is Keyed && i >= a->Keyed_0@.len() ==> choice_odds(a, LayerChoice::Keyed(i)) is None,
        a is Keyed ==> choice_odds(a, LayerChoice::Missing) is None,
        a is Standard ==> choice_odds(a, LayerChoice::Keyed(i)) == Some(a->Standard_0@)
            && choice_odds(a, LayerChoice::Standard) == Some(a->Standard_0@) && choice_odds(
            a,
            LayerChoice::Missing,
        ) == Some(a->Standard_0@),
        a is Keyed && find_key(layer_keys(a->Keyed_0@), key) is Some ==> ({
            let j = find_key(layer_keys(a->Keyed_0@), key)->0;
            &&& 0 <= j < a->Keyed_0@.len()
            &&& a->Keyed_0@[j].key@ == key
            &&& choice_odds(a, LayerChoice::Keyed(j as usize)) == Some(a->Keyed_0@[j].value@)
        }),
{
    if a is Keyed {
        let layers = a->Keyed_0@;
        let keys = layer_keys(layers);
        assert(layers.len() == a->Keyed_0.len());
        if exists|w: int| 0 <= w < keys.len() && keys[w] == key {
            lemma_first_position(keys, key, 0);
        }
    }
}

} // verus!
