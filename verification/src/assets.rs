//! Describing an existing assets folder as a configuration.
use vstd::prelude::*;

use crate::config::{attribute_ordered, config_ordered, Attribute, Config, Entry, Odds};
use crate::order::{
    ascending, has_key, insert_entry, lemma_text_lt_asymmetric, lemma_text_lt_irreflexive,
    text_lt,
};

verus! {

/// An entry of a folder: its name and whether it is a directory.
#[derive(Debug)]
pub struct FileEntry {
    pub name: String,
    pub is_dir: bool,
}

/// An entry of the assets folder, with the entries inside it when it is a directory.
#[derive(Debug)]
pub struct AssetFolder {
    pub name: String,
    pub is_dir: bool,
    pub files: Vec<FileEntry>,
}

/// The odds given to every file of a scanned layer: the bits of the `f32` 0.1.
pub const LAYER_WEIGHT_BITS: u32 = 0x3dcc_cccd;

/// The odds describe the files of a folder: one entry per file (not per directory), in
/// ascending order, each at `LAYER_WEIGHT_BITS`.
pub open spec fn odds_describe(odds: Seq<Entry<u32>>, files: Seq<FileEntry>) -> bool {
    &&& ascending(odds)
    &&& forall|k: Seq<char>|
        has_key(odds, k) <==> exists|i: int| 0 <= i < files.len() && !files[i].is_dir && files[i].name@ == k
    &&& forall|i: int| 0 <= i < odds.len() ==> (#[trigger] odds[i]).value == LAYER_WEIGHT_BITS
}

/// The attribute describes a folder: a single layer, keyed `_`, with the folder's files.
pub open spec fn attribute_describes(a: Attribute, files: Seq<FileEntry>) -> bool {
    &&& a matches Attribute::Keyed(layers)
    &&& layers@.len() == 1
    &&& layers@[0].key@ == seq!['_']
    &&& odds_describe(layers@[0].value@, files)
}

/// The odds of the files of a folder.
pub fn layer_odds(files: &Vec<FileEntry>) -> (r: Odds)
    ensures
        odds_describe(r@, files@),
{
    let mut odds: Odds = Vec::new();
    let mut i: usize = 0;
    while i < files.len()
        invariant
            0 <= i <= files@.len(),
            ascending(odds@),
            forall|k: Seq<char>|
                has_key(odds@, k) <==> exists|j: int|
                    0 <= j < i && !files@[j].is_dir && files@[j].name@ == k,
            forall|j: int| 0 <= j < odds@.len() ==> (#[trigger] odds@[j]).value == LAYER_WEIGHT_BITS,
        decreases files@.len() - i,
    {
        let ghost before = odds@;
        let f = &files[i];
        if !f.is_dir {
            insert_entry(&mut odds, f.name.clone(), LAYER_WEIGHT_BITS);
            assert forall|j: int| 0 <= j < odds@.len() implies (#[trigger] odds@[j]).value
                == LAYER_WEIGHT_BITS by {
                if odds@[j].key@ != f.name@ {
                    let k = odds@[j].key@;
                    assert(has_key(odds@, k));
                    let j0 = choose|j0: int| 0 <= j0 < before.len() && before[j0].key@ == k;
                    assert(odds@[j].value == before[j0].value);
                }
            }
        }
        assert forall|k: Seq<char>|
            has_key(odds@, k) <==> exists|j: int|
                0 <= j < i + 1 && !files@[j].is_dir && files@[j].name@ == k by {
            if exists|j: int| 0 <= j < i + 1 && !files@[j].is_dir && files@[j].name@ == k {
                let j = choose|j: int| 0 <= j < i + 1 && !files@[j].is_dir && files@[j].name@ == k;
                if j < i {
                    assert(exists|j: int| 0 <= j < i && !files@[j].is_dir && files@[j].name@ == k);
                }
            }
        }
        i = i + 1;
    }
    odds
}

/// The attribute describing a folder's files.
pub fn folder_attribute(files: &Vec<FileEntry>) -> (r: Attribute)
    ensures
        attribute_describes(r, files@),
{
    let odds = layer_odds(files);
    let mut layers: Vec<Entry<Odds>> = Vec::new();
    let key = String::from_str("_");
    proof {
        reveal_strlit("_");
    }
    layers.push(Entry { key, value: odds });
    assert(layers@[0].key@ =~= seq!['_']);
    Attribute::Keyed(layers)
}

/// The last directory of the assets folder named `k`, below `n`.
pub open spec fn is_last_dir(folders: Seq<AssetFolder>, j: int, k: Seq<char>, n: int) -> bool {
    &&& 0 <= j < n
    &&& folders[j].is_dir
    &&& folders[j].name@ == k
    &&& forall|j2: int| j < j2 < n ==> !(folders[j2].is_dir && (#[trigger] folders[j2]).name@ == k)
}

/// Whether a directory below `n` of the assets folder is named `k`.
pub open spec fn dir_named(folders: Seq<AssetFolder>, k: Seq<char>, n: int) -> bool {
    exists|j: int| 0 <= j < n && folders[j].is_dir && folders[j].name@ == k
}

/// The attributes describe the directories of the assets folder below `n`: one attribute
/// per directory name, in ascending order, describing the last directory of that name.
pub open spec fn attributes_describe(attrs: Seq<Entry<Attribute>>, folders: Seq<AssetFolder>, n: int) -> bool {
    &&& ascending(attrs)
    &&& forall|k: Seq<char>| has_key(attrs, k) <==> dir_named(folders, k, n)
    &&& forall|i: int| 0 <= i < attrs.len() ==> #[trigger] entry_describes(attrs[i], folders, n)
}

/// The attribute entry describes the last directory of its name below `n`.
pub open spec fn entry_describes(e: Entry<Attribute>, folders: Seq<AssetFolder>, n: int) -> bool {
    exists|j: int| is_last_dir(folders, j, e.key@, n) && attribute_describes(e.value, folders[j].files@)
}

/// Attributes describing a folder are in ascending order, table by table.
proof fn lemma_described_is_ordered(attrs: Seq<Entry<Attribute>>, folders: Seq<AssetFolder>, n: int)
    requires
        attributes_describe(attrs, folders, n),
    ensures
        ascending(attrs),
        forall|i: int| 0 <= i < attrs.len() ==> attribute_ordered(#[trigger] attrs[i].value),
{
    assert forall|i: int| 0 <= i < attrs.len() implies attribute_ordered(#[trigger] attrs[i].value) by {
        assert(entry_describes(attrs[i], folders, n));
        let j = choose|j: int|
            is_last_dir(folders, j, attrs[i].key@, n) && attribute_describes(attrs[i].value, folders[j].files@);
        let layers = attrs[i].value->Keyed_0@;
        assert(ascending(layers));
        assert forall|l: int| 0 <= l < layers.len() implies ascending(#[trigger] layers[l].value@) by {
            assert(l == 0);
        }
    }
}

/// The configuration describing an existing assets folder: the sample configuration with
/// one attribute per directory of the folder (each with a single `_` layer listing the
/// directory's files at equal odds) and no guaranteed rolls.
pub fn config_from_assets(example: Config, folders: &Vec<AssetFolder>) -> (r: Config)
    ensures
        r.name == example.name,
        r.symbol == example.symbol,
        r.description == example.description,
        r.external_url == example.external_url,
        r.creators == example.creators,
        r.royalty_percentage == example.royalty_percentage,
        r.collection == example.collection,
        r.amount == example.amount,
        r.guaranteed_attribute_rolls@.len() == 0,
        attributes_describe(r.attributes@, folders@, folders@.len() as int),
        config_ordered(r),
{
    let mut attributes: Vec<Entry<Attribute>> = Vec::new();
    let mut i: usize = 0;
    while i < folders.len()
        invariant
            0 <= i <= folders@.len(),
            attributes_describe(attributes@, folders@, i as int),
        decreases folders@.len() - i,
    {
        let ghost before = attributes@;
        let folder = &folders[i];
        if folder.is_dir {
            let attribute = folder_attribute(&folder.files);
            insert_entry(&mut attributes, folder.name.clone(), attribute);
            assert forall|a: int| 0 <= a < attributes@.len() implies #[trigger] entry_describes(
                attributes@[a],
                folders@,
                i + 1,
            ) by {
                let k = attributes@[a].key@;
                if k == folder.name@ {
                    assert(is_last_dir(folders@, i as int, k, i + 1));
                } else {
                    assert(has_key(attributes@, k));
                    let b = choose|b: int| 0 <= b < before.len() && before[b].key@ == k;
                    assert(attributes@[a].value == before[b].value);
                    assert(entry_describes(before[b], folders@, i as int));
                    let j = choose|j: int|
                        is_last_dir(folders@, j, before[b].key@, i as int) && attribute_describes(
                            before[b].value,
                            folders@[j].files@,
                        );
                    assert(is_last_dir(folders@, j, k, i + 1));
                }
            }
        } else {
            assert forall|a: int| 0 <= a < attributes@.len() implies #[trigger] entry_describes(
                attributes@[a],
                folders@,
                i + 1,
            ) by {
                assert(entry_describes(attributes@[a], folders@, i as int));
                let j = choose|j: int|
                    is_last_dir(folders@, j, attributes@[a].key@, i as int) && attribute_describes(
                        attributes@[a].value,
                        folders@[j].files@,
                    );
                assert(is_last_dir(folders@, j, attributes@[a].key@, i + 1));
            }
        }
        assert forall|k: Seq<char>|
            has_key(attributes@, k) <==> exists|j: int|
                0 <= j < i + 1 && folders@[j].is_dir && folders@[j].name@ == k by {
            if exists|j: int| 0 <= j < i + 1 && folders@[j].is_dir && folders@[j].name@ == k {
                let j = choose|j: int| 0 <= j < i + 1 && folders@[j].is_dir && folders@[j].name@ == k;
                if j < i {
                    assert(exists|j: int| 0 <= j < i && folders@[j].is_dir && folders@[j].name@ == k);
                }
            }
        }
        i = i + 1;
    }
    proof {
        lemma_described_is_ordered(attributes@, folders@, folders@.len() as int);
    }
    Config {
        name: example.name,
        symbol: example.symbol,
        description: example.description,
        external_url: example.external_url,
        creators: example.creators,
        royalty_percentage: example.royalty_percentage,
        collection: example.collection,
        attributes,
        guaranteed_attribute_rolls: Vec::new(),
        amount: example.amount,
    }
}

/// Two tables in ascending order with the same names have those names at the same
/// positions.
proof fn lemma_ascending_same_keys<V, W>(s: Seq<Entry<V>>, t: Seq<Entry<W>>)
    requires
        ascending(s),
        ascending(t),
        forall|k: Seq<char>| has_key(s, k) <==> has_key(t, k),
    ensures
        s.len() == t.len(),
        forall|i: int| 0 <= i < s.len() ==> s[i].key@ == t[i].key@,
    decreases s.len(),
{
    if s.len() == 0 {
        if t.len() > 0 {
            assert(has_key(t, t[0].key@));
        }
    } else {
        assert(has_key(s, s[0].key@));
        assert(has_key(t, s[0].key@));
        let j = choose|j: int| 0 <= j < t.len() && t[j].key@ == s[0].key@;
        assert(has_key(t, t[0].key@));
        assert(has_key(s, t[0].key@));
        let i = choose|i: int| 0 <= i < s.len() && s[i].key@ == t[0].key@;
        if j > 0 {
            assert(text_lt(t[0].key@, t[j].key@));
            if i > 0 {
                assert(text_lt(s[0].key@, s[i].key@));
                lemma_text_lt_asymmetric(s[0].key@, s[i].key@);
            } else {
                lemma_text_lt_irreflexive(s[0].key@);
            }
        }
        assert(s[0].key@ == t[0].key@);
        let s2 = s.drop_first();
        let t2 = t.drop_first();
        assert(ascending(s2)) by {
            assert forall|a: int, b: int| 0 <= a < b < s2.len() implies text_lt(
                s2[a].key@,
                s2[b].key@,
            ) by {
                assert(s2[a] == s[a + 1] && s2[b] == s[b + 1]);
            }
        }
        assert(ascending(t2)) by {
            assert forall|a: int, b: int| 0 <= a < b < t2.len() implies text_lt(
                t2[a].key@,
                t2[b].key@,
            ) by {
                assert(t2[a] == t[a + 1] && t2[b] == t[b + 1]);
            }
        }
        assert forall|k: Seq<char>| has_key(s2, k) <==> has_key(t2, k) by {
            if has_key(s2, k) {
                let a = choose|a: int| 0 <= a < s2.len() && s2[a].key@ == k;
                assert(s[a + 1].key@ == k);
                assert(has_key(s, k));
                assert(text_lt(s[0].key@, s[a + 1].key@));
                if k == s[0].key@ {
                    lemma_text_lt_irreflexive(k);
                }
                let b = choose|b: int| 0 <= b < t.len() && t[b].key@ == k;
                assert(b != 0);
                assert(t2[b - 1].key@ == k);
            }
            if has_key(t2, k) {
                let a = choose|a: int| 0 <= a < t2.len() && t2[a].key@ == k;
                assert(t[a + 1].key@ == k);
                assert(has_key(t, k));
                assert(text_lt(t[0].key@, t[a + 1].key@));
                if k == t[0].key@ {
                    lemma_text_lt_irreflexive(k);
                }
                let b = choose|b: int| 0 <= b < s.len() && s[b].key@ == k;
                assert(b != 0);
                assert(s2[b - 1].key@ == k);
            }
        }
        lemma_ascending_same_keys(s2, t2);
        assert forall|i: int| 0 <= i < s.len() implies s[i].key@ == t[i].key@ by {
            if i > 0 {
                assert(s[i] == s2[i - 1] && t[i] == t2[i - 1]);
            }
        }
    }
}

/// A table of odds as plain values: file names and weight bits.
pub open spec fn odds_view(odds: Seq<Entry<u32>>) -> Seq<(Seq<char>, u32)> {
    odds.map_values(|e: Entry<u32>| (e.key@, e.value))
}

/// An attribute as plain values: its layers (key and odds) when keyed, its odds when not.
pub open spec fn attribute_view(a: Attribute) -> (Seq<(Seq<char>, Seq<(Seq<char>, u32)>)>, Option<
    Seq<(Seq<char>, u32)>,
>) {
    match a {
        Attribute::Keyed(layers) => (
            layers@.map_values(|l: Entry<Odds>| (l.key@, odds_view(l.value@))),
            None,
        ),
        Attribute::Standard(odds) => (Seq::empty(), Some(odds_view(odds@))),
    }
}

/// The attributes of a configuration as plain values: names and attributes.
pub open spec fn attributes_view(attrs: Seq<Entry<Attribute>>) -> Seq<
    (Seq<char>, (Seq<(Seq<char>, Seq<(Seq<char>, u32)>)>, Option<Seq<(Seq<char>, u32)>>)),
> {
    attrs.map_values(|e: Entry<Attribute>| (e.key@, attribute_view(e.value)))
}

/// Two attributes describing the same files are the same.
proof fn lemma_attribute_unique(a: Attribute, b: Attribute, files: Seq<FileEntry>)
    requires
        attribute_describes(a, files),
        attribute_describes(b, files),
    ensures
        attribute_view(a) == attribute_view(b),
{
    let la = a->Keyed_0@;
    let lb = b->Keyed_0@;
    let oa = la[0].value@;
    let ob = lb[0].value@;
    lemma_ascending_same_keys(oa, ob);
    assert(odds_view(oa) =~= odds_view(ob)) by {
        assert forall|i: int| 0 <= i < oa.len() implies odds_view(oa)[i] == odds_view(ob)[i] by {
            assert(oa[i].value == LAYER_WEIGHT_BITS);
            assert(ob[i].value == LAYER_WEIGHT_BITS);
        }
    }
    assert(attribute_view(a).0 =~= attribute_view(b).0);
}

/// The last directory of a name is unique.
proof fn lemma_last_dir_unique(folders: Seq<AssetFolder>, j1: int, j2: int, k: Seq<char>, n: int)
    requires
        is_last_dir(folders, j1, k, n),
        is_last_dir(folders, j2, k, n),
    ensures
        j1 == j2,
{
    if j1 < j2 {
        assert(folders[j2].is_dir && folders[j2].name@ == k);
    } else if j2 < j1 {
        assert(folders[j1].is_dir && folders[j1].name@ == k);
    }
}

/// The description of an assets folder determines the attributes: two attribute tables
/// describing the same folder are the same, name for name and layer for layer.
pub proof fn law_described_attributes_are_unique(
    a: Seq<Entry<Attribute>>,
    b: Seq<Entry<Attribute>>,
    folders: Seq<AssetFolder>,
    n: int,
)
    requires
        attributes_describe(a, folders, n),
        attributes_describe(b, folders, n),
    ensures
        attributes_view(a) == attributes_view(b),
{
    lemma_ascending_same_keys(a, b);
    assert forall|i: int| 0 <= i < a.len() implies attributes_view(a)[i] == attributes_view(b)[i] by {
        assert(entry_describes(a[i], folders, n));
        assert(entry_describes(b[i], folders, n));
        let ja = choose|j: int|
            is_last_dir(folders, j, a[i].key@, n) && attribute_describes(a[i].value, folders[j].files@);
        let jb = choose|j: int|
            is_last_dir(folders, j, b[i].key@, n) && attribute_describes(b[i].value, folders[j].files@);
        lemma_last_dir_unique(folders, ja, jb, a[i].key@, n);
        lemma_attribute_unique(a[i].value, b[i].value, folders[ja].files@);
    }
    assert(attributes_view(a) =~= attributes_view(b));
}

/// Where the entry at `j` goes when an entry is inserted at `k`.
spec fn shifted(j: int, k: int) -> int {
    if j < k {
        j
    } else {
        j + 1
    }
}

/// Where the entry at `j` came from when an entry was inserted at `k` (`j` not `k`).
spec fn unshifted(j: int, k: int) -> int {
    if j < k {
        j
    } else {
        j - 1
    }
}

/// The entries of a listing with a non-directory inserted at `k`.
proof fn lemma_insert_entries(folders: Seq<AssetFolder>, k: int, e: AssetFolder)
    requires
        0 <= k <= folders.len(),
    ensures
        folders.insert(k, e).len() == (folders.len() + 1) as int,
        folders.insert(k, e)[k] == e,
        forall|j: int|
            0 <= j < folders.len() ==> #[trigger] folders.insert(k, e)[shifted(j, k)] == folders[j],
        forall|j: int|
            0 <= j < folders.len() + 1 && j != k ==> folders.insert(k, e)[j]
                == #[trigger] folders[unshifted(j, k)],
{
    let ins = folders.insert(k, e);
    assert forall|j: int| 0 <= j < folders.len() implies #[trigger] ins[shifted(j, k)] == folders[j] by {}
    assert forall|j: int| 0 <= j < folders.len() + 1 && j != k implies ins[j] == #[trigger] folders[unshifted(j, k)] by {}
}

/// Inserting a non-directory keeps the last directories of each name, shifted.
proof fn lemma_last_dir_insert(folders: Seq<AssetFolder>, k: int, e: AssetFolder, key: Seq<char>)
    requires
        !e.is_dir,
        0 <= k <= folders.len(),
    ensures
        forall|j: int|
            is_last_dir(folders, j, key, folders.len() as int) ==> #[trigger] is_last_dir(
                folders.insert(k, e),
                shifted(j, k),
                key,
                (folders.len() + 1) as int,
            ),
        forall|j: int|
            #[trigger] is_last_dir(folders.insert(k, e), j, key, (folders.len() + 1) as int) ==> j != k
                && is_last_dir(folders, unshifted(j, k), key, folders.len() as int),
{
    let n = folders.len() as int;
    let ins = folders.insert(k, e);
    lemma_insert_entries(folders, k, e);
    assert forall|j: int| is_last_dir(folders, j, key, n) implies #[trigger] is_last_dir(
        ins,
        shifted(j, k),
        key,
        n + 1,
    ) by {
        assert(ins[shifted(j, k)] == folders[j]);
        assert forall|j2: int| shifted(j, k) < j2 < n + 1 implies !(ins[j2].is_dir
            && (#[trigger] ins[j2]).name@ == key) by {
            if j2 != k {
                assert(ins[j2] == folders[unshifted(j2, k)]);
                assert(j < unshifted(j2, k) < n);
                assert(!(folders[unshifted(j2, k)].is_dir && folders[unshifted(j2, k)].name@ == key));
            }
        }
    }
    assert forall|j: int| #[trigger] is_last_dir(ins, j, key, n + 1) implies j != k
        && is_last_dir(folders, unshifted(j, k), key, n) by {
        assert(j != k);
        assert(ins[j] == folders[unshifted(j, k)]);
        assert forall|j2: int| unshifted(j, k) < j2 < n implies !(folders[j2].is_dir
            && (#[trigger] folders[j2]).name@ == key) by {
            assert(ins[shifted(j2, k)] == folders[j2]);
            assert(j < shifted(j2, k) < n + 1);
            assert(!(ins[shifted(j2, k)].is_dir && ins[shifted(j2, k)].name@ == key));
        }
    }
}

/// An entry of the assets folder that is not a directory (such as the configuration file
/// itself) changes nothing of what the attributes must describe, wherever it is listed.
pub proof fn law_top_level_files_do_not_matter(
    a: Seq<Entry<Attribute>>,
    folders: Seq<AssetFolder>,
    k: int,
    e: AssetFolder,
)
    requires
        !e.is_dir,
        0 <= k <= folders.len(),
    ensures
        attributes_describe(a, folders, folders.len() as int) == attributes_describe(
            a,
            folders.insert(k, e),
            (folders.len() + 1) as int,
        ),
{
    let n = folders.len() as int;
    let ins = folders.insert(k, e);
    lemma_insert_entries(folders, k, e);
    assert forall|key: Seq<char>| #[trigger] dir_named(folders, key, n) <==> dir_named(ins, key, n + 1) by {
        if exists|j: int| 0 <= j < n && folders[j].is_dir && folders[j].name@ == key {
            let j = choose|j: int| 0 <= j < n && folders[j].is_dir && folders[j].name@ == key;
            assert(ins[shifted(j, k)] == folders[j]);
        }
        if exists|j: int| 0 <= j < n + 1 && ins[j].is_dir && ins[j].name@ == key {
            let j = choose|j: int| 0 <= j < n + 1 && ins[j].is_dir && ins[j].name@ == key;
            assert(j != k);
            assert(ins[j] == folders[unshifted(j, k)]);
        }
    }
    assert forall|i: int| 0 <= i < a.len() implies (entry_describes(a[i], folders, n)
        <==> entry_describes(a[i], ins, n + 1)) by {
        let key = a[i].key@;
        lemma_last_dir_insert(folders, k, e, key);
        if entry_describes(a[i], folders, n) {
            let j = choose|j: int|
                is_last_dir(folders, j, key, n) && attribute_describes(a[i].value, folders[j].files@);
            assert(is_last_dir(ins, shifted(j, k), key, n + 1));
            assert(ins[shifted(j, k)] == folders[j]);
        }
        if entry_describes(a[i], ins, n + 1) {
            let j = choose|j: int|
                is_last_dir(ins, j, key, n + 1) && attribute_describes(a[i].value, ins[j].files@);
            assert(is_last_dir(folders, unshifted(j, k), key, n));
            assert(ins[j] == folders[unshifted(j, k)]);
        }
    }
}

/// Building a configuration from an assets folder ignores the entries that are not
/// directories: with or without one (such as a configuration written there before), the
/// attributes come out the same. So writing the configuration into the folder and
/// building it again gives the same attributes.
pub proof fn law_config_from_assets_ignores_top_level_files(
    first: Seq<Entry<Attribute>>,
    again: Seq<Entry<Attribute>>,
    folders: Seq<AssetFolder>,
    k: int,
    e: AssetFolder,
)
    requires
        !e.is_dir,
        0 <= k <= folders.len(),
        attributes_describe(first, folders, folders.len() as int),
        attributes_describe(again, folders.insert(k, e), (folders.len() + 1) as int),
    ensures
        attributes_view(first) == attributes_view(again),
{
    law_top_level_files_do_not_matter(again, folders, k, e);
    law_described_attributes_are_unique(first, again, folders, folders.len() as int);
}

} // verus!
