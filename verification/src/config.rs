//! The configuration of a generated collection.
use vstd::prelude::*;

use crate::order::{ascending, is_ascending};

verus! {

/// The collection the generated items belong to.
#[derive(Debug)]
pub struct Collection {
    pub name: String,
    pub family: String,
}

impl Clone for Collection {
    fn clone(&self) -> (r: Collection)
        ensures
            r == *self,
    {
        Collection { name: self.name.clone(), family: self.family.clone() }
    }
}

/// A creator of the collection and its share of royalties.
#[derive(Debug)]
pub struct Creator {
    pub address: String,
    pub share: u8,
}

impl Clone for Creator {
    fn clone(&self) -> (r: Creator)
        ensures
            r == *self,
    {
        Creator { address: self.address.clone(), share: self.share }
    }
}

/// A named entry of a table kept in ascending order of names.
#[derive(Debug)]
pub struct Entry<V> {
    pub key: String,
    pub value: V,
}

/// The files of a layer and the odds of picking each, held as the bits of its `f32`
/// weight, in ascending order of file names.
pub type Odds = Vec<Entry<u32>>;

/// How the files of an attribute are chosen: from one table of odds, or from the table
/// whose key matches a trait chosen before (the key `_` applies when none does).
#[derive(Debug)]
pub enum Attribute {
    Keyed(Vec<Entry<Odds>>),
    Standard(Odds),
}

/// The configuration of a collection: its description, its creators, its attributes (in
/// ascending order of name) and how many items to generate.
#[derive(Debug)]
pub struct Config {
    pub name: String,
    pub symbol: String,
    pub description: String,
    pub external_url: String,
    pub creators: Vec<Creator>,
    pub royalty_percentage: u8,
    pub collection: Collection,
    pub attributes: Vec<Entry<Attribute>>,
    pub guaranteed_attribute_rolls: Vec<Vec<String>>,
    pub amount: u32,
}

/// Copies a list of creators.
pub fn clone_creators(v: &Vec<Creator>) -> (r: Vec<Creator>)
    ensures
        r@ == v@,
{
    let mut r: Vec<Creator> = Vec::new();
    let mut i: usize = 0;
    while i < v.len()
        invariant
            0 <= i <= v@.len(),
            r@ == v@.subrange(0, i as int),
        decreases v@.len() - i,
    {
        r.push(v[i].clone());
        i = i + 1;
        assert(r@ =~= v@.subrange(0, i as int));
    }
    assert(v@.subrange(0, v@.len() as int) =~= v@);
    r
}

/// Whether an attribute's tables are in ascending order of names: its layers and each
/// layer's files, or its files.
pub open spec fn attribute_ordered(a: Attribute) -> bool {
    match a {
        Attribute::Keyed(layers) => {
            &&& ascending(layers@)
            &&& forall|i: int| 0 <= i < layers@.len() ==> ascending(#[trigger] layers@[i].value@)
        },
        Attribute::Standard(odds) => ascending(odds@),
    }
}

/// Whether every table of a configuration is in ascending order of names, as the maps it
/// is read from keep them.
pub open spec fn config_ordered(c: Config) -> bool {
    &&& ascending(c.attributes@)
    &&& forall|i: int| 0 <= i < c.attributes@.len() ==> attribute_ordered(#[trigger] c.attributes@[i].value)
}

/// Whether an attribute's tables are in ascending order of names.
pub fn check_attribute_order(a: &Attribute) -> (r: bool)
    ensures
        r == attribute_ordered(*a),
{
    match a {
        Attribute::Standard(odds) => is_ascending(odds),
        Attribute::Keyed(layers) => {
            if !is_ascending(layers) {
                return false;
            }
            let mut i: usize = 0;
            while i < layers.len()
                invariant
                    0 <= i <= layers@.len(),
                    *a == Attribute::Keyed(*layers),
                    ascending(layers@),
                    forall|j: int| 0 <= j < i ==> ascending(#[trigger] layers@[j].value@),
                decreases layers@.len() - i,
            {
                if !is_ascending(&layers[i].value) {
                    assert(!ascending(layers@[i as int].value@));
                    return false;
                }
                i = i + 1;
            }
            true
        },
    }
}

/// Whether every table of a configuration is in ascending order of names.
pub fn check_config_order(c: &Config) -> (r: bool)
    ensures
        r == config_ordered(*c),
{
    if !is_ascending(&c.attributes) {
        return false;
    }
    let mut i: usize = 0;
    while i < c.attributes.len()
        invariant
            0 <= i <= c.attributes@.len(),
            forall|j: int| 0 <= j < i ==> attribute_ordered(#[trigger] c.attributes@[j].value),
        decreases c.attributes@.len() - i,
    {
        if !check_attribute_order(&c.attributes[i].value) {
            assert(!attribute_ordered(c.attributes@[i as int].value));
            return false;
        }
        i = i + 1;
    }
    true
}

} // verus!
