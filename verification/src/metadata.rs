//! The metadata of generated items.
use vstd::prelude::*;

use crate::config::{clone_creators, Collection, Config, Creator};
use crate::text::{decimal, decimal_string, starts_with_underscore};

verus! {

/// A trait of an item: the attribute and the layer picked for it.
#[derive(Debug)]
pub struct Trait {
    pub trait_type: String,
    pub value: String,
}

impl Clone for Trait {
    fn clone(&self) -> (r: Trait)
        ensures
            r == *self,
    {
        Trait { trait_type: self.trait_type.clone(), value: self.value.clone() }
    }
}

/// A file of an item and its media type.
#[derive(Debug)]
pub struct PropertyFile {
    pub uri: String,
    pub file_type: String,
}

#[derive(Debug)]
pub struct Properties {
    pub files: Vec<PropertyFile>,
    pub category: String,
    pub creators: Vec<Creator>,
}

/// The metadata of one generated item.
#[derive(Debug)]
pub struct NFTMetadata {
    pub name: String,
    pub symbol: String,
    pub description: String,
    pub seller_fee_basis_points: u32,
    pub image: String,
    pub external_url: String,
    pub edition: u16,
    pub attributes: Vec<Trait>,
    pub properties: Properties,
    pub collection: Collection,
}

/// Whether a trait is shown in the metadata: traits whose attribute name begins with `_`
/// only steer the choice of other traits.
pub open spec fn is_shown(t: Trait) -> bool {
    !(t.trait_type@.len() > 0 && t.trait_type@[0] == '_')
}

/// The shown traits of `traits`, in order.
pub open spec fn shown(traits: Seq<Trait>) -> Seq<Trait> {
    traits.filter(|t: Trait| is_shown(t))
}

/// The name of item `id`: the collection name, ` #` and the id.
pub open spec fn item_name(config_name: Seq<char>, id: u32) -> Seq<char> {
    config_name + seq![' ', '#'] + decimal(id as nat)
}

/// The image file of item `id`.
pub open spec fn image_name(id: u32) -> Seq<char> {
    decimal(id as nat) + seq!['.', 'p', 'n', 'g']
}

/// The shown traits of `traits`, in order.
pub fn shown_traits(traits: Vec<Trait>) -> (r: Vec<Trait>)
    ensures
        r@ == shown(traits@),
{
    let mut r: Vec<Trait> = Vec::new();
    let mut i: usize = 0;
    while i < traits.len()
        invariant
            0 <= i <= traits@.len(),
            r@ == traits@.subrange(0, i as int).filter(|t: Trait| is_shown(t)),
        decreases traits@.len() - i,
    {
        proof {
            reveal_with_fuel(Seq::filter, 1);
            assert(traits@.subrange(0, i + 1).drop_last() =~= traits@.subrange(0, i as int));
        }
        let t = traits[i].clone();
        if !starts_with_underscore(&t.trait_type) {
            r.push(t);
        }
        i = i + 1;
    }
    assert(traits@.subrange(0, traits@.len() as int) =~= traits@);
    r
}

/// The metadata shows no trait whose attribute name begins with `_`, and shows every
/// other trait picked for the item.
pub proof fn law_metadata_hides_underscore_traits(traits: Seq<Trait>)
    ensures
        forall|i: int| 0 <= i < shown(traits).len() ==> is_shown(#[trigger] shown(traits)[i]),
        forall|i: int|
            0 <= i < traits.len() && is_shown(#[trigger] traits[i]) ==> shown(traits).contains(
                traits[i],
            ),
{
    let pred = |t: Trait| is_shown(t);
    assert forall|i: int| 0 <= i < traits.filter(pred).len() implies is_shown(
        #[trigger] traits.filter(pred)[i],
    ) by {
        traits.lemma_filter_pred(pred, i);
    }
    assert forall|i: int| 0 <= i < traits.len() && is_shown(#[trigger] traits[i]) implies traits.filter(
        pred,
    ).contains(traits[i]) by {
        traits.lemma_filter_contains(pred, i);
    }
}

/// Builds the metadata of item `id` with the traits picked for it: named after the
/// collection and the id, with the image `<id>.png`, the shown traits in order, the
/// creators and collection of the configuration, no seller fee and edition 0.
pub fn create_metadata(id: u32, attributes: Vec<Trait>, config: &Config) -> (r: NFTMetadata)
    ensures
        r.name@ == item_name(config.name@, id),
        r.symbol@ == config.symbol@,
        r.description@ == config.description@,
        r.seller_fee_basis_points == 0,
        r.image@ == image_name(id),
        r.external_url@ == config.external_url@,
        r.edition == 0,
        r.attributes@ == shown(attributes@),
        r.properties.files@.len() == 1,
        r.properties.files@[0].uri@ == image_name(id),
        r.properties.files@[0].file_type@ == seq!['i', 'm', 'a', 'g', 'e', '/', 'p', 'n', 'g'],
        r.properties.category@ == seq!['i', 'm', 'a', 'g', 'e'],
        r.properties.creators@ == config.creators@,
        r.collection == config.collection,
{
    let id_text = decimal_string(id);
    let mut name = config.name.clone();
    name.append(" #");
    name.append(id_text.as_str());
    let mut image = id_text.clone();
    image.append(".png");
    let uri = image.clone();
    let file_type = String::from_str("image/png");
    let category = String::from_str("image");
    proof {
        reveal_strlit(" #");
        reveal_strlit(".png");
        reveal_strlit("image/png");
        reveal_strlit("image");
    }
    let mut files: Vec<PropertyFile> = Vec::new();
    files.push(PropertyFile { uri, file_type });
    assert(name@ =~= item_name(config.name@, id));
    assert(image@ =~= image_name(id));
    assert(files@[0].file_type@ =~= seq!['i', 'm', 'a', 'g', 'e', '/', 'p', 'n', 'g']);
    assert(category@ =~= seq!['i', 'm', 'a', 'g', 'e']);
    NFTMetadata {
        name,
        symbol: config.symbol.clone(),
        description: config.description.clone(),
        seller_fee_basis_points: 0,
        image,
        external_url: config.external_url.clone(),
        edition: 0,
        attributes: shown_traits(attributes),
        properties: Properties { files, category, creators: clone_creators(&config.creators) },
        collection: config.collection.clone(),
    }
}

} // verus!
