use mysolanaapp::config::{Attribute, Collection, Config, Creator, Entry};
use mysolanaapp::metadata::{create_metadata, shown_traits, Trait};
use mysolanaapp::rolls::{roll_plan, Roll};
use mysolanaapp::text::{decimal_string, starts_with_underscore, strip_png_suffix};
use mysolanaapp::traits::{
    add_drawn_trait, any_trait_matches, choice_weights, choose_layer, guaranteed_traits, split_key,
    trait_from_choice, LayerChoice,
};

fn s(x: &str) -> String {
    String::from(x)
}

fn t(a: &str, b: &str) -> Trait {
    Trait { trait_type: s(a), value: s(b) }
}

fn odds(files: &[&str]) -> Vec<Entry<u32>> {
    files.iter().map(|f| Entry { key: s(f), value: 0x3dcc_cccd }).collect()
}

fn config() -> Config {
    Config {
        name: s("NFT Title"),
        symbol: s("SNFT"),
        description: s("Hello, NFT!"),
        external_url: s("https://example.com"),
        creators: vec![Creator { address: s("BPr18DCdtzASf1YVbUVZ4dZ7mA6jpMYZSUP3YuiMgGeD"), share: 100 }],
        royalty_percentage: 10,
        collection: Collection { name: s("NFT Collection"), family: s("NFT Family") },
        attributes: vec![
            Entry { key: s("LAYER_NAME"), value: Attribute::Keyed(vec![Entry { key: s("_"), value: odds(&["FILE_NAME.png"]) }]) },
            Entry {
                key: s("LAYER_NAME_2"),
                value: Attribute::Keyed(vec![
                    Entry { key: s("KEY"), value: odds(&["FILE_NAME_3.png"]) },
                    Entry { key: s("_"), value: odds(&["FILE_NAME_2.png"]) },
                ]),
            },
            Entry { key: s("_key"), value: Attribute::Standard(odds(&["KEY"])) },
        ],
        guaranteed_attribute_rolls: vec![vec![s("FILE_NAME.png"), s("FILE_NAME_2.png")]],
        amount: 10,
    }
}

#[test]
fn decimal_strings() {
    assert_eq!(decimal_string(0), "0");
    assert_eq!(decimal_string(7), "7");
    assert_eq!(decimal_string(10), "10");
    assert_eq!(decimal_string(4_294_967_295), "4294967295");
}

#[test]
fn png_suffix_is_stripped_once() {
    assert_eq!(strip_png_suffix(&s("FILE.png")), "FILE");
    assert_eq!(strip_png_suffix(&s("FILE.png.png")), "FILE.png");
    assert_eq!(strip_png_suffix(&s("FILE.jpg")), "FILE.jpg");
    assert_eq!(strip_png_suffix(&s(".png")), "");
    assert_eq!(strip_png_suffix(&s("png")), "png");
}

#[test]
fn underscore_prefix() {
    assert!(starts_with_underscore(&s("_key")));
    assert!(!starts_with_underscore(&s("key_")));
    assert!(!starts_with_underscore(&s("")));
}

#[test]
fn metadata_of_an_item() {
    let m = create_metadata(7, vec![t("_key", "KEY"), t("LAYER_NAME", "FILE_NAME"), t("B", "x")], &config());
    assert_eq!(m.name, "NFT Title #7");
    assert_eq!(m.image, "7.png");
    assert_eq!(m.symbol, "SNFT");
    assert_eq!(m.seller_fee_basis_points, 0);
    assert_eq!(m.edition, 0);
    let shown: Vec<(String, String)> = m.attributes.iter().map(|t| (t.trait_type.clone(), t.value.clone())).collect();
    assert_eq!(shown, vec![(s("LAYER_NAME"), s("FILE_NAME")), (s("B"), s("x"))]);
    assert_eq!(m.properties.files.len(), 1);
    assert_eq!(m.properties.files[0].uri, "7.png");
    assert_eq!(m.properties.files[0].file_type, "image/png");
    assert_eq!(m.properties.category, "image");
    assert_eq!(m.properties.creators[0].share, 100);
    assert_eq!(m.collection.family, "NFT Family");
}

#[test]
fn hidden_traits_are_dropped_in_order() {
    let r = shown_traits(vec![t("_a", "1"), t("b", "2"), t("_c", "3"), t("d", "4")]);
    let names: Vec<&str> = r.iter().map(|t| t.trait_type.as_str()).collect();
    assert_eq!(names, vec!["b", "d"]);
}

#[test]
fn one_guaranteed_roll_lands_midway() {
    let plan = roll_plan(10, 1);
    assert_eq!(plan.len(), 10);
    for (i, r) in plan.iter().enumerate() {
        if i == 5 {
            assert_eq!(*r, Roll::Guaranteed(0));
        } else {
            assert_eq!(*r, Roll::Random);
        }
    }
}

#[test]
fn guaranteed_rolls_every_frequency_until_used_up() {
    let plan = roll_plan(10, 3);
    let expected = vec![
        Roll::Random, Roll::Random, Roll::Guaranteed(0), Roll::Random, Roll::Guaranteed(1),
        Roll::Random, Roll::Guaranteed(2), Roll::Random, Roll::Random, Roll::Random,
    ];
    assert_eq!(plan, expected);
    assert!(roll_plan(5, 0).iter().all(|r| *r == Roll::Random));
    assert_eq!(roll_plan(1, 3), vec![Roll::Random]);
    assert_eq!(roll_plan(0, 0), vec![]);
}

#[test]
fn guaranteed_roll_traits_follow_attribute_order() {
    let traits = guaranteed_traits(&config(), 0);
    assert_eq!(traits.len(), 2);
    assert_eq!((traits[0].trait_type.as_str(), traits[0].value.as_str()), ("LAYER_NAME", "FILE_NAME.png"));
    assert_eq!((traits[1].trait_type.as_str(), traits[1].value.as_str()), ("LAYER_NAME_2", "FILE_NAME_2.png"));
}

#[test]
fn layer_keys_split_at_the_first_colon() {
    assert_eq!(split_key(&s("Hat:Red:x")), (s("Hat"), s("Red:x")));
    assert_eq!(split_key(&s("KEY")), (s("_key"), s("KEY")));
    assert!(any_trait_matches(&s("KEY"), &vec![t("_key", "KEY")]));
    assert!(any_trait_matches(&s("Hat:Red"), &vec![t("x", "y"), t("Hat", "Red")]));
    assert!(!any_trait_matches(&s("Hat:Red"), &vec![t("Hat", "Blue")]));
}

#[test]
fn keyed_layer_follows_an_earlier_trait() {
    let c = config();
    let attr = &c.attributes[1].value;
    assert_eq!(choose_layer(attr, &vec![t("_key", "KEY")]), LayerChoice::Keyed(0));
    assert_eq!(choose_layer(attr, &vec![t("_key", "OTHER")]), LayerChoice::Keyed(1));
    assert_eq!(choose_layer(&c.attributes[2].value, &vec![]), LayerChoice::Standard);
}

#[test]
fn only_the_first_key_can_match() {
    let layers = Attribute::Keyed(vec![
        Entry { key: s("A:1"), value: odds(&["a.png"]) },
        Entry { key: s("B:2"), value: odds(&["b.png"]) },
        Entry { key: s("_"), value: odds(&["c.png"]) },
    ]);
    // "B:2" matches a chosen trait, but the failed look-up of "A:1" used up the pass.
    assert_eq!(choose_layer(&layers, &vec![t("B", "2")]), LayerChoice::Keyed(2));
    assert_eq!(choose_layer(&layers, &vec![t("A", "1")]), LayerChoice::Keyed(0));
}

#[test]
fn missing_default_layer() {
    let layers = Attribute::Keyed(vec![Entry { key: s("A:1"), value: odds(&["a.png"]) }]);
    assert_eq!(choose_layer(&layers, &vec![]), LayerChoice::Missing);
}

#[test]
fn trait_value_drops_the_png_extension() {
    let tr = trait_from_choice(&s("LAYER_NAME"), &s("FILE_NAME.png"));
    assert_eq!(tr.trait_type, "LAYER_NAME");
    assert_eq!(tr.value, "FILE_NAME");
}

#[test]
fn plan_stops_after_the_first_item_when_the_second_divides_by_zero() {
    // One guaranteed roll and two items: the frequency 2 / 2 is 1, no division by zero.
    assert_eq!(roll_plan(2, 1).len(), 2);
    // Two guaranteed rolls and two items: the frequency 2 / 3 is 0.
    let plan = roll_plan(2, 2);
    assert_eq!(plan, vec![Roll::Random]);
    // A single item never reaches the division.
    assert_eq!(roll_plan(1, 5), vec![Roll::Random]);
}

#[test]
fn configuration_order_is_checked() {
    assert!(mysolanaapp::config::check_config_order(&config()));
    let mut c = config();
    c.attributes.swap(0, 1);
    assert!(!mysolanaapp::config::check_config_order(&c));
    let mut c = config();
    c.attributes[1].value = Attribute::Keyed(vec![
        Entry { key: s("_"), value: odds(&["a.png"]) },
        Entry { key: s("KEY"), value: odds(&["b.png"]) },
    ]);
    assert!(!mysolanaapp::config::check_config_order(&c));
    let mut c = config();
    c.attributes[2].value = Attribute::Standard(odds(&["b", "a"]));
    assert!(!mysolanaapp::config::check_config_order(&c));
}

#[test]
fn drawn_file_becomes_the_next_trait() {
    let c = config();
    let mut chosen = vec![t("_key", "KEY")];
    let entry = &c.attributes[1];
    let choice = choose_layer(&entry.value, &chosen);
    assert_eq!(choice, LayerChoice::Keyed(0));
    assert_eq!(choice_weights(&entry.value, choice), Some(vec![0x3dcc_cccd]));
    add_drawn_trait(entry, choice, 0, &mut chosen);
    assert_eq!(chosen.len(), 2);
    assert_eq!((chosen[1].trait_type.as_str(), chosen[1].value.as_str()), ("LAYER_NAME_2", "FILE_NAME_3"));
    assert_eq!(choice_weights(&entry.value, LayerChoice::Missing), None);
    assert_eq!(choice_weights(&c.attributes[2].value, LayerChoice::Standard), Some(vec![0x3dcc_cccd]));
}
