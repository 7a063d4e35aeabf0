use mysolanaapp::assets::{config_from_assets, AssetFolder, FileEntry, LAYER_WEIGHT_BITS};
use mysolanaapp::cli::{
    check_existing_assets, generate_steps, init_mode, scratch_folder_action, FolderAction,
    Generate, Init, InitError, InitMode,
};
use mysolanaapp::config::{Attribute, Collection, Config, Creator};
use mysolanaapp::order::{insert_entry, text_less};
use mysolanaapp::config::Entry;

fn s(x: &str) -> String {
    String::from(x)
}

fn example() -> Config {
    Config {
        name: s("NFT Title"),
        symbol: s("SNFT"),
        description: s("Hello, NFT!"),
        external_url: s("https://example.com"),
        creators: vec![Creator { address: s("BPr18DCdtzASf1YVbUVZ4dZ7mA6jpMYZSUP3YuiMgGeD"), share: 100 }],
        royalty_percentage: 10,
        collection: Collection { name: s("NFT Collection"), family: s("NFT Family") },
        attributes: vec![],
        guaranteed_attribute_rolls: vec![vec![s("FILE_NAME.png")]],
        amount: 10,
    }
}

fn file(name: &str, is_dir: bool) -> FileEntry {
    FileEntry { name: s(name), is_dir }
}

#[test]
fn weight_bits_are_one_tenth() {
    assert_eq!(f32::from_bits(LAYER_WEIGHT_BITS), 0.1f32);
}

#[test]
fn names_order_like_strings() {
    for (a, b) in [("a", "b"), ("a", "ab"), ("", "a"), ("B", "a"), ("_", "a"), ("KEY", "_"), ("ab", "ab"), ("é", "e")] {
        assert_eq!(text_less(&s(a), &s(b)), s(a) < s(b), "{} < {}", a, b);
        assert_eq!(text_less(&s(b), &s(a)), s(b) < s(a), "{} < {}", b, a);
    }
}

#[test]
fn insert_keeps_the_table_sorted_and_replaces() {
    let mut table: Vec<Entry<u32>> = Vec::new();
    for (k, v) in [("m", 1), ("c", 2), ("x", 3), ("c", 4), ("a", 5)] {
        insert_entry(&mut table, s(k), v);
    }
    let got: Vec<(String, u32)> = table.into_iter().map(|e| (e.key, e.value)).collect();
    assert_eq!(got, vec![(s("a"), 5), (s("c"), 4), (s("m"), 1), (s("x"), 3)]);
}

#[test]
fn existing_folder_becomes_attributes() {
    let folders = vec![
        AssetFolder { name: s("config.json"), is_dir: false, files: vec![] },
        AssetFolder { name: s("Hat"), is_dir: true, files: vec![file("red.png", false), file("blue.png", false), file("old", true)] },
        AssetFolder { name: s("Background"), is_dir: true, files: vec![] },
    ];
    let c = config_from_assets(example(), &folders);
    assert_eq!(c.name, "NFT Title");
    assert_eq!(c.amount, 10);
    assert!(c.guaranteed_attribute_rolls.is_empty());
    let names: Vec<&str> = c.attributes.iter().map(|e| e.key.as_str()).collect();
    assert_eq!(names, vec!["Background", "Hat"]);
    match &c.attributes[1].value {
        Attribute::Keyed(layers) => {
            assert_eq!(layers.len(), 1);
            assert_eq!(layers[0].key, "_");
            let files: Vec<(&str, u32)> = layers[0].value.iter().map(|e| (e.key.as_str(), e.value)).collect();
            assert_eq!(files, vec![("blue.png", LAYER_WEIGHT_BITS), ("red.png", LAYER_WEIGHT_BITS)]);
        }
        Attribute::Standard(_) => panic!("expected a keyed attribute"),
    }
    match &c.attributes[0].value {
        Attribute::Keyed(layers) => assert!(layers[0].value.is_empty()),
        Attribute::Standard(_) => panic!("expected a keyed attribute"),
    }
}

#[test]
fn generate_steps_follow_the_flags() {
    let g = Generate { skip_metadata: true, skip_art: false, assets: s("./assets"), config: s("./assets/config.json"), output: s("./generated") };
    let st = generate_steps(&g);
    assert!(!st.metadata && st.art);
}

#[test]
fn init_decisions() {
    let i = Init { folder: s("./assets"), overwrite: false, from_existing: Some(s("x")) };
    assert_eq!(init_mode(&i), InitMode::FromExisting);
    let i = Init { folder: s("./assets"), overwrite: false, from_existing: None };
    assert_eq!(init_mode(&i), InitMode::FromScratch);
    assert_eq!(scratch_folder_action(false, false), Ok(FolderAction::Create));
    assert_eq!(scratch_folder_action(true, true), Ok(FolderAction::RemoveThenCreate));
    assert_eq!(scratch_folder_action(true, false), Err(InitError::FolderExists));
    assert_eq!(check_existing_assets(false, false, false, false), Err(InitError::FolderMissing));
    assert_eq!(check_existing_assets(true, false, false, false), Err(InitError::NotADirectory));
    assert_eq!(check_existing_assets(true, true, true, false), Err(InitError::ConfigExists));
    assert_eq!(check_existing_assets(true, true, true, true), Ok(()));
    assert_eq!(check_existing_assets(true, true, false, false), Ok(()));
}

fn attributes_of(c: &Config) -> Vec<(String, Vec<(String, Vec<(String, u32)>)>)> {
    c.attributes
        .iter()
        .map(|e| match &e.value {
            Attribute::Keyed(layers) => (
                e.key.clone(),
                layers.iter().map(|l| (l.key.clone(), l.value.iter().map(|f| (f.key.clone(), f.value)).collect())).collect(),
            ),
            Attribute::Standard(_) => panic!("expected a keyed attribute"),
        })
        .collect()
}

#[test]
fn config_written_into_the_folder_changes_nothing_when_built_again() {
    let folders = vec![
        AssetFolder { name: s("Hat"), is_dir: true, files: vec![file("red.png", false), file("blue.png", false)] },
        AssetFolder { name: s("Eyes"), is_dir: true, files: vec![file("x.png", false)] },
    ];
    let first = config_from_assets(example(), &folders);
    for k in 0..=folders.len() {
        let mut again_folders: Vec<AssetFolder> = folders
            .iter()
            .map(|f| AssetFolder { name: f.name.clone(), is_dir: f.is_dir, files: f.files.iter().map(|x| file(&x.name, x.is_dir)).collect() })
            .collect();
        again_folders.insert(k, AssetFolder { name: s("config.json"), is_dir: false, files: vec![] });
        let again = config_from_assets(example(), &again_folders);
        assert_eq!(attributes_of(&first), attributes_of(&again));
    }
}

#[test]
fn built_configuration_is_ordered() {
    let folders = vec![
        AssetFolder { name: s("Hat"), is_dir: true, files: vec![file("red.png", false), file("blue.png", false)] },
        AssetFolder { name: s("Eyes"), is_dir: true, files: vec![file("x.png", false)] },
    ];
    assert!(mysolanaapp::config::check_config_order(&config_from_assets(example(), &folders)));
}
