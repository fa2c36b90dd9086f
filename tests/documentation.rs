use config_docs::documentation::{ConfigDocumentation, ConfigDocumentationPart};
use config_docs::doc_comment::{extract_doc_comment, field_description};

fn line(key: &str, description: &str) -> ConfigDocumentationPart {
    ConfigDocumentationPart::Line(key.to_string(), description.to_string())
}

fn sub(key: &str, docs: ConfigDocumentation) -> ConfigDocumentationPart {
    ConfigDocumentationPart::SubPart(key.to_string(), docs)
}

fn doc_line(key: &str, comment: &[&str]) -> ConfigDocumentationPart {
    let lines: Vec<String> = comment.iter().map(|s| s.to_string()).collect();
    ConfigDocumentationPart::Line(key.to_string(), field_description(&lines))
}

fn pairs(docs: &ConfigDocumentation) -> Vec<(String, String)> {
    docs.as_tuples()
}

fn owned(expected: &[(&str, &str)]) -> Vec<(String, String)> {
    expected.iter().map(|(k, v)| (k.to_string(), v.to_string())).collect()
}

struct PlayerConfig;

impl PlayerConfig {
    fn config_docs() -> ConfigDocumentation {
        ConfigDocumentation(vec![
            doc_line("speed", &[" The speed of the player"]),
            doc_line("max_health", &[" The max health of the player"]),
        ])
    }
}

struct AppConfig;
struct AppColorConfig;
struct AppKeybindConfig;

impl AppConfig {
    fn config_docs() -> ConfigDocumentation {
        ConfigDocumentation(vec![
            sub("colors", AppColorConfig::config_docs()),
            sub("keybinds", AppKeybindConfig::config_docs()),
        ])
    }
}

impl AppColorConfig {
    fn config_docs() -> ConfigDocumentation {
        ConfigDocumentation(vec![
            doc_line("fg", &[" The foreground color for your app as a hex value"]),
            doc_line("bg", &[" The background color for your app as a hex value"]),
        ])
    }
}

impl AppKeybindConfig {
    fn config_docs() -> ConfigDocumentation {
        ConfigDocumentation(vec![
            doc_line("help", &[" Show the help inside your app"]),
            doc_line("quit", &[" Quit your app"]),
        ])
    }
}

struct ThemeConfig;
struct KeybindsConfig;
struct SettingsConfig;

impl ThemeConfig {
    fn config_docs() -> ConfigDocumentation {
        ConfigDocumentation(vec![
            doc_line(
                "fg",
                &[" Foreground color used in the text as a hex color", "", " # Example:", " `fg = \"#7f00ff\"`"],
            ),
            doc_line(
                "bg",
                &[" Background color used in the text as a hex color", "", " # Example:", " `bg = \"#7f00ff\"`"],
            ),
        ])
    }
}

impl KeybindsConfig {
    fn config_docs() -> ConfigDocumentation {
        ConfigDocumentation(vec![doc_line("help", &[" show help"]), doc_line("quit", &[" quit app"])])
    }
}

// Each field gives its own documented line, followed by the lines of its
// type's documentation.
impl SettingsConfig {
    fn config_docs() -> ConfigDocumentation {
        let mut parts = vec![doc_line("theme", &[" Sets the colors used throughout the app"])];
        parts.extend(ThemeConfig::config_docs().0);
        parts.push(doc_line("keybinds", &[" Sets the keybinds used throughout the app"]));
        parts.extend(KeybindsConfig::config_docs().0);
        ConfigDocumentation(parts)
    }
}

#[test]
fn it_works_simple() {
    assert_eq!(
        PlayerConfig::config_docs(),
        ConfigDocumentation(vec![
            line("speed", "The speed of the player"),
            line("max_health", "The max health of the player"),
        ])
    )
}

#[test]
fn it_works_nested() {
    assert_eq!(
        AppConfig::config_docs(),
        ConfigDocumentation(vec![
            sub(
                "colors",
                ConfigDocumentation(vec![
                    line("fg", "The foreground color for your app as a hex value"),
                    line("bg", "The background color for your app as a hex value"),
                ])
            ),
            sub(
                "keybinds",
                ConfigDocumentation(vec![
                    line("help", "Show the help inside your app"),
                    line("quit", "Quit your app"),
                ])
            ),
        ])
    )
}

#[test]
fn it_parses_structs() {
    assert_eq!(
        ThemeConfig::config_docs().as_tuples(),
        owned(&[
            ("fg", "Foreground color used in the text as a hex color"),
            ("bg", "Background color used in the text as a hex color"),
        ])
    )
}

#[test]
fn it_parses_nested_structs() {
    assert_eq!(
        SettingsConfig::config_docs().as_tuples(),
        owned(&[
            ("theme", "Sets the colors used throughout the app"),
            ("fg", "Foreground color used in the text as a hex color"),
            ("bg", "Background color used in the text as a hex color"),
            ("keybinds", "Sets the keybinds used throughout the app"),
            ("help", "show help"),
            ("quit", "quit app"),
        ])
    )
}

fn nested_tree() -> ConfigDocumentation {
    ConfigDocumentation(vec![
        sub(
            "colors",
            ConfigDocumentation(vec![line("fg", "Foreground color"), line("bg", "Background color")]),
        ),
        sub(
            "keybinds",
            ConfigDocumentation(vec![line("help", "show help"), line("quit", "quit app")]),
        ),
    ])
}

#[test]
fn leaf_tree_flattens_in_order() {
    let tree = ConfigDocumentation(vec![
        line("speed", "The speed of the player"),
        line("max_health", "The max health of the player"),
    ]);
    assert_eq!(
        pairs(&tree),
        owned(&[("speed", "The speed of the player"), ("max_health", "The max health of the player")])
    );
}

#[test]
fn nested_tree_flattens_depth_first() {
    assert_eq!(
        pairs(&nested_tree()),
        owned(&[
            ("colors", ""),
            ("fg", "Foreground color"),
            ("bg", "Background color"),
            ("keybinds", ""),
            ("help", "show help"),
            ("quit", "quit app"),
        ])
    );
}

#[test]
fn flatten_length_counts_nodes_and_nested_pairs() {
    let tree = ConfigDocumentation(vec![
        line("a", "first"),
        sub("b", ConfigDocumentation(vec![line("c", "third"), sub("d", ConfigDocumentation(vec![]))])),
        line("e", "last"),
    ]);
    // two lines, one nested tree, and the two pairs its children flatten to
    assert_eq!(pairs(&tree).len(), 2 + 1 + 2);
    assert_eq!(
        pairs(&tree),
        owned(&[("a", "first"), ("b", ""), ("c", "third"), ("d", ""), ("e", "last")])
    );
}

#[test]
fn reads_repeat_identically() {
    let tree = nested_tree();
    assert_eq!(tree.as_tuples(), tree.as_tuples());
    assert_eq!(tree.render(), tree.render());
}

#[test]
fn empty_tree_gives_nothing() {
    let tree = ConfigDocumentation(vec![]);
    assert!(tree.as_tuples().is_empty());
    assert_eq!(tree.render(), "");
}

#[test]
fn line_renders_padded_key() {
    let tree = ConfigDocumentation(vec![line("fg", "Foreground color")]);
    assert_eq!(tree.render(), "fg:                  Foreground color\n");
    assert_eq!(tree.render().len(), 20 + 1 + "Foreground color".len() + 1);
}

#[test]
fn long_key_is_not_cut() {
    let tree = ConfigDocumentation(vec![line("a_key_longer_than_the_column", "x")]);
    assert_eq!(tree.render(), "a_key_longer_than_the_column: x\n");
    let exact = ConfigDocumentation(vec![line("nineteen_characters", "")]);
    assert_eq!(exact.render(), "nineteen_characters: \n");
}

#[test]
fn nested_tree_renders_heading_then_children() {
    let expected = [
        "colors\n",
        "fg:                  Foreground color\n",
        "bg:                  Background color\n",
        "keybinds\n",
        "help:                show help\n",
        "quit:                quit app\n",
    ]
    .concat();
    assert_eq!(nested_tree().render(), expected);
}

#[test]
fn part_renders_alone() {
    assert_eq!(line("fg", "x").render(), "fg:                  x\n");
    let part = sub("colors", ConfigDocumentation(vec![line("bg", "y")]));
    assert_eq!(part.render(), "colors\nbg:                  y\n");
}

#[test]
fn duplicate_keys_are_kept_in_order() {
    let tree = ConfigDocumentation(vec![line("k", "one"), line("k", "two")]);
    assert_eq!(pairs(&tree), owned(&[("k", "one"), ("k", "two")]));
}

#[test]
fn equality_is_structural() {
    assert_eq!(nested_tree(), nested_tree());
    let swapped = ConfigDocumentation(vec![
        sub(
            "keybinds",
            ConfigDocumentation(vec![line("help", "show help"), line("quit", "quit app")]),
        ),
        sub(
            "colors",
            ConfigDocumentation(vec![line("fg", "Foreground color"), line("bg", "Background color")]),
        ),
    ]);
    assert_ne!(nested_tree(), swapped);
    let changed = ConfigDocumentation(vec![
        sub(
            "colors",
            ConfigDocumentation(vec![line("fg", "Foreground color"), line("bg", "Background colour")]),
        ),
        sub(
            "keybinds",
            ConfigDocumentation(vec![line("help", "show help"), line("quit", "quit app")]),
        ),
    ]);
    assert_ne!(nested_tree(), changed);
    assert_ne!(line("a", ""), sub("a", ConfigDocumentation(vec![])));
    assert_ne!(ConfigDocumentation(vec![line("a", "")]), ConfigDocumentation(vec![]));
}

#[test]
fn parts_are_in_declaration_order() {
    let tree = nested_tree();
    let parts = tree.parts();
    assert_eq!(parts.len(), 2);
    assert_eq!(parts[1], sub("keybinds", ConfigDocumentation(vec![line("help", "show help"), line("quit", "quit app")])));
}

#[test]
fn description_strips_one_space_and_skips_blank_lines() {
    let lines: Vec<String> = vec!["".to_string(), " ".to_string(), "  two spaces".to_string(), " later".to_string()];
    assert_eq!(field_description(&lines), " two spaces");
    let none: Vec<String> = vec![];
    assert_eq!(field_description(&none), "");
    let tight: Vec<String> = vec!["no space".to_string()];
    assert_eq!(field_description(&tight), "no space");
}

#[test]
fn doc_comment_lines_are_stripped() {
    let lines: Vec<String> = vec![" a".to_string(), "b".to_string(), "".to_string(), "  c".to_string()];
    assert_eq!(
        extract_doc_comment(&lines),
        vec!["a".to_string(), "b".to_string(), "".to_string(), " c".to_string()]
    );
}

#[test]
fn description_skips_lines_of_spaces_and_tabs() {
    let lines: Vec<String> = vec!["  ".to_string(), " x".to_string()];
    assert_eq!(field_description(&lines), "x");
    let tabs: Vec<String> = vec![" \t ".to_string(), "\t".to_string(), " y z".to_string()];
    assert_eq!(field_description(&tabs), "y z");
    let all_blank: Vec<String> = vec!["   ".to_string(), "\t".to_string()];
    assert_eq!(field_description(&all_blank), "");
}
