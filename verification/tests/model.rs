use cli_items::item::{EnvValue, Item, ItemKind, Meta, Named, ShortLong};

#[test]
fn short_only_width_is_two() {
    assert_eq!(ShortLong::Short('v').full_width(), 2);
    assert_eq!(ShortLong::Short('x').full_width(), 2);
}

#[test]
fn long_only_width_is_six_plus_len() {
    assert_eq!(ShortLong::Long("verbose".to_string()).full_width(), 6 + 7);
    assert_eq!(ShortLong::Long("o".to_string()).full_width(), 7);
}

#[test]
fn both_forms_width_matches_long_only() {
    let both = ShortLong::ShortLong('v', "verbose".to_string());
    let long_only = ShortLong::Long("verbose".to_string());
    assert_eq!(both.full_width(), 6 + 7);
    assert_eq!(both.full_width(), long_only.full_width());
}

#[test]
fn item_full_width_per_variant() {
    assert_eq!(Item::Decor { help: None }.full_width(), 0);
    let flag = Item::Flag { name: ShortLong::Short('v'), help: None };
    assert_eq!(flag.full_width(), 2);
    let arg = Item::Argument {
        name: ShortLong::Long("file".to_string()),
        metavar: "PATH".to_string(),
        env: None,
        help: None,
    };
    assert_eq!(arg.full_width(), 10 + 4 + 3);
    let pos = Item::Positional { metavar: "FILE".to_string(), help: None };
    assert_eq!(pos.full_width(), 4 + 2);
    let cmd = Item::Command { name: "build".to_string(), short: None, help: None };
    assert_eq!(cmd.full_width(), 5);
    let cmd_short = Item::Command { name: "build".to_string(), short: Some('b'), help: None };
    assert_eq!(cmd_short.full_width(), 5 + 3);
}

#[test]
fn kind_per_variant() {
    assert_eq!(Item::Decor { help: None }.kind(), ItemKind::Decor);
    let pos = Item::Positional { metavar: "X".to_string(), help: None };
    assert_eq!(pos.kind(), ItemKind::Positional);
    let cmd = Item::Command { name: "c".to_string(), short: None, help: None };
    assert_eq!(cmd.kind(), ItemKind::Command);
    let flag = Item::Flag { name: ShortLong::Short('f'), help: None };
    assert_eq!(flag.kind(), ItemKind::Flag);
    let arg = Item::Argument {
        name: ShortLong::Short('a'),
        metavar: "V".to_string(),
        env: None,
        help: None,
    };
    assert_eq!(arg.kind(), ItemKind::Flag);
}

#[test]
fn help_returns_the_text_of_any_variant() {
    let flag = Item::Flag { name: ShortLong::Short('f'), help: Some("switch".to_string()) };
    assert_eq!(flag.help(), Some(&"switch".to_string()));
    let decor = Item::Decor { help: None };
    assert_eq!(decor.help(), None);
}

#[test]
fn is_command_only_for_command() {
    let cmd = Item::Command { name: "c".to_string(), short: None, help: None };
    assert!(cmd.is_command());
    assert!(!Item::Decor { help: None }.is_command());
    let flag = Item::Flag { name: ShortLong::Short('f'), help: None };
    assert!(!flag.is_command());
    let pos = Item::Positional { metavar: "X".to_string(), help: Some("h".to_string()) };
    assert!(!pos.is_command());
}

#[test]
fn is_flag_groups_decorations_with_flags() {
    let flag = Item::Flag { name: ShortLong::Short('f'), help: None };
    assert!(flag.is_flag());
    let arg = Item::Argument {
        name: ShortLong::Short('a'),
        metavar: "V".to_string(),
        env: None,
        help: None,
    };
    assert!(arg.is_flag());
    assert!(Item::Decor { help: None }.is_flag());
    let cmd = Item::Command { name: "c".to_string(), short: None, help: None };
    assert!(!cmd.is_flag());
    let pos = Item::Positional { metavar: "X".to_string(), help: None };
    assert!(!pos.is_flag());
}

#[test]
fn is_positional_needs_non_empty_help() {
    let with_help = Item::Positional { metavar: "X".to_string(), help: Some("doc".to_string()) };
    assert!(with_help.is_positional());
    let empty_help = Item::Positional { metavar: "X".to_string(), help: Some(String::new()) };
    assert!(!empty_help.is_positional());
    let no_help = Item::Positional { metavar: "X".to_string(), help: None };
    assert!(!no_help.is_positional());
    let flag = Item::Flag { name: ShortLong::Short('f'), help: Some("doc".to_string()) };
    assert!(!flag.is_positional());
    let cmd = Item::Command { name: "c".to_string(), short: None, help: Some("doc".to_string()) };
    assert!(!cmd.is_positional());
}

#[test]
fn required_wraps_optional_items() {
    let item = Item::Decor { help: None };
    assert_eq!(item.clone().required(true), Meta::Item(item.clone()));
    assert_eq!(
        item.clone().required(false),
        Meta::Optional(Box::new(Meta::Item(item)))
    );
}

#[test]
fn decoration_builds_a_decor_item() {
    assert_eq!(
        Item::decoration(Some("Heading".to_string())),
        Item::Decor { help: Some("Heading".to_string()) }
    );
    assert_eq!(Item::decoration(None), Item::Decor { help: None });
}

#[test]
fn from_named_picks_first_aliases() {
    let both = Named { short: vec!['a', 'b'], long: vec!["all".to_string(), "any".to_string()] };
    assert_eq!(
        ShortLong::from_named(&both),
        ShortLong::ShortLong('a', "all".to_string())
    );
    let short_only = Named { short: vec!['a'], long: vec![] };
    assert_eq!(ShortLong::from_named(&short_only), ShortLong::Short('a'));
    let long_only = Named { short: vec![], long: vec!["all".to_string()] };
    assert_eq!(
        ShortLong::from_named(&long_only),
        ShortLong::Long("all".to_string())
    );
}

#[test]
fn items_order_by_kind_then_fields() {
    let decor = Item::Decor { help: None };
    let pos = Item::Positional { metavar: "X".to_string(), help: None };
    let cmd = Item::Command { name: "c".to_string(), short: None, help: None };
    let flag = Item::Flag { name: ShortLong::Short('f'), help: None };
    let arg = Item::Argument {
        name: ShortLong::Short('a'),
        metavar: "V".to_string(),
        env: None,
        help: None,
    };
    assert!(decor < pos && pos < cmd && cmd < flag && flag < arg);
    let pos_b = Item::Positional { metavar: "Y".to_string(), help: None };
    assert!(pos < pos_b);
    assert!(ShortLong::Short('a') < ShortLong::Long("a".to_string()));
}

#[test]
fn env_values_compare_by_content() {
    assert_eq!(EnvValue::Present("x".to_string()), EnvValue::Present("x".to_string()));
    assert_ne!(EnvValue::Absent, EnvValue::NotUnicode);
}
