use depot_core::entry::{ActiveEntry, EntryArgs, Invoke, Read};
use depot_core::entryspace::{EntrySpace, LoadAction, Loader, OpenTarget, SpaceCall};
use depot_core::toml_model::{get_field, get_field_str, get_str_items, TomlValue};

fn s(x: &str) -> TomlValue {
    TomlValue::Str(x.to_string())
}

fn table(pairs: Vec<(&str, TomlValue)>) -> TomlValue {
    TomlValue::Table(pairs.into_iter().map(|(k, v)| (k.to_string(), v)).collect())
}

fn items() -> Vec<TomlValue> {
    vec![
        table(vec![
            ("name", s("fruit orange")),
            ("title", s("Orange")),
            ("description", s("This is an orange. It's orange.")),
            ("crate-type", s("shell")),
            ("exec", s("orange")),
            ("args", TomlValue::Array(vec![s("init"), TomlValue::Other, s("--fast")])),
        ]),
        table(vec![
            ("name", s("calculator")),
            ("title", s("Calc")),
            ("trigger", s(":calc")),
            ("crate-type", s("dylib")),
            ("path", s("plugins/calc")),
        ]),
        table(vec![("name", s("lua thing")), ("crate-type", s("lua")), ("path", s("x.lua"))]),
        table(vec![("name", s("b\u{f6}se")), ("crate-type", s("shell")), ("exec", s("ls"))]),
        table(vec![("name", s("broken")), ("crate-type", s("weird"))]),
        table(vec![("trigger", s(":m")), ("crate-type", s("shell"))]),
    ]
}

fn space() -> EntrySpace<&'static str> {
    EntrySpace::from_parts(&items(), &vec![11, 22, 33, 44, 55, 66])
}

#[test]
fn search_finds_by_name_and_shows_title() {
    let mut sp = space();
    assert!(sp.push("orange".to_string()).is_none());
    let r = sp.read(0).unwrap();
    assert_eq!(r.title, "Orange");
    assert_eq!(r.description, "This is an orange. It's orange.");
    assert!(sp.read(1).is_none());
    match sp.call(0) {
        Some(SpaceCall::Run(loader)) => match loader.invoke_action() {
            LoadAction::RunThenExit { program, args } => {
                assert_eq!(program, "orange");
                assert_eq!(args, vec!["init".to_string(), "--fast".to_string()]);
            }
            _ => panic!("a shell entry runs its command"),
        },
        _ => panic!("row 0 is the orange entry"),
    }
    assert!(sp.call(1).is_none());
}

#[test]
fn empty_pattern_lists_ascii_named_entries_in_order() {
    let mut sp = space();
    assert!(sp.push(String::new()).is_none());
    let titles: Vec<String> = (0..4).map(|i| sp.read(i).unwrap().title).collect();
    assert_eq!(titles, vec!["Orange", "Calc", "<No title>", "<No title>"]);
    assert_eq!(sp.read(2).unwrap().description, "");
    assert!(sp.read(4).is_none());
    match sp.call(3) {
        Some(SpaceCall::Run(loader)) => match loader.invoke_action() {
            LoadAction::Open(OpenTarget::Message(m)) => assert_eq!(m, "Unrecognized crate-type!"),
            _ => panic!("an unknown crate-type opens a message"),
        },
        _ => panic!("row 3 is the broken entry"),
    }
    match sp.call(2) {
        Some(SpaceCall::Run(Loader::Lua { path })) => assert_eq!(path, "x.lua"),
        _ => panic!("row 2 is the lua entry"),
    }
}

#[test]
fn trigger_raises_then_forwards_to_the_open_entry() {
    let mut sp = space();
    let raise = sp.push(":calc 1+2".to_string()).expect("the trigger raises its entry");
    assert_eq!(raise.ident, 22);
    match raise.loader.raise_target() {
        OpenTarget::Dylib(p) => assert_eq!(p, "plugins/calc"),
        _ => panic!("a dylib entry opens its library"),
    }
    assert_eq!(raise.args, "1+2");
    sp.activate(raise.ident, "calc is open", raise.args);
    assert!(sp.push(":calc 3*4".to_string()).is_none());
    let r = sp.read(0).unwrap();
    assert_eq!(r.title, "Message");
    assert_eq!(r.description, "calc is open");
    assert!(matches!(sp.call(0), Some(SpaceCall::Entry(Invoke::Remain))));
    assert!(sp.call(1).is_none());
    // Any other input closes the trigger entry and searches again.
    assert!(sp.push("calc".to_string()).is_none());
    assert_eq!(sp.read(0).unwrap().title, "Calc");
}

#[test]
fn trigger_of_a_shell_entry_without_exec() {
    let mut sp = space();
    let raise = sp.push(":m hello".to_string()).unwrap();
    assert_eq!(raise.ident, 66);
    assert_eq!(raise.args, "hello");
    match raise.loader.raise_target() {
        OpenTarget::Message(m) => assert_eq!(m, "Shell entry lack of `exec` key!"),
        _ => panic!("a broken shell entry opens a message"),
    }
    match raise.loader.invoke_action() {
        LoadAction::Open(OpenTarget::Message(m)) => assert_eq!(m, "Shell entry lack of `exec` key!"),
        _ => panic!("a broken shell entry opens a message"),
    }
}

#[test]
fn unknown_prefix_is_a_search() {
    let mut sp = space();
    assert!(sp.push(":nothing here".to_string()).is_none());
    assert!(sp.read(0).is_none());
}

#[test]
fn later_trigger_takes_the_prefix_over() {
    let items = vec![
        table(vec![("trigger", s(":x")), ("crate-type", s("dylib")), ("path", s("one"))]),
        table(vec![("trigger", s(":x")), ("crate-type", s("lua")), ("path", s("two"))]),
    ];
    let mut sp: EntrySpace<&'static str> = EntrySpace::from_parts(&items, &vec![1, 2]);
    let raise = sp.push(":x go".to_string()).unwrap();
    assert_eq!(raise.ident, 2);
    assert!(matches!(raise.loader.raise_target(), OpenTarget::Lua(p) if p == "two"));
}

#[test]
fn shell_trigger_cannot_be_raised() {
    let items = vec![table(vec![
        ("trigger", s(":sh")),
        ("crate-type", s("shell")),
        ("exec", s("true")),
    ])];
    let mut sp: EntrySpace<&'static str> = EntrySpace::from_parts(&items, &vec![5]);
    let raise = sp.push(":sh now".to_string()).unwrap();
    assert!(matches!(raise.loader.raise_target(), OpenTarget::Message(m) if m == "No raise-support for shell entry"));
}

#[test]
fn from_toml_reads_the_entry_array() {
    let doc = table(vec![("entry", TomlValue::Array(items()))]);
    let mut sp: EntrySpace<&'static str> = EntrySpace::from_toml(&doc).expect("random ids are available");
    assert!(sp.push("thing".to_string()).is_none());
    assert_eq!(sp.read(0).unwrap().title, "<No title>");
    let missing = table(vec![("other", TomlValue::Array(vec![]))]);
    assert!(EntrySpace::<&'static str>::from_toml(&missing).is_none());
    let empty = table(vec![("entry", TomlValue::Array(vec![]))]);
    let mut none: EntrySpace<&'static str> = EntrySpace::from_toml(&empty).expect("an empty array needs no random number");
    assert!(none.push(String::new()).is_none());
    assert!(none.read(0).is_none());
    let not_array = table(vec![("entry", s("x"))]);
    assert!(EntrySpace::<&'static str>::from_toml(&not_array).is_none());
}

#[test]
fn toml_model_lookups() {
    let t = table(vec![
        ("a", s("1")),
        ("list", TomlValue::Array(vec![s("x"), TomlValue::Other, s("y")])),
        ("a", s("shadowed")),
    ]);
    assert!(matches!(get_field(&t, "a"), Some(TomlValue::Str(v)) if v == "1"));
    assert!(get_field(&t, "b").is_none());
    assert!(get_field(&s("not a table"), "a").is_none());
    assert_eq!(get_field_str(&t, "a").unwrap(), "1");
    assert!(get_field_str(&t, "list").is_none());
    assert_eq!(get_str_items(&t, "list"), vec!["x".to_string(), "y".to_string()]);
    assert!(get_str_items(&t, "a").is_empty());
    assert!(get_str_items(&t, "missing").is_empty());
}

#[test]
fn basis() {
    const TEST_STR: &str = r#"
[[entry]]
name = "orange fruit"
title = "Orange"
[[entry]]
name = "apple red fruit"
title = "Apple"
"#;
    let mut entryspace: EntrySpace<&'static str> = EntrySpace::from_toml_text(TEST_STR).unwrap();

    entryspace.push("orn".into());
    assert_eq!(entryspace.read(0).map(|x| x.title), Some("Orange".into()));

    entryspace.push("apl".into());
    assert_eq!(entryspace.read(0).map(|x| x.title), Some("Apple".into()));
}

#[test]
fn toml_text_is_parsed_or_refused() {
    let text = r#"
[[entry]]
name = "fruit orange"
title = "Orange"
crate-type = "shell"
exec = "orange"
args = ["init", 3, "--fast"]
trigger = ":og"
"#;
    let mut sp: EntrySpace<&'static str> = EntrySpace::from_toml_text(text).unwrap();
    assert!(sp.push("orange".into()).is_none());
    match sp.call(0) {
        Some(SpaceCall::Run(loader)) => match loader.invoke_action() {
            LoadAction::RunThenExit { program, args } => {
                assert_eq!(program, "orange");
                assert_eq!(args, vec!["init".to_string(), "--fast".to_string()]);
            }
            _ => panic!("a shell entry runs its command"),
        },
        _ => panic!("row 0 is the orange entry"),
    }
    assert!(sp.push(":og x".into()).is_some());
    assert!(EntrySpace::<&'static str>::from_toml_text("this is [not toml").is_none());
    assert!(EntrySpace::<&'static str>::from_toml_text("other = 1").is_none());
    let mut empty: EntrySpace<&'static str> = EntrySpace::from_toml_text("entry = []").unwrap();
    assert!(empty.push(String::new()).is_none());
    assert!(empty.read(0).is_none());
}

/// An entry that shows the arguments last written to it.
struct Echo(String);

impl ActiveEntry for Echo {
    fn push(&mut self, args: EntryArgs) {
        self.0 = args;
    }

    fn read(&self, index: usize) -> Option<Read> {
        if index == 0 {
            Some(Read { title: self.0.clone(), description: String::new() })
        } else {
            None
        }
    }

    fn call(&self, _index: usize) -> Option<Invoke<Self>> {
        None
    }
}

#[test]
fn typed_trigger_hands_its_arguments_to_the_entry() {
    let mut sp: EntrySpace<Echo> = EntrySpace::from_parts(&items(), &vec![11, 22, 33, 44, 55, 66]);
    let raise = sp.push(":calc 2 + 1".to_string()).unwrap();
    sp.activate(raise.ident, Echo(String::new()), raise.args);
    assert_eq!(sp.read(0).unwrap().title, "2 + 1");
    assert!(sp.push(":calc 5".to_string()).is_none());
    assert_eq!(sp.read(0).unwrap().title, "5");
    assert!(sp.call(0).is_none());
}
