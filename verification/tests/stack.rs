use depot_core::entry::{ActiveEntry, EntryArgs, Invoke, Read};
use depot_core::stack::{Stack, StackCall};

/// An entry that shows its arguments in a few shapes, and whose rows update,
/// leave or raise.
struct TestEntry(String);

impl ActiveEntry for TestEntry {
    fn push(&mut self, args: EntryArgs) {
        self.0 = args;
    }

    fn read(&self, index: usize) -> Option<Read> {
        let title = match index {
            0 | 1 => self.0.clone(),
            2 => format!("{} * 2", self.0),
            3 => "..".to_string(),
            4 => "Raise".to_string(),
            _ => return None,
        };
        Some(Read { title, description: String::new() })
    }

    fn call(&self, index: usize) -> Option<Invoke<Self>> {
        match index {
            0 | 1 => Some(Invoke::Remain),
            2 => Some(Invoke::Update(format!("{}{}", self.0, self.0))),
            3 => Some(Invoke::Leave),
            4 => Some(Invoke::Raise(TestEntry("Test".into()))),
            _ => None,
        }
    }
}

#[test]
fn stack() {
    let mut stack = Stack::new(TestEntry("EntryStackTest".into()));
    assert_eq!(stack.read(0).unwrap().title, "EntryStackTest");
    assert_eq!(stack.read(2).unwrap().title, "EntryStackTest * 2");

    stack.write("foo2bar".into());

    assert_eq!(stack.read(0).unwrap().title, "foo2bar");
    assert_eq!(stack.read(2).unwrap().title, "foo2bar * 2");

    assert_eq!(stack.call(4), StackCall::With("".into()));

    assert_eq!(stack.read(0).unwrap().title, "Test");
    assert_eq!(stack.read(1).unwrap().title, "Test");
    assert_eq!(stack.read(2).unwrap().title, "Test * 2");
    assert_eq!(stack.read(3).unwrap().title, "..");
    assert_eq!(stack.read(4).unwrap().title, "Raise");

    stack.write("baz3oxy4".into());

    assert_eq!(stack.read(0).unwrap().title, "baz3oxy4");
    assert_eq!(stack.read(1).unwrap().title, "baz3oxy4");
    assert_eq!(stack.read(2).unwrap().title, "baz3oxy4 * 2");

    assert_eq!(stack.call(2), StackCall::With("baz3oxy4baz3oxy4".into()));
    assert_eq!(stack.read(0).unwrap().title, "baz3oxy4baz3oxy4");

    assert_eq!(stack.call(3), StackCall::With("foo2bar".into()));
    assert_eq!(stack.read(0).unwrap().title, "foo2bar");

    assert_eq!(stack.call(3), StackCall::Exit);
}

#[test]
fn message_entry_rows() {
    let mut stack = Stack::new("hello");
    assert_eq!(stack.call(5), StackCall::With("".into()));
    let r = stack.read(0).unwrap();
    assert_eq!(r.title, "Message");
    assert_eq!(r.description, "hello");
    assert!(stack.read(1).is_none());
    // The message entry answers Remain on row 0.
    assert_eq!(stack.call(0), StackCall::With("".into()));
}

#[test]
fn apply_leave_on_last_level_exits_and_empty_stack_notice() {
    let mut stack = Stack::new(TestEntry("x".into()));
    assert_eq!(stack.apply(Some(Invoke::Leave)), StackCall::Exit);
    let r = stack.read(0).unwrap();
    assert_eq!(r.title, "EntryStack is empty.");
    assert_eq!(r.description, "No entry here yet");
    assert!(stack.read(1).is_none());
    assert_eq!(stack.call(0), StackCall::Exit);
    stack.write("ignored".into());
    assert!(stack.read(1).is_none());
}

#[test]
fn apply_each_answer() {
    let mut stack = Stack::new(TestEntry("a".into()));
    stack.write("first".into());
    assert_eq!(stack.apply(None), StackCall::With("first".into()));
    assert_eq!(stack.apply(Some(Invoke::Remain)), StackCall::With("first".into()));
    assert_eq!(stack.apply(Some(Invoke::Exit)), StackCall::Exit);
    assert_eq!(stack.apply(Some(Invoke::Update("up".into()))), StackCall::With("up".into()));
    assert_eq!(stack.read(0).unwrap().title, "up");
    assert_eq!(stack.apply(Some(Invoke::Raise(TestEntry("b".into())))), StackCall::With("".into()));
    assert_eq!(stack.read(0).unwrap().title, "b");
    assert_eq!(stack.apply(Some(Invoke::Leave)), StackCall::With("up".into()));
}

#[test]
fn iter_walks_rows_until_none() {
    let stack = Stack::new(TestEntry("w".into()));
    let mut it = stack.iter();
    let mut titles = Vec::new();
    while let Some(r) = it.next() {
        titles.push(r.title);
    }
    assert_eq!(titles, vec!["w", "w", "w * 2", "..", "Raise"]);
}
