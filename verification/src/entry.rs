//! Entries: the unit of content that the launcher shows and acts upon.
use vstd::prelude::*;

verus! {

/// What an entry shows for one of its rows.
#[derive(Clone, Debug)]
pub struct Read {
    pub title: String,
    pub description: String,
}

/// The mathematical content of a [`Read`]: its title and its description.
pub struct ReadView {
    pub title: Seq<char>,
    pub description: Seq<char>,
}

impl View for Read {
    type V = ReadView;

    open spec fn view(&self) -> ReadView {
        ReadView { title: self.title@, description: self.description@ }
    }
}

impl Read {
    /// A copy of this row.
    pub fn duplicate(&self) -> (r: Read)
        ensures
            r@ == self@,
    {
        Read { title: self.title.clone(), description: self.description.clone() }
    }
}

/// The arguments that the input bar hands to an entry.
pub type EntryArgs = String;

/// What calling a row of an entry asks the stack to do.
pub enum Invoke<E> {
    /// Open a new entry on top of the current one.
    Raise(E),
    /// Replace the input with new arguments.
    Update(EntryArgs),
    /// Close the current entry.
    Leave,
    /// Quit the launcher.
    Exit,
    /// Stay where we are.
    Remain,
}

/// The content of an optional row.
pub open spec fn read_view(r: Option<Read>) -> Option<ReadView> {
    match r {
        Some(x) => Some(x@),
        None => None,
    }
}

/// An *active* entry with full functions.
///
/// Implementations decide what rows an entry shows and what calling them does, and
/// describe it by three relations: which rows it may show, which answers it may give,
/// and what writing arguments may make of it.
pub trait ActiveEntry: Sized {
    /// The entry may show `r` as its row `index`. An entry that says nothing of its
    /// rows may show any.
    closed spec fn shows(&self, index: usize, r: Option<ReadView>) -> bool {
        true
    }

    /// The entry may answer `r` when its row `index` is called. An entry that says
    /// nothing of its answers may give any.
    closed spec fn answers(&self, index: usize, r: Option<Invoke<Self>>) -> bool {
        true
    }

    /// Writing `args` to the entry may leave it as `after`. An entry that says nothing
    /// of it may become anything.
    closed spec fn pushed(&self, args: Seq<char>, after: Self) -> bool {
        true
    }

    fn push(&mut self, args: EntryArgs)
        ensures
            old(self).pushed(args@, *final(self)),
    ;

    fn read(&self, index: usize) -> (r: Option<Read>)
        ensures
            self.shows(index, read_view(r)),
    ;

    fn call(&self, index: usize) -> (r: Option<Invoke<Self>>)
        ensures
            self.answers(index, r),
    ;
}

/// The row that a plain message entry shows.
pub open spec fn message_read(message: Seq<char>, index: int) -> Option<ReadView> {
    if index == 0 {
        Some(ReadView { title: "Message"@, description: message })
    } else {
        None
    }
}

/// A message: an entry that shows one row holding its text.
impl<'a> ActiveEntry for &'a str {
    open spec fn shows(&self, index: usize, r: Option<ReadView>) -> bool {
        r == message_read(self@, index as int)
    }

    open spec fn answers(&self, index: usize, r: Option<Invoke<Self>>) -> bool {
        if index == 0 {
            r matches Some(Invoke::Remain)
        } else {
            r is None
        }
    }

    open spec fn pushed(&self, args: Seq<char>, after: Self) -> bool {
        after == *self
    }

    /// A message ignores what is written to it.
    fn push(&mut self, args: EntryArgs)
        ensures
            *final(self) == *old(self),
    {
    }

    fn read(&self, index: usize) -> (r: Option<Read>)
        ensures
            r matches Some(x) ==> message_read(self@, index as int) == Some(x@),
            r is None ==> message_read(self@, index as int) is None,
    {
        if index == 0 {
            Some(Read { title: "Message".to_owned(), description: (*self).to_owned() })
        } else {
            None
        }
    }

    fn call(&self, index: usize) -> (r: Option<Invoke<Self>>)
        ensures
            index == 0 ==> r matches Some(Invoke::Remain),
            index != 0 ==> r is None,
    {
        if index == 0 {
            Some(Invoke::Remain)
        } else {
            None
        }
    }
}

} // verus!
