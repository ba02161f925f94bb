//! The entry stack: entries opened on top of each other, each with the
//! arguments that were last written to it.
use vstd::prelude::*;

use crate::entry::{read_view, ActiveEntry, EntryArgs, Invoke, Read, ReadView};

verus! {

struct StackElement<E> {
    args: EntryArgs,
    active: E,
}

/// What the stack answers to a call.
#[derive(PartialEq, Eq, Debug)]
pub enum StackCall {
    /// Go on, with these arguments in the input bar.
    With(String),
    /// Quit.
    Exit,
}

/// A stack of active entries; the top one is the one the user sees.
pub struct Stack<E>(Vec<StackElement<E>>);

/// The row shown by an empty stack.
pub open spec fn empty_stack_read(index: int) -> Option<ReadView> {
    if index == 0 {
        Some(ReadView { title: "EntryStack is empty."@, description: "No entry here yet"@ })
    } else {
        None
    }
}

/// What carrying out the answer `invoke` makes of the stack `before`: the stack
/// `after` and the answer `r` (see [`Stack::apply`]).
pub open spec fn applied<E: ActiveEntry>(before: Stack<E>, invoke: Option<Invoke<E>>, after: Stack<E>, r: StackCall) -> bool {
    let n = before.depth();
    let a = before.args();
    let es = before.entries();
    match invoke {
        None => r == StackCall::With(r->0) && r->0@ == a[n - 1] && after.args() == a && after.entries() == es,
        Some(Invoke::Remain) => r == StackCall::With(r->0) && r->0@ == a[n - 1] && after.args() == a
            && after.entries() == es,
        Some(Invoke::Exit) => r == StackCall::Exit && after.args() == a && after.entries() == es,
        Some(Invoke::Leave) => {
            &&& after.args() == a.drop_last()
            &&& after.entries() == es.drop_last()
            &&& n == 1 ==> r == StackCall::Exit
            &&& n > 1 ==> r == StackCall::With(r->0) && r->0@ == a[n - 2]
        },
        Some(Invoke::Update(u)) => {
            &&& r == StackCall::With(r->0) && r->0@ == u@
            &&& after.depth() == n
            &&& after.args() == a.update(n - 1, u@)
            &&& after.entries().subrange(0, n - 1) == es.subrange(0, n - 1)
            &&& es[n - 1].pushed(u@, after.entries()[n - 1])
        },
        Some(Invoke::Raise(e)) => {
            &&& r == StackCall::With(r->0) && r->0@ == Seq::<char>::empty()
            &&& after.args() == a.push(Seq::<char>::empty())
            &&& after.entries() == es.push(e)
        },
    }
}

/// An entry raised on top that then leaves gives the levels below back as they were,
/// and the stack goes on with the arguments of the level it was raised from.
pub proof fn lemma_raise_then_leave<E: ActiveEntry>(
    s0: Stack<E>,
    e: E,
    s1: Stack<E>,
    r1: StackCall,
    s2: Stack<E>,
    r2: StackCall,
)
    requires
        s0.depth() > 0,
        applied(s0, Some(Invoke::Raise(e)), s1, r1),
        applied(s1, Some(Invoke::Leave), s2, r2),
    ensures
        s2.args() == s0.args(),
        s2.entries() == s0.entries(),
        r2 == StackCall::With(r2->0) && r2->0@ == s0.top_args(),
{
    s0.lemma_lengths();
    s1.lemma_lengths();
    assert(s0.args().push(Seq::<char>::empty()).drop_last() =~= s0.args());
    assert(s0.entries().push(e).drop_last() =~= s0.entries());
}

impl<E: ActiveEntry> Stack<E> {
    /// The arguments of each level, bottom first.
    pub closed spec fn args(&self) -> Seq<Seq<char>> {
        self.0@.map_values(|e: StackElement<E>| e.args@)
    }

    /// The entries of each level, bottom first.
    pub closed spec fn entries(&self) -> Seq<E> {
        self.0@.map_values(|e: StackElement<E>| e.active)
    }

    /// The number of levels.
    pub closed spec fn depth(&self) -> nat {
        self.0@.len()
    }

    /// The arguments of the top level.
    pub open spec fn top_args(&self) -> Seq<char> {
        self.args()[self.depth() - 1]
    }

    /// The entry of the top level, the one the user sees.
    pub open spec fn top(&self) -> E {
        self.entries()[self.depth() - 1]
    }

    pub proof fn lemma_lengths(&self)
        ensures
            self.args().len() == self.depth(),
            self.entries().len() == self.depth(),
    {
    }

    /// A stack holding one entry, with empty arguments.
    pub fn new(entry: E) -> (s: Self)
        ensures
            s.depth() == 1,
            s.args() == seq![Seq::<char>::empty()],
            s.entries() == seq![entry],
    {
        let v = vec![StackElement { args: String::new(), active: entry }];
        let s = Stack(v);
        assert(s.args() =~= seq![Seq::<char>::empty()]);
        assert(s.entries() =~= seq![entry]);
        s
    }

    /// Writes the input into the top entry: it becomes the top level's arguments and is
    /// pushed to the top entry. An empty stack is left as it is.
    pub fn write(&mut self, args: EntryArgs)
        ensures
            final(self).depth() == old(self).depth(),
            old(self).depth() == 0 ==> final(self).args() == old(self).args(),
            old(self).depth() > 0 ==> final(self).args() == old(self).args().update(
                old(self).depth() - 1,
                args@,
            ),
            old(self).depth() > 0 ==> final(self).entries().subrange(0, old(self).depth() - 1)
                == old(self).entries().subrange(0, old(self).depth() - 1),
            old(self).depth() > 0 ==> old(self).top().pushed(args@, final(self).top()),
    {
        if self.0.len() == 0 {
            return;
        }
        let ghost before = self.0@;
        let ghost a = args@;
        let mut last = self.0.pop().unwrap();
        last.args = args.clone();
        last.active.push(args);
        self.0.push(last);
        proof {
            let n = before.len() - 1;
            assert(before[n].active.pushed(a, last.active));
            assert(self.0@[n] == last);
            assert(self.args() =~= old(self).args().update(n, last.args@));
            assert(self.entries().subrange(0, n) =~= old(self).entries().subrange(0, n));
        }
    }

    /// The row `index` of the top entry; an empty stack shows one row that says so.
    pub fn read(&self, index: usize) -> (r: Option<Read>)
        ensures
            self.depth() == 0 ==> read_view(r) == empty_stack_read(index as int),
            self.depth() > 0 ==> self.top().shows(index, read_view(r)),
    {
        if self.0.len() == 0 {
            if index == 0 {
                return Some(
                    Read {
                        title: "EntryStack is empty.".to_owned(),
                        description: "No entry here yet".to_owned(),
                    },
                );
            } else {
                return None;
            }
        }
        let last = &self.0[self.0.len() - 1];
        last.active.read(index)
    }

    /// Calls row `index` of the top entry and carries out what it answers
    /// (see [`Stack::apply`] and [`applied`]). An empty stack answers `Exit`.
    pub fn call(&mut self, index: usize) -> (r: StackCall)
        ensures
            old(self).depth() == 0 ==> r == StackCall::Exit && final(self).args() == old(
                self,
            ).args(),
            final(self).depth() <= old(self).depth() + 1,
            old(self).depth() > 0 ==> exists|invoke: Option<Invoke<E>>|
                old(self).top().answers(index, invoke) && #[trigger] applied(
                    *old(self),
                    invoke,
                    *final(self),
                    r,
                ),
    {
        if self.0.len() == 0 {
            return StackCall::Exit;
        }
        let invoke = self.0[self.0.len() - 1].active.call(index);
        let ghost answer = invoke;
        let r = self.apply(invoke);
        proof {
            assert(self.args().len() == self.depth());
            assert(old(self).args().len() == old(self).depth());
            assert(applied(*old(self), answer, *self, r));
        }
        r
    }

    /// Carries out the answer `invoke` of the top entry:
    /// - nothing, or `Remain`: go on with the top arguments;
    /// - `Exit`: quit;
    /// - `Leave`: close the top entry and go on with the arguments of the one below, or quit
    ///   when none is left;
    /// - `Update(a)`: write `a` (see [`Stack::write`]) and go on with `a`;
    /// - `Raise(e)`: open `e` on top with empty arguments and go on with empty arguments.
    pub fn apply(&mut self, invoke: Option<Invoke<E>>) -> (r: StackCall)
        requires
            old(self).depth() > 0,
        ensures
            applied(*old(self), invoke, *final(self), r),
    {
        let n = self.0.len();
        match invoke {
            Some(Invoke::Exit) => StackCall::Exit,
            Some(Invoke::Leave) => {
                self.0.pop();
                proof {
                    assert(self.args() =~= old(self).args().drop_last());
                    assert(self.entries() =~= old(self).entries().drop_last());
                }
                if self.0.len() > 0 {
                    StackCall::With(self.0[self.0.len() - 1].args.clone())
                } else {
                    StackCall::Exit
                }
            },
            Some(Invoke::Update(args)) => {
                self.write(args.clone());
                StackCall::With(args)
            },
            Some(Invoke::Raise(entry)) => {
                self.0.push(StackElement { args: String::new(), active: entry });
                proof {
                    assert(self.args() =~= old(self).args().push(Seq::<char>::empty()));
                    assert(self.entries() =~= old(self).entries().push(entry));
                }
                StackCall::With(String::new())
            },
            _ => StackCall::With(self.0[n - 1].args.clone()),
        }
    }

    /// An iterator over the rows of the top entry, from row 0 on.
    pub fn iter(&self) -> (it: IntoIter<'_, E>)
        ensures
            it.position() == 0,
            it.stack() == self,
    {
        IntoIter(0, self)
    }
}

/// Walks the rows of the top entry of a stack.
pub struct IntoIter<'stack, E>(usize, &'stack Stack<E>);

impl<'stack, E: ActiveEntry> IntoIter<'stack, E> {
    /// The row that the next call reads.
    pub closed spec fn position(&self) -> nat {
        self.0 as nat
    }

    /// The stack being walked.
    pub closed spec fn stack(&self) -> &'stack Stack<E> {
        self.1
    }

    /// Reads the current row and moves on to the next one.
    pub fn next(&mut self) -> (r: Option<Read>)
        requires
            old(self).position() < usize::MAX,
        ensures
            final(self).position() == old(self).position() + 1,
            final(self).stack() == old(self).stack(),
            old(self).stack().depth() == 0 ==> read_view(r) == empty_stack_read(
                old(self).position() as int,
            ),
            old(self).stack().depth() > 0 ==> old(self).stack().top().shows(
                old(self).position() as usize,
                read_view(r),
            ),
    {
        let result = self.1.read(self.0);
        self.0 = self.0 + 1;
        result
    }
}

} // verus!
