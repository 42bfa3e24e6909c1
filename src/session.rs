//! State that one shell session keeps between commands: a list of names.
use std::collections::VecDeque;
use vstd::prelude::*;

verus! {

/// The names, separated by a comma and a space.
pub open spec fn joined(names: Seq<Seq<char>>) -> Seq<char>
    decreases names.len(),
{
    if names.len() == 0 {
        Seq::empty()
    } else if names.len() == 1 {
        names[0]
    } else {
        joined(names.drop_last()) + seq![',', ' '] + names.last()
    }
}

/// The per-session list that the shell's `append` and `prepend` commands edit.
pub struct Context {
    list: VecDeque<String>,
}

impl View for Context {
    type V = Seq<Seq<char>>;

    closed spec fn view(&self) -> Seq<Seq<char>> {
        self.list@.map_values(|s: String| s@)
    }
}

impl Default for Context {
    fn default() -> (r: Context)
        ensures
            r@ == Seq::<Seq<char>>::empty(),
    {
        let r = Context { list: VecDeque::new() };
        assert(r@ =~= Seq::<Seq<char>>::empty());
        r
    }
}

impl Context {
    /// The names in order, separated by a comma and a space.
    pub fn listing(&self) -> (r: String)
        ensures
            r@ == joined(self@),
    {
        let mut r = String::new();
        let n = self.list.len();
        let mut i: usize = 0;
        while i < n
            invariant
                n == self@.len(),
                i <= n,
                r@ == joined(self@.take(i as int)),
            decreases n - i,
        {
            let ghost next = self@.take(i + 1);
            assert(next.drop_last() =~= self@.take(i as int));
            assert(next.last() == self@[i as int]);
            assert(next.len() == i + 1);
            proof {
                reveal_strlit(", ");
            }
            if i > 0 {
                r.append(", ");
            }
            r.append(self.list[i].as_str());
            assert(self@[i as int] == self.list@[i as int]@);
            assert(r@ =~= joined(next));
            i = i + 1;
        }
        assert(self@.take(n as int) =~= self@);
        r
    }

    /// Adds `name` at the end and returns the whole list.
    pub fn append(&mut self, name: String) -> (r: String)
        ensures
            final(self)@ == old(self)@.push(name@),
            r@ == joined(final(self)@),
    {
        self.list.push_back(name);
        assert(self@ =~= old(self)@.push(name@));
        self.listing()
    }

    /// Adds `name` at the front and returns the whole list.
    pub fn prepend(&mut self, name: String) -> (r: String)
        ensures
            final(self)@ == seq![name@] + old(self)@,
            r@ == joined(final(self)@),
    {
        self.list.push_front(name);
        assert(self@ =~= seq![name@] + old(self)@);
        self.listing()
    }
}

} // verus!
