//! A description of a process to start: data, not the act of starting it.

use vstd::prelude::*;

verus! {

/// A program, its arguments in order, and the directory to start it in.
#[derive(Clone, Debug, PartialEq, Eq)]
pub struct CommandLine {
    pub program: String,
    pub arguments: Vec<String>,
    /// `None`: the directory of the launcher itself.
    pub directory: Option<String>,
}

/// What a `CommandLine` holds, as plain sequences.
pub struct CommandLineView {
    pub program: Seq<char>,
    pub arguments: Seq<Seq<char>>,
    pub directory: Option<Seq<char>>,
}

impl View for CommandLine {
    type V = CommandLineView;

    open spec fn view(&self) -> CommandLineView {
        CommandLineView {
            program: self.program@,
            arguments: self.arguments.deep_view(),
            directory: self.directory.deep_view(),
        }
    }
}

/// `head` followed by `tail`.
pub fn append_texts(head: Vec<String>, tail: &Vec<String>) -> (all: Vec<String>)
    ensures
        all.deep_view() == head.deep_view() + tail.deep_view(),
{
    let mut all = head;
    let ghost first = all.deep_view();
    let mut i: usize = 0;
    assert(tail.deep_view().take(0) =~= Seq::<Seq<char>>::empty());
    assert(first + Seq::<Seq<char>>::empty() =~= first);
    while i < tail.len()
        invariant
            i <= tail.len(),
            all.deep_view() == first + tail.deep_view().take(i as int),
        decreases tail.len() - i,
    {
        let ghost before = all.deep_view();
        let item = tail[i].clone();
        all.push(item);
        proof {
            assert(all.deep_view() =~= before.push(tail@[i as int]@));
            assert(tail.deep_view().take(i + 1) =~= tail.deep_view().take(i as int).push(
                tail@[i as int]@,
            ));
            assert(first + tail.deep_view().take(i + 1) =~= before.push(tail@[i as int]@));
        }
        i += 1;
    }
    assert(tail.deep_view().take(tail.len() as int) =~= tail.deep_view());
    all
}

} // verus!
