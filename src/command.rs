//! An external process invocation: a program and its arguments.
use vstd::prelude::*;

use crate::text::{join_spaced, lemma_views_push, lit, spaced, views};

verus! {

/// A program and its arguments.
pub struct CommandLine {
    pub program: String,
    pub args: Vec<String>,
}

/// A command as texts.
pub struct CommandView {
    pub program: Seq<char>,
    pub args: Seq<Seq<char>>,
}

impl View for CommandLine {
    type V = CommandView;

    open spec fn view(&self) -> CommandView {
        CommandView { program: self.program@, args: views(self.args@) }
    }
}

/// Appends `more` to `args`.
pub fn push_all(args: &mut Vec<String>, more: &Vec<String>)
    ensures
        views(final(args)@) == views(old(args)@) + views(more@),
{
    let ghost start = views(args@);
    let mut i: usize = 0;
    while i < more.len()
        invariant
            i <= more.len(),
            views(args@) == start + views(more@.subrange(0, i as int)),
        decreases more.len() - i,
    {
        let ghost before = args@;
        args.push(more[i].clone());
        proof {
            lemma_views_push(before, more@[i as int]);
            lemma_views_push(more@.subrange(0, i as int), more@[i as int]);
            assert(more@.subrange(0, i + 1) =~= more@.subrange(0, i as int).push(more@[i as int]));
        }
        assert(views(args@) =~= start + views(more@.subrange(0, i + 1)));
        i = i + 1;
    }
    assert(more@.subrange(0, more@.len() as int) =~= more@);
}

/// Appends one argument.
pub fn push_arg(args: &mut Vec<String>, arg: &str)
    ensures
        views(final(args)@) == views(old(args)@).push(arg@),
{
    args.push(lit(arg));
    assert(views(args@) =~= views(old(args)@).push(arg@));
}

impl CommandLine {
    /// The command as one line: the program and its arguments, space-separated.
    pub fn cli_str(&self) -> (r: String)
        ensures
            r@ == spaced(seq![self.program@] + views(self.args@)),
    {
        let mut words: Vec<String> = vec![self.program.clone()];
        assert(views(words@) =~= seq![self.program@]);
        push_all(&mut words, &self.args);
        join_spaced(&words)
    }
}

} // verus!
