//! Translates an embedded build tool's project metadata, captured as a JSON
//! document, into the compiler-invocation arguments a binding generator needs:
//! language selection, target triple, then one argument per library source
//! directory, preprocessor define and include directory, in the document's
//! own order. The caller runs the tool and hands the captured text in; every
//! parse or shape failure is reported as a single fatal error value.

use vstd::prelude::*;

pub mod adapter;
pub mod json;
pub mod meta;

verus! {

/// An accumulator of compiler-invocation arguments, kept in the order in
/// which they were appended.
pub struct ArgBuilder {
    args: Vec<String>,
}

impl View for ArgBuilder {
    type V = Seq<Seq<char>>;

    closed spec fn view(&self) -> Seq<Seq<char>> {
        self.args.deep_view()
    }
}

impl ArgBuilder {
    pub fn new() -> (r: ArgBuilder)
        ensures
            r@ == Seq::<Seq<char>>::empty(),
    {
        ArgBuilder { args: Vec::new() }
    }

    pub fn push(&mut self, a: String)
        ensures
            final(self)@ == old(self)@.push(a@),
    {
        self.args.push(a);
        proof {
            assert(self@ =~= old(self)@.push(a@));
        }
    }

    pub fn args(&self) -> (r: &Vec<String>)
        ensures
            r.deep_view() == self@,
    {
        &self.args
    }
}

} // verus!
