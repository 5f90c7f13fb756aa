//! The values that the command line supplied, as plain data.

use vstd::prelude::*;

verus! {

/// One argument that was present on the command line.
#[derive(Debug, PartialEq, Eq)]
pub struct CliArgument {
    pub name: String,
    pub value: String,
}

/// What the command line supplied: for each field name, whether an argument
/// was present, and its value if so. Presence and value always agree, since a
/// name is present exactly when a value is recorded for it.
#[derive(Debug, PartialEq, Eq)]
pub struct CliValues {
    arguments: Vec<CliArgument>,
}

/// The map that a list of arguments stands for; a later argument overrides an
/// earlier one of the same name.
pub open spec fn collected(arguments: Seq<CliArgument>) -> Map<Seq<char>, Seq<char>>
    decreases arguments.len(),
{
    if arguments.len() == 0 {
        Map::empty()
    } else {
        collected(arguments.drop_last()).insert(arguments.last().name@, arguments.last().value@)
    }
}

impl View for CliValues {
    type V = Map<Seq<char>, Seq<char>>;

    closed spec fn view(&self) -> Map<Seq<char>, Seq<char>> {
        collected(self.arguments@)
    }
}

/// The value recorded for `name`, if any.
pub open spec fn cli_value(cli: Map<Seq<char>, Seq<char>>, name: Seq<char>) -> Option<Seq<char>> {
    if cli.dom().contains(name) {
        Some(cli[name])
    } else {
        None
    }
}

impl CliValues {
    /// A command line on which no argument was present.
    pub fn new() -> (cli: Self)
        ensures
            cli@ == Map::<Seq<char>, Seq<char>>::empty(),
    {
        CliValues { arguments: Vec::new() }
    }

    /// Records that `name` was present with `value`.
    pub fn supply(&mut self, name: String, value: String)
        ensures
            final(self)@ == old(self)@.insert(name@, value@),
    {
        let ghost before = self.arguments@;
        self.arguments.push(CliArgument { name, value });
        assert(self.arguments@.drop_last() == before);
    }

    /// The value that was supplied for `name`, or `None` if `name` was absent.
    pub fn value_of(&self, name: &String) -> (value: Option<&String>)
        ensures
            match value {
                Some(v) => cli_value(self@, name@) == Some(v@),
                None => cli_value(self@, name@) is None,
            },
    {
        let mut found: Option<&String> = None;
        let mut i: usize = 0;
        while i < self.arguments.len()
            invariant
                i <= self.arguments.len(),
                match found {
                    Some(v) => cli_value(collected(self.arguments@.take(i as int)), name@) == Some(
                        v@,
                    ),
                    None => cli_value(collected(self.arguments@.take(i as int)), name@) is None,
                },
            decreases self.arguments.len() - i,
        {
            assert(self.arguments@.take(i + 1).drop_last() == self.arguments@.take(i as int));
            if self.arguments[i].name == *name {
                found = Some(&self.arguments[i].value);
            }
            i += 1;
        }
        assert(self.arguments@.take(i as int) == self.arguments@);
        found
    }

    /// Whether an argument named `name` was present.
    pub fn is_present(&self, name: &String) -> (present: bool)
        ensures
            present == self@.dom().contains(name@),
    {
        self.value_of(name).is_some()
    }
}

} // verus!
