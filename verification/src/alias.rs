//! Alternative names for typed commands.
//!
//! An alias is a name under which a command can be called; it may stand for a
//! command line with flags, such as `wa` for `write --all`.
use vstd::prelude::*;

use crate::text::{chars_of, str_eq};

verus! {

broadcast use vstd::string::group_string_axioms;

/// The aliases of a command.
#[derive(Debug, Clone, Copy)]
pub struct Aliases {
    pub aliases: &'static [Alias],
}

/// One alias: its name and, optionally, the command line it stands for.
#[derive(Debug, Clone, Copy)]
pub struct Alias {
    pub name: &'static str,
    pub command: Option<&'static str>,
}

/// The first alias with the given name.
pub open spec fn find_alias(aliases: Seq<Alias>, name: Seq<char>) -> Option<Alias>
    decreases aliases.len(),
{
    if aliases.len() == 0 {
        None
    } else if aliases[0].name@ == name {
        Some(aliases[0])
    } else {
        find_alias(aliases.drop_first(), name)
    }
}

/// The first position at or after `i` where `s` holds `c`.
pub open spec fn index_of_from(s: Seq<char>, c: char, i: int) -> Option<int>
    decreases s.len() - i,
{
    if i < 0 || i >= s.len() {
        None
    } else if s[i] == c {
        Some(i)
    } else {
        index_of_from(s, c, i + 1)
    }
}

/// What follows the first space of a command line: its flags.
pub open spec fn flags_of(command: Seq<char>) -> Option<Seq<char>> {
    match index_of_from(command, ' ', 0) {
        Some(i) => Some(command.subrange(i + 1, command.len() as int)),
        None => None,
    }
}

impl Aliases {
    /// No aliases.
    pub fn empty() -> (a: Self)
        ensures
            a.aliases@.len() == 0,
    {
        Aliases { aliases: &[] }
    }

    /// Whether there are no aliases.
    pub fn is_empty(&self) -> (r: bool)
        ensures
            r == (self.aliases@.len() == 0),
    {
        self.aliases.len() == 0
    }

    /// The first alias with the given name.
    pub fn get(&self, name: &str) -> (r: Option<&Alias>)
        ensures
            match find_alias(self.aliases@, name@) {
                Some(a) => r matches Some(b) && *b == a,
                None => r is None,
            },
    {
        let mut i: usize = 0;
        assert(self.aliases@.skip(0) =~= self.aliases@);
        while i < self.aliases.len()
            invariant
                i <= self.aliases@.len(),
                find_alias(self.aliases@, name@) == find_alias(self.aliases@.skip(i as int), name@),
            decreases self.aliases@.len() - i,
        {
            assert(self.aliases@.skip(i as int).drop_first() =~= self.aliases@.skip(i + 1));
            assert(self.aliases@.skip(i as int)[0] == self.aliases@[i as int]);
            if str_eq(self.aliases[i].name, name) {
                return Some(&self.aliases[i]);
            }
            i += 1;
        }
        None
    }

    /// All aliases, in order.
    pub fn iter(&self) -> (r: &'static [Alias])
        ensures
            r@ == self.aliases@,
    {
        self.aliases
    }
}

impl Alias {
    /// The flags of the command line the alias stands for: the text after its first
    /// space. `None` when the alias stands for no command line or the command line
    /// has no space.
    pub fn flags(&self) -> (r: Option<&str>)
        ensures
            match self.command {
                None => r is None,
                Some(c) => match flags_of(c@) {
                    None => r is None,
                    Some(f) => r matches Some(s) && s@ == f,
                },
            },
    {
        match self.command {
            None => None,
            Some(command) => {
                let chars = chars_of(command);
                let n = chars.len();
                let mut i: usize = 0;
                while i < n
                    invariant
                        chars@ == command@,
                        self.command == Some(command),
                        n == chars@.len(),
                        i <= n,
                        index_of_from(command@, ' ', 0) == index_of_from(command@, ' ', i as int),
                    decreases n - i,
                {
                    if chars[i] == ' ' {
                        assert(index_of_from(command@, ' ', i as int) == Some(i as int));
                        return Some(command.substring_char(i + 1, n));
                    }
                    i += 1;
                }
                None
            },
        }
    }
}

} // verus!
